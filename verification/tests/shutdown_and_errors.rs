//! Shutdown sequences of both variants, the error taxonomy, and the
//! variant-blindness of outcome kinds.

use unified_transport::outcome::Async;
use unified_transport::outcome::ErrorKind;
use unified_transport::outcome::OutcomeKind;
use unified_transport::outcome::outcome_kind;
use unified_transport::stream_type::StreamType;
use unified_transport::tcp::TcpStream;
use unified_transport::tls::CLOSE_NOTIFY;
use unified_transport::tls::TlsStream;

#[test]
fn plain_shutdown_is_direct() {
    let tcp = TcpStream::connected(4);
    let mut s = StreamType::from(tcp);
    assert_eq!(s.shutdown(), Ok(Async::Ready(())));
    assert!(s.is_shut());
    // No extra handshake: nothing was put on the wire.
    assert_eq!(s.take_sent(), Vec::<u8>::new());
    // The plain variant owes no close announcement.
    assert!(s.close_notified());
}

#[test]
fn secure_shutdown_emits_close_notify_first() {
    let tls = TlsStream::handshaken(TcpStream::connected(4));
    let mut s = StreamType::from(tls);
    assert!(!s.close_notified());
    assert_eq!(s.shutdown(), Ok(Async::Ready(())));
    assert!(s.close_notified());
    assert!(s.is_shut());
    // The close notification went onto the wire before the endpoint closed.
    assert_eq!(s.take_sent(), vec![CLOSE_NOTIFY]);
}

#[test]
fn secure_shutdown_spans_turns_when_wire_is_full() {
    let tls = TlsStream::handshaken(TcpStream::connected(0));
    let mut s = StreamType::from(tls);

    // No room for the close notification: not ready, nothing closed yet.
    assert_eq!(s.shutdown(), Ok(Async::NotReady));
    assert!(!s.close_notified());
    assert!(!s.is_shut());

    let woken = s.grant_write(1);
    assert!(woken, "the pending shutdown must be woken when room appears");

    assert_eq!(s.shutdown(), Ok(Async::Ready(())));
    assert!(s.close_notified());
    assert!(s.is_shut());
    assert_eq!(s.take_sent(), vec![CLOSE_NOTIFY]);
}

#[test]
fn write_after_shutdown_is_broken_pipe() {
    let tcp = TcpStream::connected(4);
    let mut s = StreamType::from(tcp);
    assert_eq!(s.shutdown(), Ok(Async::Ready(())));
    assert_eq!(s.write(&vec![1u8]), Err(ErrorKind::BrokenPipe));
}

#[test]
fn blocking_read_without_data_would_block() {
    let tcp = TcpStream::connected(4);
    let mut s = StreamType::from(tcp);
    let mut buf: Vec<u8> = vec![0u8; 4];
    assert_eq!(s.read(&mut buf), Err(ErrorKind::WouldBlock));
    // The would-block answer registered a wakeup, exactly as the
    // cooperative read does.
    assert!(s.deliver(&vec![9u8]));
}

#[test]
fn injected_fault_is_forwarded_verbatim() {
    let mut tcp = TcpStream::connected(4);
    tcp.inject_fault(ErrorKind::ConnectionReset);
    let mut s = StreamType::from(tcp);
    let mut buf: Vec<u8> = vec![0u8; 4];
    assert_eq!(s.read(&mut buf), Err(ErrorKind::ConnectionReset));
    // A fault is reported once; afterwards the endpoint works on.
    assert_eq!(s.read(&mut buf), Err(ErrorKind::WouldBlock));

    s.inject_fault(ErrorKind::Other);
    assert_eq!(s.flush(), Err(ErrorKind::Other));
    assert_eq!(s.flush(), Ok(()));

    s.inject_fault(ErrorKind::ConnectionReset);
    let mut grow: Vec<u8> = Vec::new();
    assert_eq!(s.read_buf(&mut grow), Err(ErrorKind::ConnectionReset));
    assert!(grow.is_empty());
}

#[test]
fn secure_fault_surfaces_as_ordinary_failure() {
    let mut tls = TlsStream::handshaken(TcpStream::connected(4));
    tls.inject_fault(ErrorKind::Other);
    let mut s = StreamType::from(tls);
    assert_eq!(s.write(&vec![1u8, 2]), Err(ErrorKind::Other));
    assert_eq!(s.write(&vec![1u8, 2]), Ok(2));
}

#[test]
fn outcome_kind_classifies() {
    assert_eq!(outcome_kind(&Ok::<Async<usize>, ErrorKind>(Async::Ready(3))), OutcomeKind::Ready);
    assert_eq!(outcome_kind(&Ok::<Async<usize>, ErrorKind>(Async::NotReady)), OutcomeKind::NotReady);
    assert_eq!(
        outcome_kind(&Err::<Async<usize>, ErrorKind>(ErrorKind::Other)),
        OutcomeKind::Failed
    );
}

#[test]
fn variants_answer_identical_outcome_kinds() {
    // The identical call sequence against a plain and a secure instance
    // must produce the identical sequence of outcome kinds.
    let runs = [
        StreamType::from(TcpStream::connected(8)),
        StreamType::from(TlsStream::handshaken(TcpStream::connected(8))),
    ];
    let mut kind_logs: Vec<Vec<OutcomeKind>> = Vec::new();
    for mut s in runs {
        let mut kinds: Vec<OutcomeKind> = Vec::new();
        let mut grow: Vec<u8> = Vec::new();

        kinds.push(outcome_kind(&s.read_buf(&mut grow)));
        s.deliver(&b"hi".to_vec());
        kinds.push(outcome_kind(&s.read_buf(&mut grow)));
        kinds.push(match s.write(&b"ok".to_vec()) {
            Ok(_) => OutcomeKind::Ready,
            Err(ErrorKind::WouldBlock) => OutcomeKind::NotReady,
            Err(_) => OutcomeKind::Failed,
        });
        kinds.push(match s.flush() {
            Ok(_) => OutcomeKind::Ready,
            Err(_) => OutcomeKind::Failed,
        });
        kinds.push(outcome_kind(&s.shutdown()));
        assert_eq!(grow, b"hi".to_vec());
        kind_logs.push(kinds);
    }
    assert_eq!(kind_logs[0], kind_logs[1]);
    assert_eq!(
        kind_logs[0],
        vec![
            OutcomeKind::NotReady,
            OutcomeKind::Ready,
            OutcomeKind::Ready,
            OutcomeKind::Ready,
            OutcomeKind::Ready,
        ]
    );
}
