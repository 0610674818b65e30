//! Behavior of the unified transport over in-memory endpoints: conversion
//! transparency, partial reads, the cooperative wakeup discipline, and the
//! loopback round trip.

use unified_transport::buffer::ByteBuf;
use unified_transport::outcome::Async;
use unified_transport::outcome::ErrorKind;
use unified_transport::stream_type::StreamType;
use unified_transport::tcp::TcpStream;
use unified_transport::tls::TlsStream;

#[test]
fn plain_loopback_ping() {
    let a = TcpStream::connected(16);
    let mut peer = TcpStream::connected(16);
    let mut s = StreamType::from(a);

    let ping: Vec<u8> = b"ping".to_vec();
    let n = s.write(&ping).unwrap();
    assert_eq!(n, 4);

    let wire = s.take_sent();
    assert_eq!(wire, b"ping".to_vec());
    peer.deliver(&wire);

    let mut buf: Vec<u8> = vec![0u8; 16];
    let got = peer.read(&mut buf).unwrap();
    assert_eq!(got, 4);
    assert_eq!(&buf[..got], b"ping");
}

#[test]
fn partial_read_returns_what_arrived() {
    let mut tcp = TcpStream::connected(8);
    tcp.deliver(&vec![10u8, 20, 30]);
    let mut s = StreamType::from(tcp);

    let mut buf: Vec<u8> = vec![0u8; 8];
    let n = s.read(&mut buf).unwrap();
    assert_eq!(n, 3);
    assert_eq!(&buf[..3], &[10u8, 20, 30]);
    assert_eq!(&buf[3..], &[0u8; 5]);
}

#[test]
fn read_caps_at_buffer_room() {
    let mut tcp = TcpStream::connected(8);
    tcp.deliver(&vec![1u8, 2, 3, 4, 5]);
    let mut s = StreamType::from(tcp);

    let mut buf: Vec<u8> = vec![0u8; 2];
    assert_eq!(s.read(&mut buf), Ok(2));
    assert_eq!(buf, vec![1u8, 2]);
    let mut rest: Vec<u8> = vec![0u8; 8];
    assert_eq!(s.read(&mut rest), Ok(3));
    assert_eq!(&rest[..3], &[3u8, 4, 5]);
}

#[test]
fn not_ready_then_wakeup_then_data() {
    let tcp = TcpStream::connected(8);
    let mut s = StreamType::from(tcp);

    let mut buf: Vec<u8> = Vec::new();
    assert_eq!(s.read_buf(&mut buf), Ok(Async::NotReady));

    let woken = s.deliver(&b"abc".to_vec());
    assert!(woken, "a registered reader must be woken when data arrives");

    assert_eq!(s.read_buf(&mut buf), Ok(Async::Ready(3)));
    assert_eq!(buf, b"abc".to_vec());

    // The data was consumed; a further poll registers anew.
    assert_eq!(s.read_buf(&mut buf), Ok(Async::NotReady));
}

#[test]
fn delivery_without_registration_wakes_nobody() {
    let tcp = TcpStream::connected(8);
    let mut s = StreamType::from(tcp);
    assert!(!s.deliver(&b"xyz".to_vec()));
    let mut buf: Vec<u8> = Vec::new();
    assert_eq!(s.read_buf(&mut buf), Ok(Async::Ready(3)));
    assert_eq!(buf, b"xyz".to_vec());
}

#[test]
fn end_of_stream_reads_zero_bytes() {
    let mut tcp = TcpStream::connected(8);
    tcp.deliver_eof();
    let mut s = StreamType::from(tcp);

    let mut buf: Vec<u8> = vec![0u8; 4];
    assert_eq!(s.read(&mut buf), Ok(0));
    assert_eq!(buf, vec![0u8; 4]);
    let mut grow: Vec<u8> = Vec::new();
    assert_eq!(s.read_buf(&mut grow), Ok(Async::Ready(0)));
    assert!(grow.is_empty());
}

#[test]
fn eof_wakes_pending_reader() {
    let tcp = TcpStream::connected(8);
    let mut s = StreamType::from(tcp);
    let mut grow: Vec<u8> = Vec::new();
    assert_eq!(s.read_buf(&mut grow), Ok(Async::NotReady));
    assert!(s.deliver_eof());
    assert_eq!(s.read_buf(&mut grow), Ok(Async::Ready(0)));
}

#[test]
fn write_is_partial_when_room_is_short() {
    let tcp = TcpStream::connected(2);
    let mut s = StreamType::from(tcp);

    let data: Vec<u8> = vec![7u8, 8, 9, 10, 11];
    assert_eq!(s.write(&data), Ok(2));
    assert_eq!(s.take_sent(), vec![7u8, 8]);
    assert_eq!(s.write(&data), Err(ErrorKind::WouldBlock));
    assert!(s.grant_write(3));
    assert_eq!(s.write(&data), Ok(3));
    assert_eq!(s.take_sent(), vec![7u8, 8, 9]);
}

#[test]
fn cooperative_write_drains_cursor() {
    let tcp = TcpStream::connected(0);
    let mut s = StreamType::from(tcp);

    let mut src = ByteBuf::new(vec![1u8, 2, 3, 4]);
    assert_eq!(s.write_buf(&mut src), Ok(Async::NotReady));
    assert_eq!(src.remaining(), 4);

    let woken = s.grant_write(3);
    assert!(woken, "a registered writer must be woken when room appears");

    assert_eq!(s.write_buf(&mut src), Ok(Async::Ready(3)));
    assert_eq!(src.remaining(), 1);
    assert_eq!(src.get(0), 4);
    assert_eq!(s.take_sent(), vec![1u8, 2, 3]);
}

#[test]
fn converted_matches_concrete() {
    // The same call sequence against the endpoint directly and against the
    // unified form over an identically prepared endpoint.
    let mut direct = TcpStream::connected(4);
    let mut prepared = TcpStream::connected(4);
    direct.deliver(&b"hello".to_vec());
    prepared.deliver(&b"hello".to_vec());
    let mut unified = StreamType::from(prepared);

    let mut buf_a: Vec<u8> = vec![0u8; 3];
    let mut buf_b: Vec<u8> = vec![0u8; 3];
    assert_eq!(direct.read(&mut buf_a), unified.read(&mut buf_b));
    assert_eq!(buf_a, buf_b);

    let payload: Vec<u8> = b"reply!".to_vec();
    assert_eq!(direct.write(&payload), unified.write(&payload));
    assert_eq!(direct.flush(), unified.flush());
    assert_eq!(direct.take_sent(), unified.take_sent());
    assert_eq!(direct.shutdown(), unified.shutdown());
    assert_eq!(direct.is_shut(), unified.is_shut());
}

#[test]
fn secure_conversion_is_transparent_for_data() {
    let mut tcp = TcpStream::connected(8);
    tcp.deliver(&b"secret".to_vec());
    let tls = TlsStream::handshaken(tcp);
    let mut s = StreamType::from(tls);
    assert!(s.is_secure());

    let mut buf: Vec<u8> = vec![0u8; 6];
    assert_eq!(s.read(&mut buf), Ok(6));
    assert_eq!(buf, b"secret".to_vec());

    assert_eq!(s.write(&b"back".to_vec()), Ok(4));
    assert_eq!(s.take_sent(), b"back".to_vec());
}

#[test]
fn prepare_uninitialized_buffer_leaves_buffer_alone() {
    let tcp = TcpStream::connected(4);
    let s = StreamType::from(tcp);
    let mut buf: Vec<u8> = vec![42u8; 4];
    assert!(!s.prepare_uninitialized_buffer(&mut buf));
    assert_eq!(buf, vec![42u8; 4]);

    let tls = TlsStream::handshaken(TcpStream::connected(4));
    let t = StreamType::from(tls);
    assert!(!t.prepare_uninitialized_buffer(&mut buf));
    assert_eq!(buf, vec![42u8; 4]);
}

#[test]
fn drop_while_read_pending_is_clean() {
    let tcp = TcpStream::connected(8);
    let mut s = StreamType::from(tcp);
    let mut buf: Vec<u8> = Vec::new();
    assert_eq!(s.read_buf(&mut buf), Ok(Async::NotReady));
    // The instance owns its endpoint exclusively; dropping it while the
    // wakeup is pending releases everything without a panic.
    drop(s);

    let tls = TlsStream::handshaken(TcpStream::connected(8));
    let mut t = StreamType::from(tls);
    assert_eq!(t.read_buf(&mut buf), Ok(Async::NotReady));
    drop(t);
}

#[test]
fn empty_transfers_succeed_without_room() {
    let tcp = TcpStream::connected(0);
    let mut s = StreamType::from(tcp);
    // Offering no bytes needs no send room.
    assert_eq!(s.write(&Vec::new()), Ok(0));
    let mut src = ByteBuf::new(Vec::new());
    assert_eq!(s.write_buf(&mut src), Ok(Async::Ready(0)));

    // An empty delivery carries nothing and wakes nobody; the registration
    // stays armed for the data that does arrive.
    let mut grow: Vec<u8> = Vec::new();
    assert_eq!(s.read_buf(&mut grow), Ok(Async::NotReady));
    assert!(!s.deliver(&Vec::new()));
    assert!(s.deliver(&vec![1u8]));
    assert_eq!(s.read_buf(&mut grow), Ok(Async::Ready(1)));
    assert_eq!(grow, vec![1u8]);
}

#[test]
fn byte_buf_cursor_advances() {
    let mut b = ByteBuf::new(vec![5u8, 6, 7]);
    assert_eq!(b.remaining(), 3);
    assert_eq!(b.get(0), 5);
    assert_eq!(b.get(2), 7);
    b.advance(2);
    assert_eq!(b.remaining(), 1);
    assert_eq!(b.get(0), 7);
}
