//! The unified transport: one tagged type over the plain and the encrypted
//! endpoint, with a single read/write/flush/shutdown surface. The active
//! variant is chosen when a connected endpoint is converted in — an
//! infallible re-labelling of ownership — and never changes afterwards.
//! Every operation delegates to exactly the active variant; nothing is
//! buffered, reinterpreted, or swallowed at this layer.

use vstd::prelude::*;

use crate::buffer::ByteBuf;
use crate::outcome::Async;
use crate::outcome::ErrorKind;
use crate::tcp::TcpStream;
use crate::tcp::TcpView;
use crate::tls::TlsStream;
use crate::tls::TlsView;

verus! {

/// Abstract state of a unified transport: the state of whichever endpoint
/// is active, under its tag.
#[verifier::ext_equal]
pub enum StreamView {
    /// A plain endpoint is active.
    Tcp(TcpView),
    /// An encrypted endpoint is active.
    Tls(TlsView),
}

impl StreamView {
    /// The plain endpoint underneath, whichever variant is active.
    pub open spec fn socket(self) -> TcpView {
        match self {
            StreamView::Tcp(v) => v,
            StreamView::Tls(v) => v.inner,
        }
    }

    /// Whether the encrypted variant is active.
    pub open spec fn is_secure(self) -> bool {
        self is Tls
    }

    /// Whether a clean close has been announced to the peer: the encrypted
    /// variant must have its close notification on the wire; the plain
    /// variant announces nothing, so nothing is owed.
    pub open spec fn close_notified(self) -> bool {
        match self {
            StreamView::Tcp(_) => true,
            StreamView::Tls(v) => v.close_notify_sent,
        }
    }

    /// Well-formedness of the active endpoint.
    pub open spec fn wf(self) -> bool {
        match self {
            StreamView::Tcp(v) => v.wf(),
            StreamView::Tls(v) => v.wf(),
        }
    }

    /// Blocking-style read: exactly the active variant's read.
    pub open spec fn read_step(self, n: nat) -> (Result<Seq<u8>, ErrorKind>, StreamView) {
        match self {
            StreamView::Tcp(v) => {
                let (r, p) = v.read_step(n);
                (r, StreamView::Tcp(p))
            },
            StreamView::Tls(v) => {
                let (r, p) = v.read_step(n);
                (r, StreamView::Tls(p))
            },
        }
    }

    /// Blocking-style write: exactly the active variant's write.
    pub open spec fn write_step(self, data: Seq<u8>) -> (Result<nat, ErrorKind>, StreamView) {
        match self {
            StreamView::Tcp(v) => {
                let (r, p) = v.write_step(data);
                (r, StreamView::Tcp(p))
            },
            StreamView::Tls(v) => {
                let (r, p) = v.write_step(data);
                (r, StreamView::Tls(p))
            },
        }
    }

    /// Flush: exactly the active variant's flush.
    pub open spec fn flush_step(self) -> (Result<(), ErrorKind>, StreamView) {
        match self {
            StreamView::Tcp(v) => {
                let (r, p) = v.flush_step();
                (r, StreamView::Tcp(p))
            },
            StreamView::Tls(v) => {
                let (r, p) = v.flush_step();
                (r, StreamView::Tls(p))
            },
        }
    }

    /// Cooperative read: exactly the active variant's cooperative read.
    pub open spec fn read_buf_step(self) -> (Result<Async<Seq<u8>>, ErrorKind>, StreamView) {
        match self {
            StreamView::Tcp(v) => {
                let (r, p) = v.read_buf_step();
                (r, StreamView::Tcp(p))
            },
            StreamView::Tls(v) => {
                let (r, p) = v.read_buf_step();
                (r, StreamView::Tls(p))
            },
        }
    }

    /// Cooperative write: exactly the active variant's cooperative write.
    pub open spec fn write_buf_step(self, data: Seq<u8>) -> (
        Result<Async<nat>, ErrorKind>,
        StreamView,
    ) {
        match self {
            StreamView::Tcp(v) => {
                let (r, p) = v.write_buf_step(data);
                (r, StreamView::Tcp(p))
            },
            StreamView::Tls(v) => {
                let (r, p) = v.write_buf_step(data);
                (r, StreamView::Tls(p))
            },
        }
    }

    /// Graceful shutdown: exactly the active variant's shutdown sequence.
    pub open spec fn shutdown_step(self) -> (Result<Async<()>, ErrorKind>, StreamView) {
        match self {
            StreamView::Tcp(v) => {
                let (r, p) = v.shutdown_step();
                (r, StreamView::Tcp(p))
            },
            StreamView::Tls(v) => {
                let (r, p) = v.shutdown_step();
                (r, StreamView::Tls(p))
            },
        }
    }

    /// Delivery from the peer to the active endpoint.
    pub open spec fn deliver_step(self, data: Seq<u8>) -> (bool, StreamView) {
        match self {
            StreamView::Tcp(v) => {
                let (w, p) = v.deliver_step(data);
                (w, StreamView::Tcp(p))
            },
            StreamView::Tls(v) => {
                let (w, p) = v.deliver_step(data);
                (w, StreamView::Tls(p))
            },
        }
    }

    /// The peer's end-of-stream, delivered to the active endpoint.
    pub open spec fn deliver_eof_step(self) -> (bool, StreamView) {
        match self {
            StreamView::Tcp(v) => {
                let (w, p) = v.deliver_eof_step();
                (w, StreamView::Tcp(p))
            },
            StreamView::Tls(v) => {
                let (w, p) = v.deliver_eof_step();
                (w, StreamView::Tls(p))
            },
        }
    }

    /// Send room granted to the active endpoint.
    pub open spec fn grant_write_step(self, n: nat) -> (bool, StreamView) {
        match self {
            StreamView::Tcp(v) => {
                let (w, p) = v.grant_write_step(n);
                (w, StreamView::Tcp(p))
            },
            StreamView::Tls(v) => {
                let (w, p) = v.grant_write_step(n);
                (w, StreamView::Tls(p))
            },
        }
    }
}

/// The unified transport: exactly one endpoint, plain or encrypted, chosen
/// at conversion and owned exclusively until the value is dropped.
#[derive(Debug)]
pub enum StreamType {
    /// A plain endpoint.
    Tcp(TcpStream),
    /// An encrypted endpoint.
    Tls(TlsStream),
}

impl View for StreamType {
    type V = StreamView;

    open spec fn view(&self) -> StreamView {
        match self {
            StreamType::Tcp(s) => StreamView::Tcp(s@),
            StreamType::Tls(s) => StreamView::Tls(s@),
        }
    }
}

impl From<TcpStream> for StreamType {
    /// Converts a connected plain endpoint into the unified form: a pure
    /// re-labelling of ownership that never fails, blocks, or inspects the
    /// endpoint.
    fn from(stream: TcpStream) -> (r: StreamType) {
        StreamType::Tcp(stream)
    }
}

impl vstd::std_specs::convert::FromSpecImpl<TcpStream> for StreamType {
    open spec fn obeys_from_spec() -> bool {
        true
    }

    open spec fn from_spec(stream: TcpStream) -> StreamType {
        StreamType::Tcp(stream)
    }
}

impl From<TlsStream> for StreamType {
    /// Converts a handshaken encrypted endpoint into the unified form: a
    /// pure re-labelling of ownership that never fails, blocks, or inspects
    /// the endpoint.
    fn from(stream: TlsStream) -> (r: StreamType) {
        StreamType::Tls(stream)
    }
}

impl vstd::std_specs::convert::FromSpecImpl<TlsStream> for StreamType {
    open spec fn obeys_from_spec() -> bool {
        true
    }

    open spec fn from_spec(stream: TlsStream) -> StreamType {
        StreamType::Tls(stream)
    }
}

impl StreamType {
    /// Blocking-style read into the destination region `buf`: delegates to
    /// exactly the active variant. A prefix of `buf` is overwritten with the
    /// delivered bytes and their count is returned; fewer bytes than `buf`
    /// holds room for is not an error.
    pub fn read(&mut self, buf: &mut Vec<u8>) -> (r: Result<usize, ErrorKind>)
        ensures
            final(buf)@.len() == old(buf)@.len(),
            ({
                let (res, post) = old(self)@.read_step(old(buf)@.len() as nat);
                &&& final(self)@ == post
                &&& match res {
                    Ok(data) => {
                        &&& r matches Ok(k) && k as nat == data.len()
                        &&& final(buf)@ == data + old(buf)@.skip(data.len() as int)
                    },
                    Err(e) => r == Err::<usize, ErrorKind>(e) && final(buf)@ == old(buf)@,
                }
            }),
    {
        let r = match self {
            StreamType::Tcp(stream) => stream.read(buf),
            StreamType::Tls(stream) => stream.read(buf),
        };
        proof {
            assert(self@ =~= old(self)@.read_step(old(buf)@.len() as nat).1);
        }
        r
    }

    /// Blocking-style write of `data`: delegates to exactly the active
    /// variant. As many bytes as the endpoint admits are accepted and their
    /// count returned; fewer than offered is not an error.
    pub fn write(&mut self, data: &Vec<u8>) -> (r: Result<usize, ErrorKind>)
        ensures
            ({
                let (res, post) = old(self)@.write_step(data@);
                &&& final(self)@ == post
                &&& match res {
                    Ok(k) => r matches Ok(v) && v as nat == k,
                    Err(e) => r == Err::<usize, ErrorKind>(e),
                }
            }),
    {
        let r = match self {
            StreamType::Tcp(stream) => stream.write(data),
            StreamType::Tls(stream) => stream.write(data),
        };
        proof {
            assert(self@ =~= old(self)@.write_step(data@).1);
        }
        r
    }

    /// Flush: delegates to exactly the active variant; a failure surfaces
    /// unchanged.
    pub fn flush(&mut self) -> (r: Result<(), ErrorKind>)
        ensures
            ({
                let (res, post) = old(self)@.flush_step();
                &&& final(self)@ == post
                &&& r == res
            }),
    {
        let r = match self {
            StreamType::Tcp(stream) => stream.flush(),
            StreamType::Tls(stream) => stream.flush(),
        };
        proof {
            assert(self@ =~= old(self)@.flush_step().1);
        }
        r
    }

    /// The destination-buffer claim of the read path, passed through only
    /// because each variant independently upholds it: no variant reads a
    /// destination buffer before writing into it, so the region is left
    /// exactly as handed in and zero-filling may be skipped.
    pub fn prepare_uninitialized_buffer(&self, buf: &mut Vec<u8>) -> (r: bool)
        ensures
            final(buf)@ == old(buf)@,
            r == false,
    {
        match self {
            StreamType::Tcp(stream) => stream.prepare_uninitialized_buffer(buf),
            StreamType::Tls(stream) => stream.prepare_uninitialized_buffer(buf),
        }
    }

    /// Cooperative read: delegates to exactly the active variant. Either
    /// the delivered bytes are appended to the growable `buf` and counted,
    /// or end-of-stream answers zero bytes, or "not ready" is answered with
    /// a wakeup registered — never by busy-looping, never as an error.
    pub fn read_buf(&mut self, buf: &mut Vec<u8>) -> (r: Result<Async<usize>, ErrorKind>)
        ensures
            ({
                let (res, post) = old(self)@.read_buf_step();
                &&& final(self)@ == post
                &&& match res {
                    Ok(Async::Ready(data)) => {
                        &&& r matches Ok(Async::Ready(k)) && k as nat == data.len()
                        &&& final(buf)@ == old(buf)@ + data
                    },
                    Ok(Async::NotReady) => r == Ok::<Async<usize>, ErrorKind>(Async::NotReady)
                        && final(buf)@ == old(buf)@,
                    Err(e) => r == Err::<Async<usize>, ErrorKind>(e) && final(buf)@ == old(buf)@,
                }
            }),
    {
        let r = match self {
            StreamType::Tcp(stream) => stream.read_buf(buf),
            StreamType::Tls(stream) => stream.read_buf(buf),
        };
        proof {
            assert(self@ =~= old(self)@.read_buf_step().1);
        }
        r
    }

    /// Cooperative write: delegates to exactly the active variant. Bytes
    /// are drained from the caller's cursor and counted, or "not ready" is
    /// answered with a wakeup registered — never by busy-looping.
    pub fn write_buf(&mut self, src: &mut ByteBuf) -> (r: Result<Async<usize>, ErrorKind>)
        requires
            old(src).wf(),
        ensures
            final(src).wf(),
            ({
                let (res, post) = old(self)@.write_buf_step(old(src)@);
                &&& final(self)@ == post
                &&& match res {
                    Ok(Async::Ready(k)) => {
                        &&& r matches Ok(Async::Ready(v)) && v as nat == k
                        &&& final(src)@ == old(src)@.skip(k as int)
                    },
                    Ok(Async::NotReady) => r == Ok::<Async<usize>, ErrorKind>(Async::NotReady)
                        && final(src)@ == old(src)@,
                    Err(e) => r == Err::<Async<usize>, ErrorKind>(e) && final(src)@ == old(src)@,
                }
            }),
    {
        let r = match self {
            StreamType::Tcp(stream) => stream.write_buf(src),
            StreamType::Tls(stream) => stream.write_buf(src),
        };
        proof {
            assert(self@ =~= old(self)@.write_buf_step(old(src)@).1);
        }
        r
    }

    /// Graceful shutdown: delegates to exactly the active variant's own
    /// sequence — the encrypted variant announces its clean close on the
    /// wire before the endpoint underneath closes; the plain variant closes
    /// directly. "Not ready" means the sequence must be driven again after
    /// a wakeup.
    pub fn shutdown(&mut self) -> (r: Result<Async<()>, ErrorKind>)
        ensures
            ({
                let (res, post) = old(self)@.shutdown_step();
                &&& final(self)@ == post
                &&& r == res
            }),
    {
        let r = match self {
            StreamType::Tcp(stream) => stream.shutdown(),
            StreamType::Tls(stream) => stream.shutdown(),
        };
        proof {
            assert(self@ =~= old(self)@.shutdown_step().1);
        }
        r
    }

    /// The wire delivers `data` from the peer to the active endpoint.
    /// Returns whether a registered reader is to be woken.
    pub fn deliver(&mut self, data: &Vec<u8>) -> (wake: bool)
        ensures
            ({
                let (w, post) = old(self)@.deliver_step(data@);
                &&& final(self)@ == post
                &&& wake == w
            }),
    {
        let w = match self {
            StreamType::Tcp(stream) => stream.deliver(data),
            StreamType::Tls(stream) => stream.deliver(data),
        };
        proof {
            assert(self@ =~= old(self)@.deliver_step(data@).1);
        }
        w
    }

    /// The wire delivers the peer's end-of-stream to the active endpoint.
    /// Returns whether a registered reader is to be woken.
    pub fn deliver_eof(&mut self) -> (wake: bool)
        ensures
            ({
                let (w, post) = old(self)@.deliver_eof_step();
                &&& final(self)@ == post
                &&& wake == w
            }),
    {
        let w = match self {
            StreamType::Tcp(stream) => stream.deliver_eof(),
            StreamType::Tls(stream) => stream.deliver_eof(),
        };
        proof {
            assert(self@ =~= old(self)@.deliver_eof_step().1);
        }
        w
    }

    /// The active endpoint gains `n` bytes of send room. Returns whether a
    /// registered writer is to be woken.
    pub fn grant_write(&mut self, n: usize) -> (wake: bool)
        requires
            old(self)@.socket().tx_budget + n <= usize::MAX,
        ensures
            ({
                let (w, post) = old(self)@.grant_write_step(n as nat);
                &&& final(self)@ == post
                &&& wake == w
            }),
    {
        let w = match self {
            StreamType::Tcp(stream) => stream.grant_write(n),
            StreamType::Tls(stream) => stream.grant_write(n),
        };
        proof {
            assert(self@ =~= old(self)@.grant_write_step(n as nat).1);
        }
        w
    }

    /// Injects a fault the active endpoint will report next; it will be
    /// forwarded verbatim to the caller of the next operation.
    pub fn inject_fault(&mut self, e: ErrorKind)
        requires
            e != ErrorKind::WouldBlock,
        ensures
            final(self)@.socket() == (TcpView { fault: Some(e), ..old(self)@.socket() }),
            final(self)@.is_secure() == old(self)@.is_secure(),
            final(self)@.close_notified() == old(self)@.close_notified(),
    {
        match self {
            StreamType::Tcp(stream) => stream.inject_fault(e),
            StreamType::Tls(stream) => stream.inject_fault(e),
        }
        proof {
            assert(self@.socket() =~= (TcpView { fault: Some(e), ..old(self)@.socket() }));
        }
    }

    /// The wire takes every byte the active endpoint has accepted for
    /// sending.
    pub fn take_sent(&mut self) -> (out: Vec<u8>)
        ensures
            out@ == old(self)@.socket().tx,
            final(self)@.socket() == (TcpView { tx: Seq::empty(), ..old(self)@.socket() }),
            final(self)@.is_secure() == old(self)@.is_secure(),
            final(self)@.close_notified() == old(self)@.close_notified(),
    {
        let out = match self {
            StreamType::Tcp(stream) => stream.take_sent(),
            StreamType::Tls(stream) => stream.take_sent(),
        };
        proof {
            assert(self@.socket() =~= (TcpView { tx: Seq::<u8>::empty(), ..old(self)@.socket() }));
        }
        out
    }

    /// Whether the endpoint underneath has its sending direction shut down.
    pub fn is_shut(&self) -> (b: bool)
        ensures
            b == self@.socket().shut,
    {
        match self {
            StreamType::Tcp(stream) => stream.is_shut(),
            StreamType::Tls(stream) => stream.is_shut(),
        }
    }

    /// Whether a clean close has been announced to the peer; the plain
    /// variant owes no announcement.
    pub fn close_notified(&self) -> (b: bool)
        ensures
            b == self@.close_notified(),
    {
        match self {
            StreamType::Tcp(_) => true,
            StreamType::Tls(stream) => stream.close_notified(),
        }
    }

    /// Whether the encrypted variant is active.
    pub fn is_secure(&self) -> (b: bool)
        ensures
            b == self@.is_secure(),
    {
        match self {
            StreamType::Tcp(_) => false,
            StreamType::Tls(_) => true,
        }
    }
}

} // verus!
