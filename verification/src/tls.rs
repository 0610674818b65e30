//! The encrypted transport: an endpoint that carries its bytes over a plain
//! endpoint it owns. Reads and writes pass through to the carried endpoint;
//! what distinguishes the secure channel is its shutdown sequence, which
//! puts a close notification on the wire before the carried endpoint's
//! sending direction closes. That ordering is the channel's well-formedness
//! invariant: a closed endpoint without a sent notification is not
//! representable by any run.

use vstd::prelude::*;

use crate::outcome::Async;
use crate::outcome::ErrorKind;
use crate::tcp::TcpStream;
use crate::tcp::TcpView;

verus! {

/// The record tag the secure channel sends to announce a clean close,
/// distinguishing a graceful shutdown from an abrupt disconnect.
pub const CLOSE_NOTIFY: u8 = 21;

/// Abstract state of the encrypted endpoint: the carried plain endpoint and
/// whether the close notification has been put on the wire.
#[verifier::ext_equal]
pub struct TlsView {
    /// The carried plain endpoint.
    pub inner: TcpView,
    /// The close notification has been sent.
    pub close_notify_sent: bool,
}

impl TlsView {
    /// The secure channel never closes the carried endpoint before its close
    /// notification is on the wire.
    pub open spec fn wf(self) -> bool {
        &&& self.inner.wf()
        &&& (self.inner.shut ==> self.close_notify_sent)
    }

    /// Read passes through to the carried endpoint.
    pub open spec fn read_step(self, n: nat) -> (Result<Seq<u8>, ErrorKind>, TlsView) {
        let (r, p) = self.inner.read_step(n);
        (r, TlsView { inner: p, ..self })
    }

    /// Write passes through to the carried endpoint.
    pub open spec fn write_step(self, data: Seq<u8>) -> (Result<nat, ErrorKind>, TlsView) {
        let (r, p) = self.inner.write_step(data);
        (r, TlsView { inner: p, ..self })
    }

    /// Flush passes through to the carried endpoint.
    pub open spec fn flush_step(self) -> (Result<(), ErrorKind>, TlsView) {
        let (r, p) = self.inner.flush_step();
        (r, TlsView { inner: p, ..self })
    }

    /// Cooperative read passes through to the carried endpoint.
    pub open spec fn read_buf_step(self) -> (Result<Async<Seq<u8>>, ErrorKind>, TlsView) {
        let (r, p) = self.inner.read_buf_step();
        (r, TlsView { inner: p, ..self })
    }

    /// Cooperative write passes through to the carried endpoint.
    pub open spec fn write_buf_step(self, data: Seq<u8>) -> (Result<Async<nat>, ErrorKind>, TlsView) {
        let (r, p) = self.inner.write_buf_step(data);
        (r, TlsView { inner: p, ..self })
    }

    /// Shutdown of the secure channel. Once the close notification is on the
    /// wire, the carried endpoint closes. Until then the channel first
    /// writes the notification: if the endpoint has no send room the
    /// shutdown is not ready yet and must be driven again after a wakeup;
    /// a fault is surfaced unchanged.
    pub open spec fn shutdown_step(self) -> (Result<Async<()>, ErrorKind>, TlsView) {
        if self.close_notify_sent {
            let (r, p) = self.inner.shutdown_step();
            (r, TlsView { inner: p, ..self })
        } else {
            let (r, p) = self.inner.write_step(seq![CLOSE_NOTIFY]);
            match r {
                Ok(k) => {
                    let (r2, p2) = p.shutdown_step();
                    (r2, TlsView { inner: p2, close_notify_sent: true })
                },
                Err(e) => if e == ErrorKind::WouldBlock {
                    (Ok(Async::NotReady), TlsView { inner: p, ..self })
                } else {
                    (Err(e), TlsView { inner: p, ..self })
                },
            }
        }
    }

    /// Delivery from the peer passes through to the carried endpoint.
    pub open spec fn deliver_step(self, data: Seq<u8>) -> (bool, TlsView) {
        let (w, p) = self.inner.deliver_step(data);
        (w, TlsView { inner: p, ..self })
    }

    /// The peer's end-of-stream passes through to the carried endpoint.
    pub open spec fn deliver_eof_step(self) -> (bool, TlsView) {
        let (w, p) = self.inner.deliver_eof_step();
        (w, TlsView { inner: p, ..self })
    }

    /// Granted send room passes through to the carried endpoint.
    pub open spec fn grant_write_step(self, n: nat) -> (bool, TlsView) {
        let (w, p) = self.inner.grant_write_step(n);
        (w, TlsView { inner: p, ..self })
    }
}

/// The encrypted endpoint, carrying its bytes over a plain endpoint it owns.
#[derive(Debug)]
pub struct TlsStream {
    inner: TcpStream,
    close_notify_sent: bool,
}

impl View for TlsStream {
    type V = TlsView;

    closed spec fn view(&self) -> TlsView {
        TlsView { inner: self.inner@, close_notify_sent: self.close_notify_sent }
    }
}

impl TlsStream {
    /// Wraps an endpoint whose encryption handshake has completed. A
    /// handshaken endpoint is still open, so its sending direction has not
    /// been shut down.
    pub fn handshaken(inner: TcpStream) -> (s: TlsStream)
        requires
            !inner@.shut,
        ensures
            s@ == (TlsView { inner: inner@, close_notify_sent: false }),
            inner@.wf() ==> s@.wf(),
    {
        TlsStream { inner, close_notify_sent: false }
    }

    /// Blocking-style read: passes through to the carried endpoint.
    pub fn read(&mut self, buf: &mut Vec<u8>) -> (r: Result<usize, ErrorKind>)
        ensures
            final(buf)@.len() == old(buf)@.len(),
            ({
                let (res, post) = old(self)@.read_step(old(buf)@.len() as nat);
                &&& final(self)@ == post
                &&& match res {
                    Ok(data) => {
                        &&& r matches Ok(k) && k as nat == data.len()
                        &&& final(buf)@ == data + old(buf)@.skip(data.len() as int)
                    },
                    Err(e) => r == Err::<usize, ErrorKind>(e) && final(buf)@ == old(buf)@,
                }
            }),
    {
        let r = self.inner.read(buf);
        proof {
            assert(self@ =~= old(self)@.read_step(old(buf)@.len() as nat).1);
        }
        r
    }

    /// Blocking-style write: passes through to the carried endpoint.
    pub fn write(&mut self, data: &Vec<u8>) -> (r: Result<usize, ErrorKind>)
        ensures
            ({
                let (res, post) = old(self)@.write_step(data@);
                &&& final(self)@ == post
                &&& match res {
                    Ok(k) => r matches Ok(v) && v as nat == k,
                    Err(e) => r == Err::<usize, ErrorKind>(e),
                }
            }),
    {
        let r = self.inner.write(data);
        proof {
            assert(self@ =~= old(self)@.write_step(data@).1);
        }
        r
    }

    /// Flush: passes through to the carried endpoint.
    pub fn flush(&mut self) -> (r: Result<(), ErrorKind>)
        ensures
            ({
                let (res, post) = old(self)@.flush_step();
                &&& final(self)@ == post
                &&& r == res
            }),
    {
        let r = self.inner.flush();
        proof {
            assert(self@ =~= old(self)@.flush_step().1);
        }
        r
    }

    /// The destination-buffer claim of the read path, passed through to the
    /// carried endpoint, which upholds the same guarantee: the region is
    /// left exactly as handed in, and zero-filling may be skipped.
    pub fn prepare_uninitialized_buffer(&self, buf: &mut Vec<u8>) -> (r: bool)
        ensures
            final(buf)@ == old(buf)@,
            r == false,
    {
        self.inner.prepare_uninitialized_buffer(buf)
    }

    /// Cooperative read: passes through to the carried endpoint.
    pub fn read_buf(&mut self, buf: &mut Vec<u8>) -> (r: Result<Async<usize>, ErrorKind>)
        ensures
            ({
                let (res, post) = old(self)@.read_buf_step();
                &&& final(self)@ == post
                &&& match res {
                    Ok(Async::Ready(data)) => {
                        &&& r matches Ok(Async::Ready(k)) && k as nat == data.len()
                        &&& final(buf)@ == old(buf)@ + data
                    },
                    Ok(Async::NotReady) => r == Ok::<Async<usize>, ErrorKind>(Async::NotReady)
                        && final(buf)@ == old(buf)@,
                    Err(e) => r == Err::<Async<usize>, ErrorKind>(e) && final(buf)@ == old(buf)@,
                }
            }),
    {
        let r = self.inner.read_buf(buf);
        proof {
            assert(self@ =~= old(self)@.read_buf_step().1);
        }
        r
    }

    /// Cooperative write: passes through to the carried endpoint.
    pub fn write_buf(&mut self, src: &mut crate::buffer::ByteBuf) -> (r: Result<
        Async<usize>,
        ErrorKind,
    >)
        requires
            old(src).wf(),
        ensures
            final(src).wf(),
            ({
                let (res, post) = old(self)@.write_buf_step(old(src)@);
                &&& final(self)@ == post
                &&& match res {
                    Ok(Async::Ready(k)) => {
                        &&& r matches Ok(Async::Ready(v)) && v as nat == k
                        &&& final(src)@ == old(src)@.skip(k as int)
                    },
                    Ok(Async::NotReady) => r == Ok::<Async<usize>, ErrorKind>(Async::NotReady)
                        && final(src)@ == old(src)@,
                    Err(e) => r == Err::<Async<usize>, ErrorKind>(e) && final(src)@ == old(src)@,
                }
            }),
    {
        let r = self.inner.write_buf(src);
        proof {
            assert(self@ =~= old(self)@.write_buf_step(old(src)@).1);
        }
        r
    }

    /// Graceful shutdown of the secure channel: puts the close notification
    /// on the wire before closing the carried endpoint. Answers "not ready"
    /// when the notification cannot be sent yet; a wakeup is then
    /// registered and the shutdown must be driven again.
    pub fn shutdown(&mut self) -> (r: Result<Async<()>, ErrorKind>)
        ensures
            ({
                let (res, post) = old(self)@.shutdown_step();
                &&& final(self)@ == post
                &&& r == res
            }),
    {
        if self.close_notify_sent {
            let r = self.inner.shutdown();
            proof {
                assert(self@ =~= old(self)@.shutdown_step().1);
            }
            return r;
        }
        let mut notify: Vec<u8> = Vec::new();
        notify.push(CLOSE_NOTIFY);
        proof {
            assert(notify@ =~= seq![CLOSE_NOTIFY]);
        }
        match self.inner.write(&notify) {
            Ok(_) => {
                self.close_notify_sent = true;
                let r = self.inner.shutdown();
                proof {
                    assert(self@ =~= old(self)@.shutdown_step().1);
                }
                r
            },
            Err(e) => {
                proof {
                    assert(self@ =~= old(self)@.shutdown_step().1);
                }
                if e == ErrorKind::WouldBlock {
                    Ok(Async::NotReady)
                } else {
                    Err(e)
                }
            },
        }
    }

    /// Delivery from the peer: passes through to the carried endpoint.
    pub fn deliver(&mut self, data: &Vec<u8>) -> (wake: bool)
        ensures
            ({
                let (w, post) = old(self)@.deliver_step(data@);
                &&& final(self)@ == post
                &&& wake == w
            }),
    {
        let w = self.inner.deliver(data);
        proof {
            assert(self@ =~= old(self)@.deliver_step(data@).1);
        }
        w
    }

    /// The peer's end-of-stream: passes through to the carried endpoint.
    pub fn deliver_eof(&mut self) -> (wake: bool)
        ensures
            ({
                let (w, post) = old(self)@.deliver_eof_step();
                &&& final(self)@ == post
                &&& wake == w
            }),
    {
        let w = self.inner.deliver_eof();
        proof {
            assert(self@ =~= old(self)@.deliver_eof_step().1);
        }
        w
    }

    /// Granted send room: passes through to the carried endpoint.
    pub fn grant_write(&mut self, n: usize) -> (wake: bool)
        requires
            old(self)@.inner.tx_budget + n <= usize::MAX,
        ensures
            ({
                let (w, post) = old(self)@.grant_write_step(n as nat);
                &&& final(self)@ == post
                &&& wake == w
            }),
    {
        let w = self.inner.grant_write(n);
        proof {
            assert(self@ =~= old(self)@.grant_write_step(n as nat).1);
        }
        w
    }

    /// Injects a fault the carried endpoint will report next.
    pub fn inject_fault(&mut self, e: ErrorKind)
        requires
            e != ErrorKind::WouldBlock,
        ensures
            final(self)@ == (TlsView {
                inner: TcpView { fault: Some(e), ..old(self)@.inner },
                ..old(self)@
            }),
    {
        self.inner.inject_fault(e);
        proof {
            assert(self@ =~= (TlsView {
                inner: TcpView { fault: Some(e), ..old(self)@.inner },
                ..old(self)@
            }));
        }
    }

    /// The wire takes every byte accepted for sending by the carried
    /// endpoint.
    pub fn take_sent(&mut self) -> (out: Vec<u8>)
        ensures
            out@ == old(self)@.inner.tx,
            final(self)@ == (TlsView {
                inner: TcpView { tx: Seq::empty(), ..old(self)@.inner },
                ..old(self)@
            }),
    {
        let out = self.inner.take_sent();
        proof {
            assert(self@ =~= (TlsView {
                inner: TcpView { tx: Seq::<u8>::empty(), ..old(self)@.inner },
                ..old(self)@
            }));
        }
        out
    }

    /// Whether the carried endpoint's sending direction has been shut down.
    pub fn is_shut(&self) -> (b: bool)
        ensures
            b == self@.inner.shut,
    {
        self.inner.is_shut()
    }

    /// Whether the close notification has been sent.
    pub fn close_notified(&self) -> (b: bool)
        ensures
            b == self@.close_notify_sent,
    {
        self.close_notify_sent
    }
}

} // verus!
