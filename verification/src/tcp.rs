//! The plain transport: one endpoint of a connected byte stream, modelled as
//! plain data. The state holds the bytes the peer has delivered and not yet
//! been read, the bytes accepted for sending and not yet taken by the wire,
//! the remaining send room, the pending wakeup registrations of the
//! cooperative operations, the shutdown flag, and an injected fault.
//!
//! Every operation is specified by a step function on the abstract state, so
//! that the unified transport can be proved to behave exactly as the wrapped
//! endpoint does.

use vstd::prelude::*;

use crate::outcome::Async;
use crate::outcome::ErrorKind;
use crate::outcome::min_nat;
use crate::buffer::ByteBuf;

verus! {

/// Abstract state of one endpoint of a connected plain byte stream.
#[verifier::ext_equal]
pub struct TcpView {
    /// Bytes delivered by the peer and not yet consumed by a read.
    pub rx: Seq<u8>,
    /// The peer has closed its sending direction: after `rx` drains, reads
    /// see end-of-stream (a zero-byte success), never "not ready".
    pub rx_eof: bool,
    /// Bytes this endpoint has accepted for sending and the wire has not yet
    /// taken.
    pub tx: Seq<u8>,
    /// How many further bytes the endpoint will accept without blocking.
    pub tx_budget: nat,
    /// A reader registered for a wakeup when data or end-of-stream arrives.
    pub read_wake: bool,
    /// A writer registered for a wakeup when send room appears.
    pub write_wake: bool,
    /// The local sending direction has been shut down.
    pub shut: bool,
    /// A fault the transport will report on the next operation.
    pub fault: Option<ErrorKind>,
}

impl TcpView {
    /// A freshly connected endpoint: nothing pending, `budget` bytes of send
    /// room, no registration, no fault.
    pub open spec fn connected(budget: nat) -> TcpView {
        TcpView {
            rx: Seq::empty(),
            rx_eof: false,
            tx: Seq::empty(),
            tx_budget: budget,
            read_wake: false,
            write_wake: false,
            shut: false,
            fault: None,
        }
    }

    /// A fault is a hard error: the would-block retry signal is produced by
    /// the endpoint itself, never injected.
    pub open spec fn wf(self) -> bool {
        self.fault != Some(ErrorKind::WouldBlock)
    }

    /// Blocking-style read of at most `n` bytes: the delivered bytes up to
    /// `n`, a zero-byte success at end-of-stream, or the would-block signal
    /// with a wakeup registered.
    pub open spec fn read_step(self, n: nat) -> (Result<Seq<u8>, ErrorKind>, TcpView) {
        match self.fault {
            Some(e) => (Err(e), TcpView { fault: None, ..self }),
            None => if self.rx.len() > 0 {
                let k = min_nat(n, self.rx.len());
                (Ok(self.rx.take(k as int)), TcpView { rx: self.rx.skip(k as int), ..self })
            } else if self.rx_eof {
                (Ok(Seq::empty()), self)
            } else {
                (Err(ErrorKind::WouldBlock), TcpView { read_wake: true, ..self })
            },
        }
    }

    /// Blocking-style write of `data`: as many bytes as the send room
    /// admits, an error after local shutdown, or the would-block signal with
    /// a wakeup registered.
    pub open spec fn write_step(self, data: Seq<u8>) -> (Result<nat, ErrorKind>, TcpView) {
        match self.fault {
            Some(e) => (Err(e), TcpView { fault: None, ..self }),
            None => if self.shut {
                (Err(ErrorKind::BrokenPipe), self)
            } else if data.len() == 0 {
                (Ok(0 as nat), self)
            } else if self.tx_budget == 0 {
                (Err(ErrorKind::WouldBlock), TcpView { write_wake: true, ..self })
            } else {
                let k = min_nat(data.len(), self.tx_budget);
                (
                    Ok(k),
                    TcpView {
                        tx: self.tx + data.take(k as int),
                        tx_budget: (self.tx_budget - k) as nat,
                        ..self
                    },
                )
            },
        }
    }

    /// Flush: the endpoint buffers nothing of its own, so flushing succeeds
    /// and changes nothing, unless a fault is due.
    pub open spec fn flush_step(self) -> (Result<(), ErrorKind>, TcpView) {
        match self.fault {
            Some(e) => (Err(e), TcpView { fault: None, ..self }),
            None => (Ok(()), self),
        }
    }

    /// Cooperative read: every delivered byte, a zero-byte success at
    /// end-of-stream, or "not ready" with a wakeup registered.
    pub open spec fn read_buf_step(self) -> (Result<Async<Seq<u8>>, ErrorKind>, TcpView) {
        match self.fault {
            Some(e) => (Err(e), TcpView { fault: None, ..self }),
            None => if self.rx.len() > 0 {
                (Ok(Async::Ready(self.rx)), TcpView { rx: Seq::empty(), ..self })
            } else if self.rx_eof {
                (Ok(Async::Ready(Seq::empty())), self)
            } else {
                (Ok(Async::NotReady), TcpView { read_wake: true, ..self })
            },
        }
    }

    /// Cooperative write: like the blocking-style write, with "not ready" in
    /// place of the would-block error.
    pub open spec fn write_buf_step(self, data: Seq<u8>) -> (Result<Async<nat>, ErrorKind>, TcpView) {
        match self.fault {
            Some(e) => (Err(e), TcpView { fault: None, ..self }),
            None => if self.shut {
                (Err(ErrorKind::BrokenPipe), self)
            } else if data.len() == 0 {
                (Ok(Async::Ready(0 as nat)), self)
            } else if self.tx_budget == 0 {
                (Ok(Async::NotReady), TcpView { write_wake: true, ..self })
            } else {
                let k = min_nat(data.len(), self.tx_budget);
                (
                    Ok(Async::Ready(k)),
                    TcpView {
                        tx: self.tx + data.take(k as int),
                        tx_budget: (self.tx_budget - k) as nat,
                        ..self
                    },
                )
            },
        }
    }

    /// Shutdown of the plain endpoint: immediate, touching neither the bytes
    /// accepted for sending nor the send room.
    pub open spec fn shutdown_step(self) -> (Result<Async<()>, ErrorKind>, TcpView) {
        match self.fault {
            Some(e) => (Err(e), TcpView { fault: None, ..self }),
            None => (Ok(Async::Ready(())), TcpView { shut: true, ..self }),
        }
    }

    /// The wire delivers `data` from the peer; a registered reader is woken
    /// exactly when bytes actually arrive, and its registration is spent.
    pub open spec fn deliver_step(self, data: Seq<u8>) -> (bool, TcpView) {
        let wake = self.read_wake && data.len() > 0;
        (wake, TcpView { rx: self.rx + data, read_wake: self.read_wake && !wake, ..self })
    }

    /// The wire delivers the peer's end-of-stream; a registered reader is
    /// woken, since end-of-stream is readable.
    pub open spec fn deliver_eof_step(self) -> (bool, TcpView) {
        (self.read_wake, TcpView { rx_eof: true, read_wake: false, ..self })
    }

    /// The endpoint gains `n` bytes of send room; a registered writer is
    /// woken exactly when room actually appears.
    pub open spec fn grant_write_step(self, n: nat) -> (bool, TcpView) {
        let wake = self.write_wake && n > 0;
        (
            wake,
            TcpView {
                tx_budget: self.tx_budget + n,
                write_wake: self.write_wake && !wake,
                ..self
            },
        )
    }
}

/// One endpoint of a connected plain byte stream.
#[derive(Debug)]
pub struct TcpStream {
    rx: Vec<u8>,
    rx_eof: bool,
    tx: Vec<u8>,
    tx_budget: usize,
    read_wake: bool,
    write_wake: bool,
    shut: bool,
    fault: Option<ErrorKind>,
}

impl View for TcpStream {
    type V = TcpView;

    closed spec fn view(&self) -> TcpView {
        TcpView {
            rx: self.rx@,
            rx_eof: self.rx_eof,
            tx: self.tx@,
            tx_budget: self.tx_budget as nat,
            read_wake: self.read_wake,
            write_wake: self.write_wake,
            shut: self.shut,
            fault: self.fault,
        }
    }
}

impl TcpStream {
    /// A freshly connected endpoint with `budget` bytes of send room.
    pub fn connected(budget: usize) -> (s: TcpStream)
        ensures
            s@ == TcpView::connected(budget as nat),
            s@.wf(),
    {
        let s = TcpStream {
            rx: Vec::new(),
            rx_eof: false,
            tx: Vec::new(),
            tx_budget: budget,
            read_wake: false,
            write_wake: false,
            shut: false,
            fault: None,
        };
        proof {
            assert(s@ =~= TcpView::connected(budget as nat));
        }
        s
    }

    /// Blocking-style read into the destination region `buf`: overwrites a
    /// prefix of `buf` with the delivered bytes and returns how many, which
    /// may be fewer than `buf` holds room for.
    pub fn read(&mut self, buf: &mut Vec<u8>) -> (r: Result<usize, ErrorKind>)
        ensures
            final(buf)@.len() == old(buf)@.len(),
            ({
                let (res, post) = old(self)@.read_step(old(buf)@.len() as nat);
                &&& final(self)@ == post
                &&& match res {
                    Ok(data) => {
                        &&& r matches Ok(k) && k as nat == data.len()
                        &&& final(buf)@ == data + old(buf)@.skip(data.len() as int)
                    },
                    Err(e) => r == Err::<usize, ErrorKind>(e) && final(buf)@ == old(buf)@,
                }
            }),
    {
        if let Some(e) = self.fault {
            self.fault = None;
            proof {
                assert(self@ =~= old(self)@.read_step(old(buf)@.len() as nat).1);
            }
            return Err(e);
        }
        if self.rx.len() > 0 {
            let n = buf.len();
            let m = self.rx.len();
            let k = if n <= m { n } else { m };
            let mut data = self.rx.split_off(k);
            core::mem::swap(&mut self.rx, &mut data);
            let mut rest = buf.split_off(k);
            data.append(&mut rest);
            core::mem::swap(buf, &mut data);
            proof {
                let g = old(self)@.rx.take(k as int);
                assert(g =~= old(self)@.rx.subrange(0, k as int));
                assert(buf@ =~= g + old(buf)@.skip(k as int));
                assert(self@.rx =~= old(self)@.rx.skip(k as int));
                assert(self@ =~= old(self)@.read_step(old(buf)@.len() as nat).1);
            }
            Ok(k)
        } else if self.rx_eof {
            proof {
                assert(buf@ =~= Seq::<u8>::empty() + old(buf)@.skip(0));
            }
            Ok(0)
        } else {
            self.read_wake = true;
            proof {
                assert(self@ =~= old(self)@.read_step(old(buf)@.len() as nat).1);
            }
            Err(ErrorKind::WouldBlock)
        }
    }

    /// Blocking-style write of `data`: accepts as many bytes as the send
    /// room admits and returns how many, which may be fewer than offered.
    pub fn write(&mut self, data: &Vec<u8>) -> (r: Result<usize, ErrorKind>)
        ensures
            ({
                let (res, post) = old(self)@.write_step(data@);
                &&& final(self)@ == post
                &&& match res {
                    Ok(k) => r matches Ok(v) && v as nat == k,
                    Err(e) => r == Err::<usize, ErrorKind>(e),
                }
            }),
    {
        if let Some(e) = self.fault {
            self.fault = None;
            proof {
                assert(self@ =~= old(self)@.write_step(data@).1);
            }
            return Err(e);
        }
        if self.shut {
            return Err(ErrorKind::BrokenPipe);
        }
        if data.len() == 0 {
            return Ok(0);
        }
        if self.tx_budget == 0 {
            self.write_wake = true;
            proof {
                assert(self@ =~= old(self)@.write_step(data@).1);
            }
            return Err(ErrorKind::WouldBlock);
        }
        let k = if data.len() <= self.tx_budget { data.len() } else { self.tx_budget };
        let mut chunk: Vec<u8> = Vec::new();
        let mut i: usize = 0;
        while i < k
            invariant
                i <= k,
                k <= data@.len(),
                chunk@ == data@.take(i as int),
            decreases k - i,
        {
            chunk.push(data[i]);
            proof {
                assert(chunk@ =~= data@.take(i + 1 as int));
            }
            i = i + 1;
        }
        self.tx.append(&mut chunk);
        self.tx_budget = self.tx_budget - k;
        proof {
            assert(self@ =~= old(self)@.write_step(data@).1);
        }
        Ok(k)
    }

    /// Flush: the endpoint buffers nothing, so this succeeds without effect
    /// unless a fault is due.
    pub fn flush(&mut self) -> (r: Result<(), ErrorKind>)
        ensures
            ({
                let (res, post) = old(self)@.flush_step();
                &&& final(self)@ == post
                &&& r == res
            }),
    {
        if let Some(e) = self.fault {
            self.fault = None;
            proof {
                assert(self@ =~= old(self)@.flush_step().1);
            }
            return Err(e);
        }
        Ok(())
    }

    /// The destination-buffer claim of the read path: this endpoint never
    /// reads a destination buffer before writing into it, so it leaves the
    /// region exactly as handed in and reports that zero-filling may be
    /// skipped.
    pub fn prepare_uninitialized_buffer(&self, buf: &mut Vec<u8>) -> (r: bool)
        ensures
            final(buf)@ == old(buf)@,
            r == false,
    {
        let _ = buf;
        false
    }

    /// Cooperative read: appends every delivered byte to the growable `buf`
    /// and returns how many arrived, a zero-byte success at end-of-stream,
    /// or "not ready" with a wakeup registered.
    pub fn read_buf(&mut self, buf: &mut Vec<u8>) -> (r: Result<Async<usize>, ErrorKind>)
        ensures
            ({
                let (res, post) = old(self)@.read_buf_step();
                &&& final(self)@ == post
                &&& match res {
                    Ok(Async::Ready(data)) => {
                        &&& r matches Ok(Async::Ready(k)) && k as nat == data.len()
                        &&& final(buf)@ == old(buf)@ + data
                    },
                    Ok(Async::NotReady) => r == Ok::<Async<usize>, ErrorKind>(Async::NotReady)
                        && final(buf)@ == old(buf)@,
                    Err(e) => r == Err::<Async<usize>, ErrorKind>(e) && final(buf)@ == old(buf)@,
                }
            }),
    {
        if let Some(e) = self.fault {
            self.fault = None;
            proof {
                assert(self@ =~= old(self)@.read_buf_step().1);
            }
            return Err(e);
        }
        if self.rx.len() > 0 {
            let n = self.rx.len();
            buf.append(&mut self.rx);
            proof {
                assert(self@ =~= old(self)@.read_buf_step().1);
            }
            Ok(Async::Ready(n))
        } else if self.rx_eof {
            proof {
                assert(buf@ =~= buf@ + Seq::<u8>::empty());
            }
            Ok(Async::Ready(0))
        } else {
            self.read_wake = true;
            proof {
                assert(self@ =~= old(self)@.read_buf_step().1);
            }
            Ok(Async::NotReady)
        }
    }

    /// Cooperative write: drains bytes from the caller's cursor into the
    /// endpoint, as many as the send room admits, or answers "not ready"
    /// with a wakeup registered.
    pub fn write_buf(&mut self, src: &mut ByteBuf) -> (r: Result<Async<usize>, ErrorKind>)
        requires
            old(src).wf(),
        ensures
            final(src).wf(),
            ({
                let (res, post) = old(self)@.write_buf_step(old(src)@);
                &&& final(self)@ == post
                &&& match res {
                    Ok(Async::Ready(k)) => {
                        &&& r matches Ok(Async::Ready(v)) && v as nat == k
                        &&& final(src)@ == old(src)@.skip(k as int)
                    },
                    Ok(Async::NotReady) => r == Ok::<Async<usize>, ErrorKind>(Async::NotReady)
                        && final(src)@ == old(src)@,
                    Err(e) => r == Err::<Async<usize>, ErrorKind>(e) && final(src)@ == old(src)@,
                }
            }),
    {
        if let Some(e) = self.fault {
            self.fault = None;
            proof {
                assert(self@ =~= old(self)@.write_buf_step(old(src)@).1);
            }
            return Err(e);
        }
        if self.shut {
            return Err(ErrorKind::BrokenPipe);
        }
        let avail = src.remaining();
        if avail == 0 {
            proof {
                assert(src@ =~= old(src)@.skip(0));
            }
            return Ok(Async::Ready(0));
        }
        if self.tx_budget == 0 {
            self.write_wake = true;
            proof {
                assert(self@ =~= old(self)@.write_buf_step(old(src)@).1);
            }
            return Ok(Async::NotReady);
        }
        let k = if avail <= self.tx_budget { avail } else { self.tx_budget };
        let mut chunk: Vec<u8> = Vec::new();
        let mut i: usize = 0;
        while i < k
            invariant
                i <= k,
                k <= src@.len(),
                src.wf(),
                src@ == old(src)@,
                chunk@ == src@.take(i as int),
            decreases k - i,
        {
            chunk.push(src.get(i));
            proof {
                assert(chunk@ =~= src@.take(i + 1 as int));
            }
            i = i + 1;
        }
        self.tx.append(&mut chunk);
        self.tx_budget = self.tx_budget - k;
        src.advance(k);
        proof {
            assert(self@ =~= old(self)@.write_buf_step(old(src)@).1);
        }
        Ok(Async::Ready(k))
    }

    /// Shutdown of the plain endpoint: closes the sending direction at once,
    /// with no extra handshake on the wire.
    pub fn shutdown(&mut self) -> (r: Result<Async<()>, ErrorKind>)
        ensures
            ({
                let (res, post) = old(self)@.shutdown_step();
                &&& final(self)@ == post
                &&& r == res
            }),
    {
        if let Some(e) = self.fault {
            self.fault = None;
            proof {
                assert(self@ =~= old(self)@.shutdown_step().1);
            }
            return Err(e);
        }
        self.shut = true;
        proof {
            assert(self@ =~= old(self)@.shutdown_step().1);
        }
        Ok(Async::Ready(()))
    }

    /// The wire delivers `data` from the peer. Returns whether a registered
    /// reader is to be woken; a spent registration is cleared.
    pub fn deliver(&mut self, data: &Vec<u8>) -> (wake: bool)
        ensures
            ({
                let (w, post) = old(self)@.deliver_step(data@);
                &&& final(self)@ == post
                &&& wake == w
            }),
    {
        let mut incoming = data.clone();
        proof {
            assert(incoming@ =~= data@);
        }
        self.rx.append(&mut incoming);
        let wake = self.read_wake && data.len() > 0;
        if wake {
            self.read_wake = false;
        }
        proof {
            assert(self@ =~= old(self)@.deliver_step(data@).1);
        }
        wake
    }

    /// The wire delivers the peer's end-of-stream. Returns whether a
    /// registered reader is to be woken.
    pub fn deliver_eof(&mut self) -> (wake: bool)
        ensures
            ({
                let (w, post) = old(self)@.deliver_eof_step();
                &&& final(self)@ == post
                &&& wake == w
            }),
    {
        self.rx_eof = true;
        let wake = self.read_wake;
        self.read_wake = false;
        proof {
            assert(self@ =~= old(self)@.deliver_eof_step().1);
        }
        wake
    }

    /// The endpoint gains `n` bytes of send room. Returns whether a
    /// registered writer is to be woken.
    pub fn grant_write(&mut self, n: usize) -> (wake: bool)
        requires
            old(self)@.tx_budget + n <= usize::MAX,
        ensures
            ({
                let (w, post) = old(self)@.grant_write_step(n as nat);
                &&& final(self)@ == post
                &&& wake == w
            }),
    {
        self.tx_budget = self.tx_budget + n;
        let wake = self.write_wake && n > 0;
        if wake {
            self.write_wake = false;
        }
        proof {
            assert(self@ =~= old(self)@.grant_write_step(n as nat).1);
        }
        wake
    }

    /// Injects a fault the endpoint will report on its next operation. The
    /// would-block signal is not a fault and cannot be injected.
    pub fn inject_fault(&mut self, e: ErrorKind)
        requires
            e != ErrorKind::WouldBlock,
        ensures
            final(self)@ == (TcpView { fault: Some(e), ..old(self)@ }),
            final(self)@.wf(),
    {
        self.fault = Some(e);
        proof {
            assert(self@ =~= TcpView { fault: Some(e), ..old(self)@ });
        }
    }

    /// The wire takes every byte accepted for sending.
    pub fn take_sent(&mut self) -> (out: Vec<u8>)
        ensures
            out@ == old(self)@.tx,
            final(self)@ == (TcpView { tx: Seq::empty(), ..old(self)@ }),
    {
        let mut out: Vec<u8> = Vec::new();
        core::mem::swap(&mut self.tx, &mut out);
        proof {
            assert(self@ =~= TcpView { tx: Seq::<u8>::empty(), ..old(self)@ });
        }
        out
    }

    /// Whether the sending direction has been shut down.
    pub fn is_shut(&self) -> (b: bool)
        ensures
            b == self@.shut,
    {
        self.shut
    }
}

} // verus!
