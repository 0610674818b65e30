//! The laws of the unified transport, proved over the step functions that
//! the executable operations are specified by: transparency of the tagged
//! form, the partial-read law, the wakeup discipline of the cooperative
//! read, the shutdown ordering of each variant, verbatim failure
//! propagation, and preservation of the tag and of well-formedness.

use vstd::prelude::*;

use crate::outcome::Async;
use crate::outcome::ErrorKind;
use crate::outcome::OutcomeKind;
use crate::outcome::kind_of;
use crate::stream_type::StreamView;
use crate::tcp::TcpView;
use crate::tls::CLOSE_NOTIFY;
use crate::tls::TlsView;

verus! {

/// Round-trip transparency of the plain variant: each operation on the
/// unified form is the endpoint's own operation, outcome and state alike,
/// under the tag.
pub proof fn lemma_plain_transparent(v: TcpView, n: nat, data: Seq<u8>)
    ensures
        StreamView::Tcp(v).read_step(n) == ({
            let (r, p) = v.read_step(n);
            (r, StreamView::Tcp(p))
        }),
        StreamView::Tcp(v).write_step(data) == ({
            let (r, p) = v.write_step(data);
            (r, StreamView::Tcp(p))
        }),
        StreamView::Tcp(v).flush_step() == ({
            let (r, p) = v.flush_step();
            (r, StreamView::Tcp(p))
        }),
        StreamView::Tcp(v).read_buf_step() == ({
            let (r, p) = v.read_buf_step();
            (r, StreamView::Tcp(p))
        }),
        StreamView::Tcp(v).write_buf_step(data) == ({
            let (r, p) = v.write_buf_step(data);
            (r, StreamView::Tcp(p))
        }),
        StreamView::Tcp(v).shutdown_step() == ({
            let (r, p) = v.shutdown_step();
            (r, StreamView::Tcp(p))
        }),
{
}

/// Round-trip transparency of the encrypted variant: each operation on the
/// unified form is the encrypted endpoint's own operation, outcome and
/// state alike, under the tag.
pub proof fn lemma_secure_transparent(v: TlsView, n: nat, data: Seq<u8>)
    ensures
        StreamView::Tls(v).read_step(n) == ({
            let (r, p) = v.read_step(n);
            (r, StreamView::Tls(p))
        }),
        StreamView::Tls(v).write_step(data) == ({
            let (r, p) = v.write_step(data);
            (r, StreamView::Tls(p))
        }),
        StreamView::Tls(v).flush_step() == ({
            let (r, p) = v.flush_step();
            (r, StreamView::Tls(p))
        }),
        StreamView::Tls(v).read_buf_step() == ({
            let (r, p) = v.read_buf_step();
            (r, StreamView::Tls(p))
        }),
        StreamView::Tls(v).write_buf_step(data) == ({
            let (r, p) = v.write_buf_step(data);
            (r, StreamView::Tls(p))
        }),
        StreamView::Tls(v).shutdown_step() == ({
            let (r, p) = v.shutdown_step();
            (r, StreamView::Tls(p))
        }),
{
}

/// The partial-read law: when the peer has delivered fewer bytes than the
/// read requests room for, the read returns exactly the delivered bytes —
/// no error, no waiting — and leaves nothing pending.
pub proof fn lemma_partial_read(s: StreamView, n: nat)
    requires
        s.socket().fault is None,
        0 < s.socket().rx.len() <= n,
    ensures
        ({
            let (r, p) = s.read_step(n);
            &&& r == Ok::<Seq<u8>, ErrorKind>(s.socket().rx)
            &&& p.socket().rx == Seq::<u8>::empty()
        }),
{
    let m = s.socket().rx.len() as int;
    assert(s.socket().rx.take(m) =~= s.socket().rx);
    assert(s.socket().rx.skip(m) =~= Seq::<u8>::empty());
}

/// The wakeup discipline of the cooperative read: before any data has
/// arrived it answers "not ready" and registers a wakeup; the arrival of
/// data spends that registration and wakes the reader; and the retried read
/// then yields the data — no missed wakeup, no further "not ready".
pub proof fn lemma_no_missed_wakeup(s: StreamView, data: Seq<u8>)
    requires
        s.socket().fault is None,
        s.socket().rx.len() == 0,
        !s.socket().rx_eof,
        data.len() > 0,
    ensures
        ({
            let (first, s1) = s.read_buf_step();
            let (woken, s2) = s1.deliver_step(data);
            let (second, s3) = s2.read_buf_step();
            &&& first == Ok::<Async<Seq<u8>>, ErrorKind>(Async::NotReady)
            &&& s1.socket().read_wake
            &&& woken
            &&& second == Ok::<Async<Seq<u8>>, ErrorKind>(Async::Ready(data))
            &&& !s3.socket().read_wake
        }),
{
    let (first, s1) = s.read_buf_step();
    let (woken, s2) = s1.deliver_step(data);
    assert(s2.socket().rx =~= data);
}

/// The shutdown ordering of the encrypted variant: the endpoint underneath
/// is never closed before the close notification is on the wire; a
/// completed shutdown has both announced the close and closed the
/// endpoint; and completing the announcement appends exactly the
/// close-notify record to the wire bytes.
pub proof fn lemma_secure_shutdown_ordering(v: TlsView)
    requires
        v.wf(),
    ensures
        ({
            let (r, p) = v.shutdown_step();
            &&& p.wf()
            &&& (p.inner.shut ==> p.close_notify_sent)
            &&& (r == Ok::<Async<()>, ErrorKind>(Async::Ready(())) ==> p.close_notify_sent
                && p.inner.shut)
            &&& (!v.close_notify_sent && r == Ok::<Async<()>, ErrorKind>(Async::Ready(()))
                ==> p.inner.tx == v.inner.tx + seq![CLOSE_NOTIFY])
        }),
{
    assert(seq![CLOSE_NOTIFY].take(1int) =~= seq![CLOSE_NOTIFY]);
}

/// The shutdown of the plain variant: it closes the sending direction at
/// once, with no extra handshake — neither the wire bytes nor the send
/// room are touched.
pub proof fn lemma_plain_shutdown_direct(v: TcpView)
    requires
        v.fault is None,
    ensures
        ({
            let (r, p) = v.shutdown_step();
            &&& r == Ok::<Async<()>, ErrorKind>(Async::Ready(()))
            &&& p.shut
            &&& p.tx == v.tx
            &&& p.tx_budget == v.tx_budget
        }),
{
}

/// The active variant is resolved once, at conversion: no operation and no
/// wire event re-tags the unified transport.
pub proof fn lemma_variant_fixed(s: StreamView, n: nat, data: Seq<u8>)
    ensures
        s.read_step(n).1.is_secure() == s.is_secure(),
        s.write_step(data).1.is_secure() == s.is_secure(),
        s.flush_step().1.is_secure() == s.is_secure(),
        s.read_buf_step().1.is_secure() == s.is_secure(),
        s.write_buf_step(data).1.is_secure() == s.is_secure(),
        s.shutdown_step().1.is_secure() == s.is_secure(),
        s.deliver_step(data).1.is_secure() == s.is_secure(),
        s.deliver_eof_step().1.is_secure() == s.is_secure(),
        s.grant_write_step(n).1.is_secure() == s.is_secure(),
{
}

/// Failures propagate verbatim: a fault the endpoint is due to report comes
/// back to the caller of the next operation exactly as injected, whichever
/// variant is active — never swallowed, wrapped, or reinterpreted.
pub proof fn lemma_fault_forwarded_verbatim(s: StreamView, e: ErrorKind, n: nat, data: Seq<u8>)
    requires
        s.wf(),
        s.socket().fault == Some(e),
    ensures
        s.read_step(n).0 == Err::<Seq<u8>, ErrorKind>(e),
        s.write_step(data).0 == Err::<nat, ErrorKind>(e),
        s.flush_step().0 == Err::<(), ErrorKind>(e),
        s.read_buf_step().0 == Err::<Async<Seq<u8>>, ErrorKind>(e),
        s.write_buf_step(data).0 == Err::<Async<nat>, ErrorKind>(e),
        s.shutdown_step().0 == Err::<Async<()>, ErrorKind>(e),
{
}

/// Well-formedness is an invariant: every operation and every wire event
/// preserves it, on either variant.
pub proof fn lemma_wf_preserved(s: StreamView, n: nat, data: Seq<u8>)
    requires
        s.wf(),
    ensures
        s.read_step(n).1.wf(),
        s.write_step(data).1.wf(),
        s.flush_step().1.wf(),
        s.read_buf_step().1.wf(),
        s.write_buf_step(data).1.wf(),
        s.shutdown_step().1.wf(),
        s.deliver_step(data).1.wf(),
        s.deliver_eof_step().1.wf(),
        s.grant_write_step(n).1.wf(),
{
}

/// Variant-blind outcomes: with the same endpoint state underneath, the
/// plain and the encrypted variant answer the same outcome to the same
/// pass-through call, and the same outcome kind to a shutdown whose
/// announcement has room to go out — a caller that never branches on the
/// variant observes the same kinds from both.
pub proof fn lemma_outcome_kinds_agree(t: TcpView, l: TlsView, data: Seq<u8>)
    requires
        l.inner == t,
        l.wf(),
    ensures
        l.read_buf_step().0 == t.read_buf_step().0,
        l.write_buf_step(data).0 == t.write_buf_step(data).0,
        l.flush_step().0 == t.flush_step().0,
        !l.close_notify_sent && l.inner.tx_budget > 0 ==> kind_of(l.shutdown_step().0) == kind_of(
            t.shutdown_step().0,
        ),
{
}

} // verus!
