//! Laws of the decoder that relate several steps or several functions.

use vstd::prelude::*;
use vstd::utf8::valid_utf8;
use crate::decoder::{accepted, recovery, ErrorView, MemberView, RecoveryView};
use crate::frame::{
    crlf_blank, first_at, first_occurrence, frame_bounds, frame_of_text, lf_blank, next_frame,
    occurs_at, FrameView, LF, CR,
};
use crate::stream::{next_live_frame, pull_step, receive_step, DriverView, Step, MAX_EVENT_BYTES};
use crate::text::{ascii_cut, lemma_ascii_cut};
use crate::decoder::done_marker;

verus! {

broadcast use vstd::seq::group_seq_axioms;

/// Every frame of `buf`, read greedily from the front, empty ones included.
pub open spec fn frames_of(buf: Seq<u8>) -> Seq<FrameView>
    decreases buf.len(),
{
    match next_frame(buf) {
        Some((f, n)) => if 0 < n <= buf.len() {
            seq![f] + frames_of(buf.skip(n))
        } else {
            seq![f]
        },
        None => Seq::empty(),
    }
}

/// What is left of `buf` once all its complete frames are read.
pub open spec fn unframed(buf: Seq<u8>) -> Seq<u8>
    decreases buf.len(),
{
    match next_frame(buf) {
        Some((f, n)) => if 0 < n <= buf.len() {
            unframed(buf.skip(n))
        } else {
            buf.skip(n)
        },
        None => buf,
    }
}

/// A pulls of a driver, in order, and the steps they give.
pub open spec fn pull_steps(s: DriverView, k: nat) -> Seq<Step>
    decreases k,
{
    if k == 0 {
        Seq::empty()
    } else {
        seq![pull_step(s).1] + pull_steps(pull_step(s).0, (k - 1) as nat)
    }
}

proof fn lemma_first_unique(b: Seq<u8>, pat: Seq<u8>, i: int)
    requires
        first_at(b, i, pat),
    ensures
        first_occurrence(b, pat) == Some(i),
{
    let c = choose|c: int| first_at(b, c, pat);
    assert(first_at(b, c, pat));
    if c < i {
        assert(!occurs_at(b, c, pat));
    } else if c > i {
        assert(!occurs_at(b, i, pat));
    }
}

proof fn lemma_first_occurs(b: Seq<u8>, pat: Seq<u8>)
    ensures
        first_occurrence(b, pat) matches Some(i) ==> first_at(b, i, pat),
{
}

/// A frame, once found, takes at least one byte and no more than the buffer holds.
pub proof fn lemma_next_frame_consumes(buf: Seq<u8>)
    ensures
        next_frame(buf) matches Some((_, n)) ==> 0 < n <= buf.len() && (buf[n - 1] == LF),
{
    lemma_first_occurs(buf, crlf_blank());
    lemma_first_occurs(buf, lf_blank());
    if let Some((f, n)) = next_frame(buf) {
        match first_occurrence(buf, crlf_blank()) {
            Some(p) => {
                assert(buf.subrange(p, p + 4)[3] == buf[p + 3]);
            },
            None => {
                let p = first_occurrence(buf, lf_blank())->Some_0;
                assert(buf.subrange(p, p + 2)[1] == buf[p + 1]);
            },
        }
    }
}

/// Where `pat` comes first in `a`, it comes first in `a + b` as well.
proof fn lemma_first_extends(a: Seq<u8>, b: Seq<u8>, pat: Seq<u8>, p: int)
    requires
        first_at(a, p, pat),
    ensures
        first_occurrence(a + b, pat) == Some(p),
{
    let ab = a + b;
    assert(ab.subrange(p, p + pat.len()) =~= a.subrange(p, p + pat.len()));
    assert forall|j: int| 0 <= j < p implies !occurs_at(ab, j, pat) by {
        assert(!occurs_at(a, j, pat));
        assert(ab.subrange(j, j + pat.len()) =~= a.subrange(j, j + pat.len()));
    }
    lemma_first_unique(ab, pat, p);
}

/// With one delimiter absent from `a + b`, the first frame of `a`, if any, is
/// the first frame of `a + b`.
proof fn lemma_next_frame_prefix(a: Seq<u8>, b: Seq<u8>)
    requires
        valid_utf8(a + b),
        (forall|i: int| !occurs_at(a + b, i, crlf_blank())) || (forall|i: int|
            !occurs_at(a + b, i, lf_blank())),
        next_frame(a) is Some,
    ensures
        next_frame(a + b) == next_frame(a),
{
    let ab = a + b;
    lemma_first_occurs(a, crlf_blank());
    lemma_first_occurs(a, lf_blank());
    lemma_first_occurs(ab, crlf_blank());
    lemma_first_occurs(ab, lf_blank());
    match first_occurrence(a, crlf_blank()) {
        Some(p) => {
            lemma_first_extends(a, b, crlf_blank(), p);
            assert(ab.subrange(0, p) =~= a.subrange(0, p));
        },
        None => {
            let p = first_occurrence(a, lf_blank())->Some_0;
            lemma_first_extends(a, b, lf_blank(), p);
            assert(occurs_at(ab, p, lf_blank()));
            if first_occurrence(ab, crlf_blank()) is Some {
                let q = first_occurrence(ab, crlf_blank())->Some_0;
                assert(occurs_at(ab, q, crlf_blank()));
                assert(false);
            }
            assert(ab.subrange(0, p) =~= a.subrange(0, p));
        },
    }
}

/// A pattern absent from `b` is absent from every suffix of it.
proof fn lemma_absent_in_suffix(b: Seq<u8>, n: int, pat: Seq<u8>)
    requires
        0 <= n <= b.len(),
    ensures
        (forall|i: int| !occurs_at(b, i, pat)) ==> (forall|i: int| !occurs_at(b.skip(n), i, pat)),
{
    if forall|i: int| !occurs_at(b, i, pat) {
        assert forall|i: int| !occurs_at(b.skip(n), i, pat) by {
            if occurs_at(b.skip(n), i, pat) {
                assert(b.skip(n).subrange(i, i + pat.len()) =~= b.subrange(i + n, i + n + pat.len()));
                assert(occurs_at(b, i + n, pat));
            }
        }
    }
}

/// Framing does not depend on where a stream is cut into chunks: the frames
/// of `a + b` are the frames of `a` followed by those of what `a` leaves
/// unread with `b` after it, and the same bytes stay unread in the end. This
/// holds for a stream that is UTF-8 as a whole and keeps to one kind of
/// delimiter (`\n\n` or `\r\n\r\n`); by induction it extends to any number of
/// chunks.
pub proof fn law_chunking(a: Seq<u8>, b: Seq<u8>)
    requires
        valid_utf8(a + b),
        (forall|i: int| !occurs_at(a + b, i, crlf_blank())) || (forall|i: int|
            !occurs_at(a + b, i, lf_blank())),
    ensures
        frames_of(a + b) == frames_of(a) + frames_of(unframed(a) + b),
        unframed(a + b) == unframed(unframed(a) + b),
    decreases a.len(),
{
    let ab = a + b;
    if let Some((f, n)) = next_frame(a) {
        lemma_next_frame_prefix(a, b);
        lemma_next_frame_consumes(a);
        let a2 = a.skip(n);
        assert(ab.skip(n) =~= a2 + b);
        assert(ascii_cut(ab, n)) by {
            assert(ab[n - 1] == a[n - 1]);
        }
        lemma_ascii_cut(ab, n);
        assert(ab.subrange(n, ab.len() as int) =~= a2 + b);
        lemma_absent_in_suffix(ab, n, crlf_blank());
        lemma_absent_in_suffix(ab, n, lf_blank());
        law_chunking(a2, b);
        assert(frames_of(ab) =~= frames_of(a) + frames_of(unframed(a) + b));
    }
}

/// The frames of `fs` that carry data, in order: those that a pull settles on.
pub open spec fn with_data(fs: Seq<FrameView>) -> Seq<FrameView>
    decreases fs.len(),
{
    if fs.len() == 0 {
        Seq::empty()
    } else if fs[0].data.len() > 0 {
        seq![fs[0]] + with_data(fs.drop_first())
    } else {
        with_data(fs.drop_first())
    }
}

/// The driver after `k` pulls.
pub open spec fn after_pulls(s: DriverView, k: nat) -> DriverView
    decreases k,
{
    if k == 0 {
        s
    } else {
        after_pulls(pull_step(s).0, (k - 1) as nat)
    }
}

proof fn lemma_with_data_concat(a: Seq<FrameView>, b: Seq<FrameView>)
    ensures
        with_data(a + b) == with_data(a) + with_data(b),
    decreases a.len(),
{
    if a.len() > 0 {
        assert((a + b).drop_first() =~= a.drop_first() + b);
        lemma_with_data_concat(a.drop_first(), b);
        assert(seq![a[0]] + (with_data(a.drop_first()) + with_data(b)) =~= (seq![a[0]]
            + with_data(a.drop_first())) + with_data(b));
    } else {
        assert(a + b =~= b);
    }
}

/// Pulls on a running driver whose buffer holds no end marker give the
/// buffer's frames with data, in order, then ask for a chunk, leaving what
/// is unframed.
pub proof fn law_pulls_drain(buf: Seq<u8>)
    requires
        forall|i: int| 0 <= i < frames_of(buf).len() ==> (#[trigger] frames_of(buf)[i]).data != done_marker(),
    ensures
        ({
            let live = with_data(frames_of(buf));
            let s = DriverView { buf, done: false };
            &&& pull_steps(s, live.len() + 1) == Seq::new(live.len(), |i: int| Step::Frame(live[i])).push(
                Step::NeedChunk,
            )
            &&& after_pulls(s, live.len() + 1) == (DriverView { buf: unframed(buf), done: false })
        }),
    decreases buf.len(),
{
    let s = DriverView { buf, done: false };
    lemma_next_frame_consumes(buf);
    match next_frame(buf) {
        None => {
            assert(next_live_frame(buf) == (None::<FrameView>, buf));
            assert(pull_step(s) == (s, Step::NeedChunk));
            assert(pull_steps(s, 0) =~= Seq::<Step>::empty());
            assert(pull_steps(s, 1) =~= seq![Step::NeedChunk]);
            assert(after_pulls(s, 1) == after_pulls(s, 0));
            assert(with_data(frames_of(buf)) =~= Seq::<FrameView>::empty());
        },
        Some((f, m)) => {
            let rest = buf.skip(m);
            assert forall|i: int| 0 <= i < frames_of(rest).len() implies (#[trigger] frames_of(
                rest,
            )[i]).data != done_marker() by {
                assert(frames_of(rest)[i] == frames_of(buf)[i + 1]);
            }
            assert(frames_of(buf)[0] == f);
            assert(frames_of(buf).drop_first() =~= frames_of(rest));
            law_pulls_drain(rest);
            let live = with_data(frames_of(rest));
            if f.data.len() == 0 {
                let s2 = DriverView { buf: rest, done: false };
                assert(pull_step(s) == pull_step(s2));
                assert(pull_steps(s, live.len() + 1) == pull_steps(s2, live.len() + 1));
                assert(after_pulls(s, live.len() + 1) == after_pulls(s2, live.len() + 1));
            } else {
                let s2 = DriverView { buf: rest, done: false };
                assert(pull_step(s) == (s2, Step::Frame(f)));
                let all = with_data(frames_of(buf));
                assert(all == seq![f] + live);
                assert(pull_steps(s, all.len() + 1) =~= Seq::new(all.len(), |i: int| Step::Frame(all[i])).push(
                    Step::NeedChunk,
                ));
            }
        },
    }
}

/// Where a stream is cut does not change what pulls give: the frames with
/// data of `a` followed by those of what `a` leaves unread with `b` after it
/// are the frames with data of `a + b`, for a stream that is UTF-8 as a whole
/// and keeps to one kind of delimiter.
pub proof fn law_cut_invariance(a: Seq<u8>, b: Seq<u8>)
    requires
        valid_utf8(a + b),
        (forall|i: int| !occurs_at(a + b, i, crlf_blank())) || (forall|i: int|
            !occurs_at(a + b, i, lf_blank())),
    ensures
        with_data(frames_of(a)) + with_data(frames_of(unframed(a) + b)) == with_data(frames_of(a + b)),
{
    law_chunking(a, b);
    lemma_with_data_concat(frames_of(a), frames_of(unframed(a) + b));
}

/// An ended driver stays ended: every pull ends the stream and leaves the
/// driver as it is, and a chunk handed to it is ignored.
pub proof fn law_end_absorbs(s: DriverView, chunk: Seq<u8>, k: nat)
    requires
        s.done,
    ensures
        pull_step(s) == (s, Step::End),
        receive_step(s, chunk) == (s, false),
        pull_steps(s, k) == Seq::new(k, |i: int| Step::End),
    decreases k,
{
    if k > 0 {
        law_end_absorbs(s, chunk, (k - 1) as nat);
        assert(pull_steps(s, k) =~= Seq::new(k, |i: int| Step::End));
    }
}

/// A frame with data is the next live frame, and what follows it is read
/// from the rest of the buffer.
proof fn lemma_first_live(buf: Seq<u8>)
    requires
        frames_of(buf).len() > 0,
        frames_of(buf)[0].data.len() > 0,
    ensures
        next_frame(buf) matches Some((f, n)) && next_live_frame(buf) == (Some(f), buf.skip(n))
            && frames_of(buf.skip(n)) == frames_of(buf).drop_first() && f == frames_of(buf)[0],
{
    lemma_next_frame_consumes(buf);
    let (f, n) = next_frame(buf)->Some_0;
    assert(frames_of(buf) == seq![f] + frames_of(buf.skip(n)));
    assert(frames_of(buf).drop_first() =~= frames_of(buf.skip(n)));
}

/// The end marker ends the stream: where a buffer holds `n` frames whose data
/// is neither empty nor the end marker and then the end marker, `k > n` pulls
/// give those `n` frames in order and then only the end of the stream.
pub proof fn law_termination(buf: Seq<u8>, n: nat, k: nat)
    requires
        frames_of(buf).len() > n,
        forall|i: int|
            0 <= i < n ==> (#[trigger] frames_of(buf)[i]).data.len() > 0 && frames_of(buf)[i].data
                != done_marker(),
        frames_of(buf)[n as int].data == done_marker(),
        n < k,
    ensures
        pull_steps(DriverView { buf, done: false }, k) == Seq::new(
            k,
            |i: int|
                if i < n {
                    Step::Frame(frames_of(buf)[i])
                } else {
                    Step::End
                },
        ),
    decreases n,
{
    reveal_strlit("[DONE]");
    let s = DriverView { buf, done: false };
    assert(frames_of(buf)[0].data.len() > 0);
    lemma_first_live(buf);
    let (f, m) = next_frame(buf)->Some_0;
    let rest = buf.skip(m);
    if n == 0 {
        assert(pull_step(s) == (DriverView { buf: rest, done: true }, Step::End));
        law_end_absorbs(DriverView { buf: rest, done: true }, Seq::empty(), (k - 1) as nat);
    } else {
        assert(pull_step(s) == (DriverView { buf: rest, done: false }, Step::Frame(f)));
        assert forall|i: int| 0 <= i < n - 1 implies (#[trigger] frames_of(rest)[i]).data.len() > 0
            && frames_of(rest)[i].data != done_marker() by {
            assert(frames_of(rest)[i] == frames_of(buf)[i + 1]);
        }
        assert(frames_of(rest)[n - 1] == frames_of(buf)[n as int]);
        law_termination(rest, (n - 1) as nat, (k - 1) as nat);
    }
    assert(pull_steps(s, k) =~= Seq::new(
        k,
        |i: int|
            if i < n {
                Step::Frame(frames_of(buf)[i])
            } else {
                Step::End
            },
    ));
}

/// The size bound: a chunk that takes a running stream past the bound is
/// answered with the one too-large signal, and every pull after it ends the
/// stream.
pub proof fn law_bound(s: DriverView, chunk: Seq<u8>, k: nat)
    requires
        !s.done,
        s.buf.len() + chunk.len() > MAX_EVENT_BYTES,
    ensures
        receive_step(s, chunk).1,
        receive_step(s, chunk).0.done,
        pull_steps(receive_step(s, chunk).0, k) == Seq::new(k, |i: int| Step::End),
{
    law_end_absorbs(receive_step(s, chunk).0, chunk, k);
}

/// Reconciling the event name with the payload's type: a payload whose type
/// is the event name stands; a type that differs from the name is a mismatch
/// whether or not the payload decoded; a payload without a type is retried
/// with the event name as its type.
pub proof fn law_type_reconciliation<T>(
    name: Seq<char>,
    other: Seq<char>,
    data: Seq<char>,
    decoded: T,
    failure: serde_json::Error,
)
    requires
        name != other,
    ensures
        accepted(Some(name), MemberView::Text(name), decoded) == Ok::<T, ErrorView>(decoded),
        accepted(Some(name), MemberView::Text(other), decoded) == Err::<T, ErrorView>(
            ErrorView::TypeMismatch { event: name, ty: other },
        ),
        recovery(Some(name), data, MemberView::Text(other), failure) == RecoveryView::Fail(
            ErrorView::TypeMismatch { event: name, ty: other },
        ),
        recovery(Some(name), data, MemberView::Absent, failure) == RecoveryView::Inject(
            name,
            failure,
        ),
{
}

} // verus!
