//! Frame extraction: finding the first complete SSE frame in a byte buffer and
//! reading its `event:` and `data:` lines.

use vstd::prelude::*;
use vstd::utf8::{decode_utf8, valid_utf8, valid_utf8_concat};
use crate::text::{ascii_cut, lemma_ascii_cut, lemma_ascii_slice, trim_white, trim_white_space, utf8_str};

verus! {

broadcast use vstd::seq::group_seq_axioms;

/// Line feed.
pub const LF: u8 = 10;
/// Carriage return.
pub const CR: u8 = 13;
/// The colon that ends a field name.
pub const COLON: u8 = 58;
/// The space that may follow a field's colon.
pub const SPACE: u8 = 32;

/// `pat` stands in `b` at position `i`.
pub open spec fn occurs_at(b: Seq<u8>, i: int, pat: Seq<u8>) -> bool {
    0 <= i && i + pat.len() <= b.len() && b.subrange(i, i + pat.len()) == pat
}

/// `i` is the first position of `pat` in `b`.
pub open spec fn first_at(b: Seq<u8>, i: int, pat: Seq<u8>) -> bool {
    occurs_at(b, i, pat) && forall|j: int| 0 <= j < i ==> !occurs_at(b, j, pat)
}

/// The first position of `pat` in `b`, if it occurs.
pub open spec fn first_occurrence(b: Seq<u8>, pat: Seq<u8>) -> Option<int> {
    if exists|i: int| first_at(b, i, pat) {
        Some(choose|i: int| first_at(b, i, pat))
    } else {
        None
    }
}

/// The blank line that ends a frame written with CRLF line endings.
pub open spec fn crlf_blank() -> Seq<u8> {
    seq![CR, LF, CR, LF]
}

/// The blank line that ends a frame written with LF line endings.
pub open spec fn lf_blank() -> Seq<u8> {
    seq![LF, LF]
}

/// Where the first frame of `buf` ends, as (length of its text, bytes it takes
/// with its delimiter). The buffer must be UTF-8 as a whole; `\r\n\r\n` is
/// looked for before `\n\n`.
pub open spec fn frame_bounds(buf: Seq<u8>) -> Option<(int, int)> {
    if !valid_utf8(buf) {
        None
    } else {
        match first_occurrence(buf, crlf_blank()) {
            Some(p) => Some((p, p + 4)),
            None => match first_occurrence(buf, lf_blank()) {
                Some(p) => Some((p, p + 2)),
                None => None,
            },
        }
    }
}

/// The pieces of `t` between line feeds, in order; a text without a line feed
/// is one piece.
pub open spec fn split_lines(t: Seq<u8>) -> Seq<Seq<u8>>
    decreases t.len(),
{
    if t.len() == 0 {
        seq![Seq::<u8>::empty()]
    } else {
        let ls = split_lines(t.drop_last());
        if t.last() == LF {
            ls.push(Seq::<u8>::empty())
        } else {
            ls.update(ls.len() - 1, ls.last().push(t.last()))
        }
    }
}

/// A line that was ended by a line feed loses one trailing carriage return.
pub open spec fn strip_cr(l: Seq<u8>) -> Seq<u8> {
    if l.len() > 0 && l.last() == CR {
        l.drop_last()
    } else {
        l
    }
}

/// The lines of a frame's text: every piece but the last was ended by a line feed.
pub open spec fn text_lines(t: Seq<u8>) -> Seq<Seq<u8>> {
    let ps = split_lines(t);
    Seq::new(ps.len(), |k: int| if k < ps.len() - 1 { strip_cr(ps[k]) } else { ps[k] })
}

/// The field name `event:`.
pub open spec fn event_tag() -> Seq<u8> {
    seq![101u8, 118, 101, 110, 116, COLON]
}

/// The field name `data:`.
pub open spec fn data_tag() -> Seq<u8> {
    seq![100u8, 97, 116, 97, COLON]
}

/// The raw fields of a frame: the value of its last `event:` line, and the
/// values of its `data:` lines in order.
pub struct RawFields {
    pub event: Option<Seq<u8>>,
    pub data: Seq<Seq<u8>>,
}

/// A `data:` value loses at most one leading space.
pub open spec fn data_value(rest: Seq<u8>) -> Seq<u8> {
    if rest.len() > 0 && rest[0] == SPACE {
        rest.drop_first()
    } else {
        rest
    }
}

/// Reads one line into the fields gathered so far. Comments (`:`), `id:`,
/// `retry:` and lines of any other shape leave them as they are.
pub open spec fn read_line(acc: RawFields, line: Seq<u8>) -> RawFields {
    if occurs_at(line, 0, event_tag()) {
        RawFields { event: Some(line.skip(6)), data: acc.data }
    } else if occurs_at(line, 0, data_tag()) {
        RawFields { event: acc.event, data: acc.data.push(data_value(line.skip(5))) }
    } else {
        acc
    }
}

/// The fields of a sequence of lines, read in order.
pub open spec fn read_lines(lines: Seq<Seq<u8>>) -> RawFields
    decreases lines.len(),
{
    if lines.len() == 0 {
        RawFields { event: None, data: Seq::empty() }
    } else {
        read_line(read_lines(lines.drop_last()), lines.last())
    }
}

/// Values joined with a line feed between each two.
pub open spec fn join_lines(ls: Seq<Seq<u8>>) -> Seq<u8>
    decreases ls.len(),
{
    if ls.len() == 0 {
        Seq::empty()
    } else if ls.len() == 1 {
        ls[0]
    } else {
        join_lines(ls.drop_last()) + seq![LF] + ls.last()
    }
}

/// A frame as the decoder sees it: the trimmed event name, if any, and the
/// data lines joined by line feeds.
pub struct FrameView {
    pub event: Option<Seq<char>>,
    pub data: Seq<char>,
}

/// The frame that a frame text holds.
pub open spec fn frame_of_text(t: Seq<u8>) -> FrameView {
    let f = read_lines(text_lines(t));
    FrameView {
        event: match f.event {
            Some(e) => Some(trim_white(decode_utf8(e))),
            None => None,
        },
        data: decode_utf8(join_lines(f.data)),
    }
}

/// The first complete frame of `buf` and the number of bytes it takes.
pub open spec fn next_frame(buf: Seq<u8>) -> Option<(FrameView, int)> {
    match frame_bounds(buf) {
        Some((end, consumed)) => Some((frame_of_text(buf.subrange(0, end)), consumed)),
        None => None,
    }
}

/// One SSE frame: its event name, if it named one, and its joined data.
pub struct SseFrame {
    pub event: Option<String>,
    pub data: String,
}

impl View for SseFrame {
    type V = FrameView;

    open spec fn view(&self) -> FrameView {
        FrameView {
            event: match self.event {
                Some(e) => Some(e@),
                None => None,
            },
            data: self.data@,
        }
    }
}

/// The lines of `t` that a line feed has ended, each without its trailing carriage return.
pub open spec fn ended_lines(t: Seq<u8>) -> Seq<Seq<u8>> {
    let ps = split_lines(t);
    Seq::new((ps.len() - 1) as nat, |k: int| strip_cr(ps[k]))
}

/// What a line of a frame is, by its field name.
enum LineKind {
    /// An `event:` line whose value starts at the given position.
    Event(usize),
    /// A `data:` line whose value starts at the given position.
    Data(usize),
    /// Any other line.
    Other,
}

/// Tells the line `text[start..end]` apart by its field name.
fn line_kind(text: &[u8], start: usize, end: usize) -> (r: LineKind)
    requires
        start <= end <= text@.len(),
    ensures
        ({
            let line = text@.subrange(start as int, end as int);
            match r {
                LineKind::Event(a) => occurs_at(line, 0, event_tag()) && a == start + 6,
                LineKind::Data(a) => !occurs_at(line, 0, event_tag()) && occurs_at(line, 0, data_tag())
                    && a == start + 5 + (if end > start + 5 && text@[start + 5] == SPACE { 1int } else { 0int }),
                LineKind::Other => !occurs_at(line, 0, event_tag()) && !occurs_at(line, 0, data_tag()),
            }
        }),
{
    let line = &text[start..end];
    let event_pat: [u8; 6] = [101, 118, 101, 110, 116, COLON];
    let data_pat: [u8; 5] = [100, 97, 116, 97, COLON];
    assert(event_pat@ =~= event_tag());
    assert(data_pat@ =~= data_tag());
    if matches_at(line, 0, event_pat.as_slice()) {
        LineKind::Event(start + 6)
    } else if matches_at(line, 0, data_pat.as_slice()) {
        if end > start + 5 && text[start + 5] == SPACE {
            LineKind::Data(start + 6)
        } else {
            LineKind::Data(start + 5)
        }
    } else {
        LineKind::Other
    }
}

/// Appends `src[from..to]` to `dst`.
pub(crate) fn append_range(dst: &mut Vec<u8>, src: &[u8], from: usize, to: usize)
    requires
        from <= to <= src@.len(),
    ensures
        final(dst)@ == old(dst)@ + src@.subrange(from as int, to as int),
{
    let mut k = from;
    while k < to
        invariant
            from <= k <= to <= src@.len(),
            dst@ == old(dst)@ + src@.subrange(from as int, k as int),
        decreases to - k,
    {
        dst.push(src[k]);
        k += 1;
        assert(dst@ =~= old(dst)@ + src@.subrange(from as int, k as int));
    }
}

/// Whether `pat` stands in `b` at `i`.
fn matches_at(b: &[u8], i: usize, pat: &[u8]) -> (r: bool)
    ensures
        r == occurs_at(b@, i as int, pat@),
{
    if i > b.len() || pat.len() > b.len() - i {
        return false;
    }
    let n = b.len();
    let mut k: usize = 0;
    while k < pat.len()
        invariant
            n == b@.len(),
            i + pat@.len() <= b@.len(),
            k <= pat@.len(),
            forall|j: int| 0 <= j < k ==> b@[i + j] == pat@[j],
        decreases pat@.len() - k,
    {
        if b[i + k] != pat[k] {
            assert(b@.subrange(i as int, i + pat@.len())[k as int] != pat@[k as int]);
            return false;
        }
        k += 1;
    }
    assert(b@.subrange(i as int, i + pat@.len()) =~= pat@);
    true
}

/// The first position of `pat` in `b`.
fn find(b: &[u8], pat: &[u8]) -> (r: Option<usize>)
    requires
        pat@.len() > 0,
    ensures
        r matches Some(i) ==> first_occurrence(b@, pat@) == Some(i as int) && first_at(b@, i as int, pat@),
        r is None ==> first_occurrence(b@, pat@) is None,
{
    let mut i: usize = 0;
    while i < b.len()
        invariant
            i <= b@.len(),
            forall|j: int| 0 <= j < i ==> !occurs_at(b@, j, pat@),
        decreases b@.len() - i,
    {
        if matches_at(b, i, pat) {
            assert(first_at(b@, i as int, pat@));
            let ghost c = choose|c: int| first_at(b@, c, pat@);
            assert(c == i) by {
                if c < i {
                    assert(!occurs_at(b@, c, pat@));
                } else if c > i {
                    assert(!occurs_at(b@, i as int, pat@));
                }
            }
            return Some(i);
        }
        i += 1;
    }
    assert forall|j: int| !first_at(b@, j, pat@) by {
        if 0 <= j < b@.len() {
            assert(!occurs_at(b@, j, pat@));
        }
    }
    None
}

proof fn lemma_split_lines_len(t: Seq<u8>)
    ensures
        split_lines(t).len() >= 1,
    decreases t.len(),
{
    if t.len() > 0 {
        lemma_split_lines_len(t.drop_last());
    }
}

proof fn lemma_lf_valid()
    ensures
        valid_utf8(seq![LF]),
{
    let s = seq![LF];
    reveal_with_fuel(valid_utf8, 2);
    assert(s.subrange(1, 1) =~= Seq::<u8>::empty());
}

/// The exec state of the line reader holds the raw fields `acc` of `t`: the
/// event value as a range of `t`, the data values joined in `data`.
spec fn fields_held(
    t: Seq<u8>,
    event: Option<(usize, usize)>,
    data: Seq<u8>,
    has_data: bool,
    acc: RawFields,
) -> bool {
    &&& match event {
        Some((a, b)) => a <= b <= t.len() && ascii_cut(t, a as int) && ascii_cut(t, b as int)
            && acc.event == Some(t.subrange(a as int, b as int)),
        None => acc.event is None,
    }
    &&& data == join_lines(acc.data)
    &&& has_data == (acc.data.len() > 0)
    &&& valid_utf8(data)
}

/// Reads the line `text[start..end]` into the fields gathered so far.
fn take_line(
    text: &[u8],
    start: usize,
    end: usize,
    event: &mut Option<(usize, usize)>,
    data: &mut Vec<u8>,
    has_data: &mut bool,
    acc: Ghost<RawFields>,
) -> (r: Ghost<RawFields>)
    requires
        valid_utf8(text@),
        start <= end <= text@.len(),
        ascii_cut(text@, end as int),
        fields_held(text@, *old(event), old(data)@, *old(has_data), acc@),
    ensures
        r@ == read_line(acc@, text@.subrange(start as int, end as int)),
        fields_held(text@, *final(event), final(data)@, *final(has_data), r@),
{
    let ghost line = text@.subrange(start as int, end as int);
    match line_kind(text, start, end) {
        LineKind::Event(a) => {
            assert(line.subrange(0, 6)[5] == COLON);
            assert(text@[a - 1] == COLON);
            *event = Some((a, end));
            assert(line.skip(6) =~= text@.subrange(a as int, end as int));
            Ghost(RawFields { event: Some(line.skip(6)), data: acc@.data })
        },
        LineKind::Data(a) => {
            assert(line.subrange(0, 5)[4] == COLON);
            assert(text@[a - 1] == COLON || text@[a - 1] == SPACE);
            let ghost value = data_value(line.skip(5));
            assert(value =~= text@.subrange(a as int, end as int));
            proof {
                lemma_ascii_slice(text@, a as int, end as int);
            }
            let ghost old_data = data@;
            if *has_data {
                data.push(LF);
                proof {
                    lemma_lf_valid();
                    valid_utf8_concat(old_data, seq![LF]);
                }
                assert(data@ =~= old_data + seq![LF]);
            }
            let ghost mid = data@;
            append_range(data, text, a, end);
            proof {
                valid_utf8_concat(mid, value);
            }
            *has_data = true;
            let ghost items = acc@.data.push(value);
            assert(items.drop_last() =~= acc@.data);
            Ghost(RawFields { event: acc@.event, data: items })
        },
        LineKind::Other => acc,
    }
}

/// Reads the frame that `text` holds.
fn parse_frame_text(text: &[u8]) -> (r: SseFrame)
    requires
        valid_utf8(text@),
    ensures
        r@ == frame_of_text(text@),
{
    let n = text.len();
    let mut i: usize = 0;
    let mut start: usize = 0;
    let mut event: Option<(usize, usize)> = None;
    let mut data: Vec<u8> = Vec::new();
    let mut has_data = false;
    let ghost mut acc = RawFields { event: None, data: Seq::empty() };
    proof {
        assert(text@.subrange(0, 0) =~= Seq::<u8>::empty());
        assert(ended_lines(text@.subrange(0, 0)) =~= Seq::<Seq<u8>>::empty());
        assert(data@ =~= Seq::<u8>::empty());
    }
    while i < n
        invariant
            n == text@.len(),
            valid_utf8(text@),
            start <= i <= n,
            split_lines(text@.subrange(0, i as int)).last() == text@.subrange(start as int, i as int),
            ascii_cut(text@, start as int),
            acc == read_lines(ended_lines(text@.subrange(0, i as int))),
            fields_held(text@, event, data@, has_data, acc),
        decreases n - i,
    {
        let ghost before = text@.subrange(0, i as int);
        let ghost after = text@.subrange(0, i + 1);
        let ghost ps = split_lines(before);
        proof {
            assert(after.drop_last() =~= before);
            lemma_split_lines_len(before);
        }
        if text[i] == LF {
            let end = if i > start && text[i - 1] == CR {
                i - 1
            } else {
                i
            };
            assert(strip_cr(ps.last()) =~= text@.subrange(start as int, end as int));
            let ghost done = ended_lines(before).push(strip_cr(ps.last()));
            assert(ended_lines(after) =~= done);
            assert(done.drop_last() =~= ended_lines(before));
            let next = take_line(text, start, end, &mut event, &mut data, &mut has_data, Ghost(acc));
            proof {
                acc = next@;
            }
            start = i + 1;
        } else {
            assert(ended_lines(after) =~= ended_lines(before));
        }
        i += 1;
        assert(split_lines(text@.subrange(0, i as int)).last() =~= text@.subrange(start as int, i as int));
    }
    proof {
        assert(text@.subrange(0, n as int) =~= text@);
        lemma_split_lines_len(text@);
        let ps = split_lines(text@);
        assert(text_lines(text@) =~= ended_lines(text@).push(ps.last()));
        assert(text_lines(text@).drop_last() =~= ended_lines(text@));
    }
    let last = take_line(text, start, n, &mut event, &mut data, &mut has_data, Ghost(acc));
    let data_text = match utf8_str(data.as_slice()) {
        Some(s) => s.to_owned(),
        None => {
            assert(false);
            String::new()
        },
    };
    let event_name = match event {
        Some((a, b)) => {
            proof {
                lemma_ascii_slice(text@, a as int, b as int);
            }
            match utf8_str(&text[a..b]) {
                Some(s) => Some(trim_white_space(s).to_owned()),
                None => {
                    assert(false);
                    None
                },
            }
        },
        None => None,
    };
    SseFrame { event: event_name, data: data_text }
}

/// Finds the first complete frame in `buf` and reads it.
///
/// A frame is everything before the first blank line, `\r\n\r\n` being looked
/// for before `\n\n`; the count returned covers the frame and its delimiter.
/// A buffer that is not UTF-8 as a whole holds no complete frame yet. A frame
/// without `event:` and `data:` lines comes back with no event and empty data.
pub fn extract_frame(buf: &[u8]) -> (r: Option<(SseFrame, usize)>)
    ensures
        match next_frame(buf@) {
            Some((f, n)) => r matches Some((fr, m)) && fr@ == f && m == n,
            None => r is None,
        },
        r matches Some((_, m)) ==> 0 < m <= buf@.len(),
{
    let n = buf.len();
    if utf8_str(buf).is_none() {
        return None;
    }
    let crlf: [u8; 4] = [CR, LF, CR, LF];
    let lf: [u8; 2] = [LF, LF];
    assert(crlf@ =~= crlf_blank());
    assert(lf@ =~= lf_blank());
    let (end, consumed) = match find(buf, crlf.as_slice()) {
        Some(p) => (p, p + 4),
        None => match find(buf, lf.as_slice()) {
            Some(p) => (p, p + 2),
            None => return None,
        },
    };
    assert(buf@[end as int] == CR || buf@[end as int] == LF) by {
        assert(buf@.subrange(end as int, consumed as int)[0] == buf@[end as int]);
    }
    proof {
        lemma_ascii_cut(buf@, end as int);
    }
    let frame = parse_frame_text(&buf[0..end]);
    Some((frame, consumed))
}

} // verus!
