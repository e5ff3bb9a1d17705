//! Facts about UTF-8 text cut at ASCII bytes, and the few std text operations
//! that the frame parser relies on.

use vstd::prelude::*;
use vstd::utf8::*;

verus! {

broadcast use vstd::seq::group_seq_axioms;

/// A byte below 0x80: a whole character in UTF-8, never part of a longer one.
pub open spec fn is_ascii_byte(b: u8) -> bool {
    b < 0x80
}

/// Cutting `b` at `i` does not split a character: `i` is an end of `b`, or
/// one of the bytes on either side of the cut is ASCII.
pub open spec fn ascii_cut(b: Seq<u8>, i: int) -> bool {
    0 <= i <= b.len() && (i == 0 || i == b.len() || is_ascii_byte(b[i]) || is_ascii_byte(b[i - 1]))
}

proof fn lemma_first_scalar_within(b: Seq<u8>, i: int)
    requires
        valid_first_scalar(b),
        0 < i < b.len(),
        is_ascii_byte(b[i]) || is_ascii_byte(b[i - 1]),
    ensures
        length_of_first_scalar(b) <= i,
{
}

proof fn lemma_first_scalar_prefix(b: Seq<u8>, i: int)
    requires
        valid_first_scalar(b),
        length_of_first_scalar(b) <= i <= b.len(),
    ensures
        valid_first_scalar(b.subrange(0, i)),
        length_of_first_scalar(b.subrange(0, i)) == length_of_first_scalar(b),
        pop_first_scalar(b.subrange(0, i)) =~= pop_first_scalar(b).subrange(
            0,
            i - length_of_first_scalar(b),
        ),
{
    let p = b.subrange(0, i);
    assert(p[0] == b[0]);
    if length_of_first_scalar(b) >= 2 {
        assert(p[1] == b[1]);
    }
    if length_of_first_scalar(b) >= 3 {
        assert(p[2] == b[2]);
    }
    if length_of_first_scalar(b) >= 4 {
        assert(p[3] == b[3]);
    }
}

/// A valid UTF-8 sequence cut at an ASCII boundary leaves two valid halves.
pub proof fn lemma_ascii_cut(b: Seq<u8>, i: int)
    requires
        valid_utf8(b),
        ascii_cut(b, i),
    ensures
        valid_utf8(b.subrange(0, i)),
        valid_utf8(b.subrange(i, b.len() as int)),
    decreases b.len(),
{
    if i == 0 {
        assert(b.subrange(0, 0) =~= Seq::<u8>::empty());
        assert(b.subrange(0, b.len() as int) =~= b);
    } else if i == b.len() {
        assert(b.subrange(0, b.len() as int) =~= b);
        assert(b.subrange(i, i) =~= Seq::<u8>::empty());
    } else {
        lemma_first_scalar_within(b, i);
        let k = length_of_first_scalar(b);
        let rest = pop_first_scalar(b);
        lemma_first_scalar_prefix(b, i);
        assert(rest.len() < b.len());
        assert(ascii_cut(rest, i - k)) by {
            if i - k > 0 && i - k < rest.len() {
                assert(rest[i - k] == b[i]);
                assert(rest[i - k - 1] == b[i - 1]);
            }
        }
        lemma_ascii_cut(rest, i - k);
        assert(rest.subrange(i - k, rest.len() as int) =~= b.subrange(i, b.len() as int));
    }
}

/// The bytes of `b` from `i` to `j`, both ASCII boundaries, are valid UTF-8.
pub proof fn lemma_ascii_slice(b: Seq<u8>, i: int, j: int)
    requires
        valid_utf8(b),
        ascii_cut(b, i),
        ascii_cut(b, j),
        i <= j,
    ensures
        valid_utf8(b.subrange(i, j)),
{
    lemma_ascii_cut(b, i);
    let tail = b.subrange(i, b.len() as int);
    assert(ascii_cut(tail, j - i)) by {
        if j - i > 0 && j - i < tail.len() {
            assert(tail[j - i] == b[j]);
            assert(tail[j - i - 1] == b[j - 1]);
        }
    }
    lemma_ascii_cut(tail, j - i);
    assert(tail.subrange(0, j - i) =~= b.subrange(i, j));
}

/// Whether `c` has the Unicode White_Space property, as `char::is_whitespace` decides.
pub open spec fn is_white_space(c: char) -> bool {
    let u = c as u32;
    ||| 0x09 <= u <= 0x0d
    ||| u == 0x20
    ||| u == 0x85
    ||| u == 0xa0
    ||| u == 0x1680
    ||| 0x2000 <= u <= 0x200a
    ||| u == 0x2028
    ||| u == 0x2029
    ||| u == 0x202f
    ||| u == 0x205f
    ||| u == 0x3000
}

/// `s` without its leading and trailing white space.
pub open spec fn trim_white(s: Seq<char>) -> Seq<char>
    decreases s.len(),
{
    if s.len() == 0 {
        s
    } else if is_white_space(s[0]) {
        trim_white(s.drop_first())
    } else if is_white_space(s.last()) {
        trim_white(s.drop_last())
    } else {
        s
    }
}

/// Relies on `str::trim`: it removes leading and trailing characters with the
/// White_Space property and keeps everything between them.
#[verifier::external_body]
pub(crate) fn trim_white_space<'a>(s: &'a str) -> (r: &'a str)
    ensures
        r@ == trim_white(s@),
{
    s.trim()
}

/// Relies on `std::str::from_utf8`: it accepts exactly the byte strings that
/// are UTF-8, and the text it hands back holds those bytes.
#[verifier::external_body]
pub(crate) fn utf8_str(bytes: &[u8]) -> (r: Option<&str>)
    ensures
        r is Some <==> valid_utf8(bytes@),
        r matches Some(s) ==> s@ == decode_utf8(bytes@),
{
    std::str::from_utf8(bytes).ok()
}

/// Whether two byte strings are equal.
pub fn bytes_equal(a: &[u8], b: &[u8]) -> (r: bool)
    ensures
        r == (a@ == b@),
{
    if a.len() != b.len() {
        return false;
    }
    let mut i: usize = 0;
    while i < a.len()
        invariant
            a@.len() == b@.len(),
            i <= a@.len(),
            forall|j: int| 0 <= j < i ==> a@[j] == b@[j],
        decreases a@.len() - i,
    {
        if a[i] != b[i] {
            return false;
        }
        i += 1;
    }
    assert(a@ =~= b@);
    true
}

/// Whether two texts hold the same characters.
pub fn same_text(a: &str, b: &str) -> (r: bool)
    ensures
        r == (a@ == b@),
{
    proof {
        encode_utf8_decode_utf8(a@);
        encode_utf8_decode_utf8(b@);
    }
    bytes_equal(a.as_bytes(), b.as_bytes())
}

/// Whether `s` begins with `prefix`.
pub fn starts_with_text(s: &str, prefix: &str) -> (r: bool)
    ensures
        r == (prefix@.len() <= s@.len() && s@.subrange(0, prefix@.len() as int) == prefix@),
{
    let n = s.unicode_len();
    let m = prefix.unicode_len();
    if m > n {
        return false;
    }
    same_text(s.substring_char(0, m), prefix)
}

} // verus!
