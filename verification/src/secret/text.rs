//! Line and text handling for command output: the credential is the first
//! line of standard output, with its line terminator stripped.

use vstd::prelude::*;

verus! {

/// The number of bytes before the first line feed, or the whole length when
/// none occurs.
pub open spec fn first_line_len(s: Seq<u8>) -> nat
    decreases s.len(),
{
    if s.len() == 0 {
        0
    } else if s[0] == 10u8 {
        0
    } else {
        (1 + first_line_len(s.skip(1))) as nat
    }
}

/// The first line of `s`: everything before the first line feed, with a
/// carriage return stripped when the line feed followed one.
pub open spec fn first_line_of(s: Seq<u8>) -> Seq<u8> {
    let e = first_line_len(s) as int;
    if e < s.len() && e > 0 && s[e - 1] == 13u8 {
        s.subrange(0, e - 1)
    } else {
        s.subrange(0, e)
    }
}

/// `first_line_len` finds the first line feed: nothing before it is one,
/// and the byte at it (when within bounds) is one.
proof fn lemma_first_line_len(s: Seq<u8>)
    ensures
        first_line_len(s) <= s.len(),
        forall|j: int| 0 <= j < first_line_len(s) ==> s[j] != 10u8,
        first_line_len(s) < s.len() ==> s[first_line_len(s) as int] == 10u8,
    decreases s.len(),
{
    if s.len() == 0 {
    } else if s[0] == 10u8 {
    } else {
        lemma_first_line_len(s.skip(1));
        assert forall|j: int| 0 <= j < first_line_len(s) implies s[j] != 10u8 by {
            if j > 0 {
                assert(s.skip(1)[j - 1] == s[j]);
            }
        }
        if first_line_len(s) < s.len() {
            assert(s.skip(1)[first_line_len(s) as int - 1] == s[first_line_len(s) as int]);
        }
    }
}

/// Copies the first line out of captured output bytes.
pub(crate) fn first_line(bytes: &Vec<u8>) -> (r: Vec<u8>)
    ensures
        r@ == first_line_of(bytes@),
{
    let n = bytes.len();
    let mut e: usize = 0;
    while e < n && bytes[e] != 10u8
        invariant
            n == bytes@.len(),
            e <= n,
            forall|j: int| 0 <= j < e ==> bytes@[j] != 10u8,
        decreases n - e,
    {
        e += 1;
    }
    proof {
        lemma_first_line_len(bytes@);
        if e < first_line_len(bytes@) {
            assert(bytes@[e as int] != 10u8);
            assert(false);
        }
        if e > first_line_len(bytes@) {
            assert(bytes@[first_line_len(bytes@) as int] != 10u8);
            assert(false);
        }
    }
    let end: usize = if e < n && e > 0 && bytes[e - 1] == 13u8 {
        e - 1
    } else {
        e
    };
    let mut r: Vec<u8> = Vec::new();
    let mut i: usize = 0;
    while i < end
        invariant
            end <= n,
            n == bytes@.len(),
            i <= end,
            r@ == bytes@.subrange(0, i as int),
        decreases end - i,
    {
        let b = bytes[i];
        r.push(b);
        i += 1;
        proof {
            assert(bytes@.subrange(0, i as int) =~= bytes@.subrange(0, i - 1).push(
                bytes@[i - 1],
            ));
        }
    }
    r
}

/// What converting bytes to text with invalid sequences replaced yields;
/// the result depends on the bytes alone.
pub uninterp spec fn utf8_lossy_of(bytes: Seq<u8>) -> Seq<char>;

/// Relies on String::from_utf8_lossy: the conversion is a function of the
/// bytes alone; no bytes give an empty string; valid ASCII bytes decode to
/// exactly their own characters.
#[verifier::external_body]
pub(crate) fn utf8_lossy(bytes: &Vec<u8>) -> (r: String)
    ensures
        r@ == utf8_lossy_of(bytes@),
        bytes@.len() == 0 ==> r@.len() == 0,
        (forall|i: int| 0 <= i < bytes@.len() ==> bytes@[i] < 0x80) ==> r@ == bytes@.map_values(
            |b: u8| b as char,
        ),
{
    String::from_utf8_lossy(bytes).into_owned()
}

} // verus!
