//! Names of directory entries: truncation into the fixed-width buffer and
//! decoding back to text.

use vstd::prelude::*;
use vstd::string::StringSliceAdditionalSpecFns;
use vstd::utf8::{
    decode_utf8, encode_utf8, encode_utf8_decode_utf8, encode_utf8_valid_utf8, is_char_boundary,
    valid_utf8, valid_utf8_split,
};

verus! {

broadcast use encode_utf8_valid_utf8;

/// Width in bytes of the name buffer of a directory entry.
pub const NAME_WIDTH: usize = 32;

/// The largest character boundary of `b` that is not above `k`.
pub open spec fn boundary_at_most(b: Seq<u8>, k: int) -> int
    decreases k,
{
    if k <= 0 {
        0
    } else if is_char_boundary(b, k) {
        k
    } else {
        boundary_at_most(b, k - 1)
    }
}

/// The bytes of `name` that a directory entry keeps: the longest prefix of its
/// UTF-8 encoding that fits the buffer and ends on a character boundary.
pub open spec fn kept_name(name: Seq<char>) -> Seq<u8> {
    let b = encode_utf8(name);
    let w = if b.len() < NAME_WIDTH {
        b.len() as int
    } else {
        NAME_WIDTH as int
    };
    b.subrange(0, boundary_at_most(b, w))
}

/// The text read back from stored name bytes: their decoding where they are
/// well-formed UTF-8, and the empty name otherwise.
pub open spec fn decoded_name(b: Seq<u8>) -> Seq<char> {
    if valid_utf8(b) {
        decode_utf8(b)
    } else {
        seq![]
    }
}

proof fn lemma_boundary_at_most(b: Seq<u8>, k: int)
    requires
        valid_utf8(b),
        0 <= k <= b.len(),
    ensures
        0 <= boundary_at_most(b, k) <= k,
        is_char_boundary(b, boundary_at_most(b, k)),
    decreases k,
{
    if k > 0 && !is_char_boundary(b, k) {
        lemma_boundary_at_most(b, k - 1);
    }
}

/// The kept bytes of a name are well-formed UTF-8 and fit the buffer.
pub proof fn lemma_kept_name_valid(name: Seq<char>)
    ensures
        valid_utf8(kept_name(name)),
        kept_name(name).len() <= NAME_WIDTH,
{
    let b = encode_utf8(name);
    let w = if b.len() < NAME_WIDTH {
        b.len() as int
    } else {
        NAME_WIDTH as int
    };
    lemma_boundary_at_most(b, w);
    valid_utf8_split(b, boundary_at_most(b, w));
}

/// Fills a name buffer with the kept bytes of `name`, zero-padded, and returns
/// the buffer with the number of bytes kept.
pub fn name_buffer(name: &str) -> (r: ([u8; 32], usize))
    ensures
        r.1 == kept_name(name@).len(),
        r.0@ == kept_name(name@) + Seq::new((NAME_WIDTH - r.1) as nat, |i: int| 0u8),
{
    let bytes = name.as_bytes();
    let len = bytes.len();
    let ghost b = encode_utf8(name@);
    let mut k: usize = if len < NAME_WIDTH {
        len
    } else {
        NAME_WIDTH
    };
    let ghost w = k as int;
    while k > 0 && !name.is_char_boundary(k)
        invariant
            b == name.spec_bytes(),
            bytes@ == b,
            len == b.len(),
            k <= w <= b.len(),
            w <= NAME_WIDTH,
            w == if b.len() < NAME_WIDTH {
                b.len() as int
            } else {
                NAME_WIDTH as int
            },
            boundary_at_most(b, k as int) == boundary_at_most(b, w),
        decreases k,
    {
        k = k - 1;
    }
    let mut buf = [0u8; 32];
    let mut i: usize = 0;
    while i < k
        invariant
            k <= len,
            k <= NAME_WIDTH,
            bytes@ == b,
            len == b.len(),
            i <= k,
            forall|j: int| 0 <= j < i ==> buf@[j] == b[j],
            forall|j: int| i <= j < NAME_WIDTH ==> buf@[j] == 0u8,
        decreases k - i,
    {
        buf[i] = bytes[i];
        i = i + 1;
    }
    assert(buf@ =~= kept_name(name@) + Seq::new((NAME_WIDTH - k) as nat, |i: int| 0u8));
    (buf, k)
}

/// Relies on std::str::from_utf8: it succeeds exactly on well-formed UTF-8
/// and then returns a `str` made of those same bytes.
#[verifier::external_body]
fn utf8_str(b: &[u8]) -> (r: Option<&str>)
    ensures
        r is Some <==> valid_utf8(b@),
        r matches Some(s) ==> s.spec_bytes() == b@,
{
    std::str::from_utf8(b).ok()
}

/// Decodes stored name bytes, yielding the empty name where they are not
/// well-formed UTF-8.
pub fn decode_name(b: &[u8]) -> (r: String)
    ensures
        r@ == decoded_name(b@),
{
    match utf8_str(b) {
        Some(s) => {
            proof {
                encode_utf8_decode_utf8(s@);
            }
            s.to_owned()
        },
        None => String::new(),
    }
}

} // verus!
