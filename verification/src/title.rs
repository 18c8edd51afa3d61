//! Window title truncation.
//!
//! The compositor protocol dislikes huge strings, so the stored title is cut
//! to at most `TITLE_MAX_BYTES` bytes, at the largest character boundary
//! that fits.
use vstd::prelude::*;

use vstd::string::StringSliceAdditionalSpecFns;
use vstd::utf8::encode_utf8;
use vstd::utf8::encode_utf8_valid_utf8;
use vstd::utf8::is_char_boundary;
use vstd::utf8::valid_utf8;

verus! {

/// The longest title, in bytes, that is kept.
pub const TITLE_MAX_BYTES: usize = 1024;

/// The largest character boundary at or below `limit`; index zero is always
/// a boundary.
pub open spec fn boundary_at_or_below(bytes: Seq<u8>, limit: int) -> int
    recommends
        valid_utf8(bytes),
        0 <= limit <= bytes.len(),
    decreases limit,
{
    if limit <= 0 {
        0
    } else if is_char_boundary(bytes, limit) {
        limit
    } else {
        boundary_at_or_below(bytes, limit - 1)
    }
}

/// The byte length a stored title is cut to: the whole title when it fits,
/// else the largest character boundary at or below the limit.
pub open spec fn truncated_title_len(bytes: Seq<u8>) -> int {
    if bytes.len() <= TITLE_MAX_BYTES {
        bytes.len() as int
    } else {
        boundary_at_or_below(bytes, TITLE_MAX_BYTES as int)
    }
}

/// What the stored title's bytes are, given the bytes handed in.
pub open spec fn spec_truncate_title(bytes: Seq<u8>) -> Seq<u8> {
    bytes.subrange(0, truncated_title_len(bytes))
}

/// The cut point never exceeds the limit it was given.
pub proof fn lemma_boundary_at_or_below_bounds(bytes: Seq<u8>, limit: int)
    requires
        0 <= limit,
    ensures
        0 <= boundary_at_or_below(bytes, limit) <= limit,
    decreases limit,
{
    if limit > 0 && !is_char_boundary(bytes, limit) {
        lemma_boundary_at_or_below_bounds(bytes, limit - 1);
    }
}

/// The cut point is itself a character boundary.
pub proof fn lemma_boundary_at_or_below_is_boundary(bytes: Seq<u8>, limit: int)
    requires
        valid_utf8(bytes),
        0 <= limit <= bytes.len(),
    ensures
        is_char_boundary(bytes, boundary_at_or_below(bytes, limit)),
    decreases limit,
{
    if limit <= 0 {
        assert(is_char_boundary(bytes, 0));
    } else if !is_char_boundary(bytes, limit) {
        lemma_boundary_at_or_below_is_boundary(bytes, limit - 1);
    }
}

/// The cut point is the largest character boundary at or below the limit:
/// nothing strictly between it and the limit is a boundary.
pub proof fn lemma_boundary_at_or_below_is_largest(bytes: Seq<u8>, limit: int, k: int)
    requires
        0 <= limit,
        boundary_at_or_below(bytes, limit) < k <= limit,
    ensures
        !is_char_boundary(bytes, k),
    decreases limit,
{
    if limit > 0 && !is_char_boundary(bytes, limit) && k < limit {
        lemma_boundary_at_or_below_is_largest(bytes, limit - 1, k);
    }
}

/// Cut a title to at most `TITLE_MAX_BYTES` bytes on a character boundary.
///
/// A title that already fits comes back unchanged; a longer one is cut at
/// the largest boundary at or below the limit, so the result is a prefix of
/// the input and still valid text.
pub fn truncate_title(title: String) -> (r: String)
    ensures
        encode_utf8(r@) == spec_truncate_title(encode_utf8(title@)),
        encode_utf8(r@).len() <= TITLE_MAX_BYTES,
        encode_utf8(title@).len() <= TITLE_MAX_BYTES ==> r@ == title@,
{
    proof {
        broadcast use encode_utf8_valid_utf8;

    }
    let s: &str = title.as_str();
    let len: usize = s.as_bytes().len();
    if len <= TITLE_MAX_BYTES {
        proof {
            assert(spec_truncate_title(encode_utf8(title@)) =~= encode_utf8(title@));
        }
        return title;
    }
    let ghost bytes = s.spec_bytes();
    let mut new_len: usize = TITLE_MAX_BYTES;
    while !s.is_char_boundary(new_len)
        invariant
            new_len <= TITLE_MAX_BYTES < s.spec_bytes().len(),
            bytes == s.spec_bytes(),
            valid_utf8(bytes),
            boundary_at_or_below(bytes, TITLE_MAX_BYTES as int) == boundary_at_or_below(
                bytes,
                new_len as int,
            ),
        decreases new_len,
    {
        proof {
            assert(is_char_boundary(bytes, 0));
            assert(new_len > 0);
        }
        new_len = new_len - 1;
    }
    proof {
        assert(boundary_at_or_below(bytes, new_len as int) == new_len as int);
        lemma_boundary_at_or_below_bounds(bytes, TITLE_MAX_BYTES as int);
    }
    let (head, _tail) = s.split_at(new_len);
    let r = head.to_owned();
    proof {
        assert(encode_utf8(r@) == head.spec_bytes());
        assert(encode_utf8(r@) =~= spec_truncate_title(encode_utf8(title@)));
    }
    r
}

} // verus!
