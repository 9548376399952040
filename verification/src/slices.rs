//! The slice exercises: the first word of a sentence, once as the byte
//! position of the first space and once as a borrowed slice.

use vstd::prelude::*;
use vstd::string::StrSliceExecFns;
use vstd::utf8::encode_utf8;
use crate::lifetimes::lemma_scanned_space;
use crate::lifetimes::space_dist;

verus! {

/// How many bytes stand before the first space byte at or after `i`.
pub open spec fn space_byte_dist(b: Seq<u8>, i: int) -> nat
    decreases b.len() - i,
    when 0 <= i <= b.len()
{
    if i >= b.len() || b[i] == 32u8 {
        0
    } else {
        1 + space_byte_dist(b, i + 1)
    }
}

proof fn lemma_scanned_space_byte(b: Seq<u8>, i: int, j: int)
    requires
        0 <= i <= j <= b.len(),
        forall|k: int| i <= k < j ==> b[k] != 32u8,
        j == b.len() || b[j] == 32u8,
    ensures
        space_byte_dist(b, i) == j - i,
    decreases j - i,
{
    if i < j {
        lemma_scanned_space_byte(b, i + 1, j);
    }
}

/// The byte position of the first space in `s`, or its byte length when
/// it has none: where its first word ends.
pub fn first_word(s: &String) -> (r: usize)
    ensures
        r == space_byte_dist(encode_utf8(s@), 0),
{
    let bytes = s.as_str().as_bytes();
    let mut i: usize = 0;
    while i < bytes.len()
        invariant
            bytes@ == encode_utf8(s@),
            0 <= i <= bytes@.len(),
            forall|k: int| 0 <= k < i ==> bytes@[k] != 32u8,
        decreases bytes@.len() - i,
    {
        if bytes[i] == 32 {
            proof {
                lemma_scanned_space_byte(bytes@, 0, i as int);
            }
            return i;
        }
        i = i + 1;
    }
    proof {
        lemma_scanned_space_byte(bytes@, 0, bytes@.len() as int);
    }
    i
}

/// The first word of `s` as a borrowed slice: everything before the first
/// space, or all of `s` when it has none.
pub fn first_word_slice(s: &str) -> (r: &str)
    ensures
        r@ == s@.take(space_dist(s@, 0) as int),
{
    let n = s.unicode_len();
    let mut j: usize = 0;
    while j < n && s.get_char(j) != ' '
        invariant
            n == s@.len(),
            0 <= j <= n,
            forall|k: int| 0 <= k < j ==> s@[k] != ' ',
        decreases n - j,
    {
        j = j + 1;
    }
    proof {
        lemma_scanned_space(s@, 0, j as int);
        assert(s@.subrange(0, j as int) =~= s@.take(j as int));
    }
    s.substring_char(0, j)
}

} // verus!
