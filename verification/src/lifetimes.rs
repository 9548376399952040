//! The lifetime exercises: picking the longer of two string slices, the
//! first word of a sentence, and an excerpt that borrows part of a text.

use vstd::prelude::*;
use vstd::string::StrSliceExecFns;
use vstd::string::StringSliceAdditionalSpecFns;

verus! {

/// The byte length of a string slice, as `str::len` reports it.
pub open spec fn byte_len(s: &str) -> usize {
    s.spec_bytes().len() as usize
}

/// Whichever of the two strings has more bytes; ties go to `y`.
pub fn longest<'a>(x: &'a str, y: &'a str) -> (r: &'a str)
    ensures
        r@ == if byte_len(x) > byte_len(y) {
            x@
        } else {
            y@
        },
{
    if x.len() > y.len() {
        return x;
    }
    y
}

/// How many characters stand before the first space at or after `i`.
pub open spec fn space_dist(s: Seq<char>, i: int) -> nat
    decreases s.len() - i,
    when 0 <= i <= s.len()
{
    if i >= s.len() || s[i] == ' ' {
        0
    } else {
        1 + space_dist(s, i + 1)
    }
}

/// Once a run without a space has been scanned to its end, its length is
/// exactly the distance to the next space.
pub proof fn lemma_scanned_space(s: Seq<char>, i: int, j: int)
    requires
        0 <= i <= j <= s.len(),
        forall|k: int| i <= k < j ==> s[k] != ' ',
        j == s.len() || s[j] == ' ',
    ensures
        space_dist(s, i) == j - i,
    decreases j - i,
{
    if i < j {
        lemma_scanned_space(s, i + 1, j);
    }
}

/// The first word of `s`: everything before the first space, or all of
/// `s` when it has none.
pub fn first_word(s: &str) -> (r: &str)
    ensures
        r@ == s@.take(space_dist(s@, 0) as int),
{
    let n = s.unicode_len();
    let mut j: usize = 0;
    while j < n && s.get_char(j) != ' '
        invariant
            n == s@.len(),
            0 <= j <= n,
            forall|k: int| 0 <= k < j ==> s@[k] != ' ',
        decreases n - j,
    {
        j = j + 1;
    }
    proof {
        lemma_scanned_space(s@, 0, j as int);
        assert(s@.subrange(0, j as int) =~= s@.take(j as int));
    }
    s.substring_char(0, j)
}

/// A fragment borrowed from a longer text.
pub struct ImportantExcerpt<'a> {
    pub part: &'a str,
}

impl<'a> ImportantExcerpt<'a> {
    /// The fixed importance level of any excerpt.
    pub fn level(&self) -> (r: i32)
        ensures
            r == 3,
    {
        3
    }
}

} // verus!
