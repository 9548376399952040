//! Turns a text into its pig-latin form, word by word.
//!
//! Words are the maximal runs of non-whitespace characters. A word that
//! starts with a vowel keeps its tail, then takes a dash, its first letter
//! and `ay`; any other word takes `-hay` whole. Every transformed word is
//! followed by a single space.

use vstd::prelude::*;
use vstd::string::StrSliceExecFns;
use vstd::string::StringExecFns;

verus! {

/// The characters `split_whitespace` separates words on: the code points
/// with Unicode's `White_Space` property.
pub open spec fn is_ws(c: char) -> bool {
    ||| c == '\t'
    ||| c == '\n'
    ||| c == '\u{B}'
    ||| c == '\u{C}'
    ||| c == '\r'
    ||| c == ' '
    ||| c == '\u{85}'
    ||| c == '\u{A0}'
    ||| c == '\u{1680}'
    ||| c == '\u{2000}'
    ||| c == '\u{2001}'
    ||| c == '\u{2002}'
    ||| c == '\u{2003}'
    ||| c == '\u{2004}'
    ||| c == '\u{2005}'
    ||| c == '\u{2006}'
    ||| c == '\u{2007}'
    ||| c == '\u{2008}'
    ||| c == '\u{2009}'
    ||| c == '\u{200A}'
    ||| c == '\u{2028}'
    ||| c == '\u{2029}'
    ||| c == '\u{202F}'
    ||| c == '\u{205F}'
    ||| c == '\u{3000}'
}

/// The ten vowel letters the transformation looks for at the start of a
/// word.
pub open spec fn is_vowel(c: char) -> bool {
    ||| c == 'a'
    ||| c == 'e'
    ||| c == 'i'
    ||| c == 'o'
    ||| c == 'u'
    ||| c == 'A'
    ||| c == 'E'
    ||| c == 'I'
    ||| c == 'O'
    ||| c == 'U'
}

/// How many non-whitespace characters stand at `i`, that is the length of
/// the word that starts there (0 on whitespace or at the end).
pub open spec fn word_len(s: Seq<char>, i: int) -> nat
    decreases s.len() - i,
    when 0 <= i <= s.len()
{
    if i >= s.len() || is_ws(s[i]) {
        0
    } else {
        1 + word_len(s, i + 1)
    }
}

pub proof fn lemma_word_len(s: Seq<char>, i: int)
    requires
        0 <= i <= s.len(),
    ensures
        i + word_len(s, i) <= s.len(),
        i < s.len() && !is_ws(s[i]) ==> word_len(s, i) >= 1,
        forall|k: int| i <= k < i + word_len(s, i) ==> !is_ws(s[k]),
        i + word_len(s, i) < s.len() ==> is_ws(s[i + word_len(s, i)]),
    decreases s.len() - i,
{
    if i < s.len() && !is_ws(s[i]) {
        lemma_word_len(s, i + 1);
    }
}

/// The words of `s` from position `i` on: maximal runs of non-whitespace
/// characters, in order.
pub open spec fn words_from(s: Seq<char>, i: int) -> Seq<Seq<char>>
    decreases s.len() - i,
    when 0 <= i <= s.len()
    via words_from_decreases
{
    if i >= s.len() {
        Seq::empty()
    } else if is_ws(s[i]) {
        words_from(s, i + 1)
    } else {
        seq![s.subrange(i, i + word_len(s, i))] + words_from(s, i + word_len(s, i))
    }
}

#[via_fn]
proof fn words_from_decreases(s: Seq<char>, i: int) {
    if 0 <= i <= s.len() {
        lemma_word_len(s, i);
    }
}

/// All the words of `s`.
pub open spec fn words_of(s: Seq<char>) -> Seq<Seq<char>> {
    words_from(s, 0)
}

/// One word, transformed: a vowel word gives its tail, a dash, its first
/// letter and `ay`; any other word is kept whole and takes `-hay`.
pub open spec fn pig_word(w: Seq<char>) -> Seq<char> {
    if w.len() == 0 {
        Seq::empty()
    } else if is_vowel(w[0]) {
        w.subrange(1, w.len() as int) + seq!['-', w[0], 'a', 'y']
    } else {
        w + seq!['-', 'h', 'a', 'y']
    }
}

/// The whole text, transformed: each word followed by one space.
pub open spec fn pig_text(ws: Seq<Seq<char>>) -> Seq<char>
    decreases ws.len(),
{
    if ws.len() == 0 {
        Seq::empty()
    } else {
        pig_word(ws.first()) + seq![' '] + pig_text(ws.drop_first())
    }
}

/// Whether `c` separates words.
fn is_whitespace_char(c: char) -> (r: bool)
    ensures
        r == is_ws(c),
{
    c == '\t' || c == '\n' || c == '\u{B}' || c == '\u{C}' || c == '\r' || c == ' ' || c
        == '\u{85}' || c == '\u{A0}' || c == '\u{1680}' || c == '\u{2000}' || c == '\u{2001}' || c
        == '\u{2002}' || c == '\u{2003}' || c == '\u{2004}' || c == '\u{2005}' || c == '\u{2006}'
        || c == '\u{2007}' || c == '\u{2008}' || c == '\u{2009}' || c == '\u{200A}' || c
        == '\u{2028}' || c == '\u{2029}' || c == '\u{202F}' || c == '\u{205F}' || c == '\u{3000}'
}

/// Whether the word at `c` starts with a vowel.
fn is_vowel_char(c: char) -> (r: bool)
    ensures
        r == is_vowel(c),
{
    c == 'a' || c == 'e' || c == 'i' || c == 'o' || c == 'u' || c == 'A' || c == 'E' || c == 'I'
        || c == 'O' || c == 'U'
}

/// Once a run of non-whitespace characters has been scanned to its end,
/// its length is exactly the word length at its start.
proof fn lemma_scanned_word(s: Seq<char>, i: int, j: int)
    requires
        0 <= i <= j <= s.len(),
        forall|k: int| i <= k < j ==> !is_ws(s[k]),
        j == s.len() || is_ws(s[j]),
    ensures
        word_len(s, i) == j - i,
    decreases j - i,
{
    if i < j {
        lemma_scanned_word(s, i + 1, j);
    }
}

/// Rewrites the text in pig latin, one transformed word and one space at a
/// time.
pub fn convert_pig_latin(text: &str) -> (r: String)
    ensures
        r@ == pig_text(words_of(text@)),
{
    let n = text.unicode_len();
    let mut out = String::new();
    let mut i: usize = 0;
    while i < n
        invariant
            0 <= i <= n,
            n == text@.len(),
            pig_text(words_from(text@, 0)) == out@ + pig_text(words_from(text@, i as int)),
        decreases n - i,
    {
        let c = text.get_char(i);
        if is_whitespace_char(c) {
            i = i + 1;
        } else {
            let start = i;
            let mut j = i;
            while j < n && !is_whitespace_char(text.get_char(j))
                invariant
                    n == text@.len(),
                    start <= j <= n,
                    forall|k: int| start <= k < j ==> !is_ws(text@[k]),
                decreases n - j,
            {
                j = j + 1;
            }
            proof {
                lemma_scanned_word(text@, start as int, j as int);
            }
            let ghost w = text@.subrange(start as int, j as int);
            let ghost rest = words_from(text@, j as int);
            proof {
                assert(words_from(text@, start as int) =~= seq![w] + rest);
                assert((seq![w] + rest).first() == w);
                assert((seq![w] + rest).drop_first() =~= rest);
                reveal_strlit("-");
                reveal_strlit("ay");
                reveal_strlit("-hay");
                reveal_strlit(" ");
            }
            let ghost out0 = out@;
            let first = text.get_char(start);
            if is_vowel_char(first) {
                out.append(text.substring_char(start + 1, j));
                out.append("-");
                out.append(text.substring_char(start, start + 1));
                out.append("ay");
            } else {
                out.append(text.substring_char(start, j));
                out.append("-hay");
            }
            out.append(" ");
            proof {
                assert("-"@ =~= seq!['-']);
                assert("ay"@ =~= seq!['a', 'y']);
                assert("-hay"@ =~= seq!['-', 'h', 'a', 'y']);
                assert(" "@ =~= seq![' ']);
                assert(text@.subrange(start as int, start as int + 1) =~= seq![w[0]]);
                assert(pig_text(seq![w] + rest) == pig_word(w) + seq![' '] + pig_text(rest));
                if is_vowel(w[0]) {
                    assert(text@.subrange(start as int + 1, j as int) =~= w.subrange(
                        1,
                        w.len() as int,
                    ));
                }
                assert(out@ =~= out0 + pig_word(w) + seq![' ']);
            }
            i = j;
        }
    }
    proof {
        assert(words_from(text@, n as int) =~= Seq::<Seq<char>>::empty());
    }
    out
}

} // verus!
