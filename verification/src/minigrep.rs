//! A toy grep: split a text into lines and keep the lines that contain the
//! query, either exactly or after lowercasing both sides.

use vstd::prelude::*;
use vstd::string::StrSliceExecFns;

verus! {

/// `n` occurs somewhere in `h` as a contiguous run.
pub open spec fn str_contains(h: Seq<char>, n: Seq<char>) -> bool {
    exists|i: int| 0 <= i && i + n.len() <= h.len() && #[trigger] h.subrange(i, i + n.len()) == n
}

/// How far the next line feed is from `i` (the distance to the end when
/// there is none).
pub open spec fn nl_dist(s: Seq<char>, i: int) -> nat
    decreases s.len() - i,
    when 0 <= i <= s.len()
{
    if i >= s.len() || s[i] == '\n' {
        0
    } else {
        1 + nl_dist(s, i + 1)
    }
}

pub proof fn lemma_nl_dist(s: Seq<char>, i: int)
    requires
        0 <= i <= s.len(),
    ensures
        i + nl_dist(s, i) <= s.len(),
        forall|k: int| i <= k < i + nl_dist(s, i) ==> s[k] != '\n',
        i + nl_dist(s, i) < s.len() ==> s[i + nl_dist(s, i)] == '\n',
    decreases s.len() - i,
{
    if i < s.len() && s[i] != '\n' {
        lemma_nl_dist(s, i + 1);
    }
}

/// Once a run without a line feed has been scanned to its end, its length
/// is exactly the distance to the next line feed.
proof fn lemma_scanned_line(s: Seq<char>, i: int, j: int)
    requires
        0 <= i <= j <= s.len(),
        forall|k: int| i <= k < j ==> s[k] != '\n',
        j == s.len() || s[j] == '\n',
    ensures
        nl_dist(s, i) == j - i,
    decreases j - i,
{
    if i < j {
        lemma_scanned_line(s, i + 1, j);
    }
}

/// The lines of `s` from position `i` on, as `str::lines` yields them:
/// split at each line feed, with a carriage return directly before a line
/// feed stripped, and no empty line after a final line feed.
pub open spec fn lines_from(s: Seq<char>, i: int) -> Seq<Seq<char>>
    decreases s.len() - i,
    when 0 <= i <= s.len()
    via lines_from_decreases
{
    if i >= s.len() {
        Seq::empty()
    } else {
        let e = i + nl_dist(s, i);
        let raw = s.subrange(i, e);
        let line = if e < s.len() && raw.len() > 0 && raw.last() == '\r' {
            raw.drop_last()
        } else {
            raw
        };
        seq![line] + if e < s.len() {
            lines_from(s, e + 1)
        } else {
            Seq::empty()
        }
    }
}

#[via_fn]
proof fn lines_from_decreases(s: Seq<char>, i: int) {
    if 0 <= i <= s.len() {
        lemma_nl_dist(s, i);
    }
}

/// All the lines of `s`.
pub open spec fn lines_of(s: Seq<char>) -> Seq<Seq<char>> {
    lines_from(s, 0)
}

/// The lines of `ls` that contain `q`, in order.
pub open spec fn matching_lines(ls: Seq<Seq<char>>, q: Seq<char>) -> Seq<Seq<char>>
    decreases ls.len(),
{
    if ls.len() == 0 {
        Seq::empty()
    } else {
        let rest = matching_lines(ls.drop_first(), q);
        if str_contains(ls.first(), q) {
            seq![ls.first()] + rest
        } else {
            rest
        }
    }
}

/// The lines of `ls` whose lowercase form contains `q` (`q` is already
/// lowercase), in order.
pub open spec fn matching_lines_folded(ls: Seq<Seq<char>>, q: Seq<char>) -> Seq<Seq<char>>
    decreases ls.len(),
{
    if ls.len() == 0 {
        Seq::empty()
    } else {
        let rest = matching_lines_folded(ls.drop_first(), q);
        if str_contains(lower_of(ls.first()), q) {
            seq![ls.first()] + rest
        } else {
            rest
        }
    }
}

/// What `str::to_lowercase` returns for a given sequence of characters.
pub uninterp spec fn lower_of(s: Seq<char>) -> Seq<char>;

/// Relies on str::to_lowercase: the result depends on the characters alone,
/// and an empty string stays empty.
#[verifier::external_body]
fn to_lowercase(s: &str) -> (r: String)
    ensures
        r@ == lower_of(s@),
        s@.len() == 0 ==> r@.len() == 0,
{
    s.to_lowercase()
}

/// Whether `haystack` contains `needle` as a contiguous run of characters.
pub fn contains_str(haystack: &str, needle: &str) -> (r: bool)
    ensures
        r == str_contains(haystack@, needle@),
{
    let hn = haystack.unicode_len();
    let nn = needle.unicode_len();
    if nn > hn {
        return false;
    }
    let mut i: usize = 0;
    while i <= hn - nn
        invariant
            nn <= hn,
            hn == haystack@.len(),
            nn == needle@.len(),
            0 <= i <= hn - nn + 1,
            forall|k: int|
                0 <= k < i ==> #[trigger] haystack@.subrange(k, k + needle@.len()) != needle@,
        decreases hn + 1 - i,
    {
        let mut j: usize = 0;
        while j < nn && haystack.get_char(i + j) == needle.get_char(j)
            invariant
                nn <= hn,
                hn == haystack@.len(),
                nn == needle@.len(),
                0 <= i <= hn - nn,
                0 <= j <= nn,
                forall|m: int| 0 <= m < j ==> haystack@[i + m] == needle@[m],
            decreases nn - j,
        {
            j = j + 1;
        }
        if j == nn {
            proof {
                assert(haystack@.subrange(i as int, i as int + needle@.len()) =~= needle@);
            }
            return true;
        }
        proof {
            assert(haystack@.subrange(i as int, i as int + needle@.len())[j as int] == haystack@[i
                + j]);
        }
        i = i + 1;
    }
    false
}

/// The lines of `contents` that contain `query`.
pub fn search<'a>(query: &str, contents: &'a str) -> (r: Vec<&'a str>)
    ensures
        r@.map_values(|l: &str| l@) == matching_lines(lines_of(contents@), query@),
{
    let n = contents.unicode_len();
    let mut results: Vec<&'a str> = Vec::new();
    let mut i: usize = 0;
    while i < n
        invariant
            0 <= i <= n,
            n == contents@.len(),
            matching_lines(lines_of(contents@), query@) == results@.map_values(|l: &str| l@)
                + matching_lines(lines_from(contents@, i as int), query@),
        decreases n - i,
    {
        let ghost results0 = results@;
        let ghost ls = lines_from(contents@, i as int);
        let mut j = i;
        while j < n && contents.get_char(j) != '\n'
            invariant
                n == contents@.len(),
                i <= j <= n,
                forall|k: int| i <= k < j ==> contents@[k] != '\n',
            decreases n - j,
        {
            j = j + 1;
        }
        proof {
            lemma_scanned_line(contents@, i as int, j as int);
        }
        let line: &'a str = if j < n && j > i && contents.get_char(j - 1) == '\r' {
            contents.substring_char(i, j - 1)
        } else {
            contents.substring_char(i, j)
        };
        proof {
            let raw = contents@.subrange(i as int, j as int);
            if j < n && raw.len() > 0 && raw.last() == '\r' {
                assert(contents@.subrange(i as int, j as int - 1) =~= raw.drop_last());
            }
            assert(ls.first() == line@);
            assert(ls.drop_first() =~= if j < n {
                lines_from(contents@, j as int + 1)
            } else {
                Seq::<Seq<char>>::empty()
            });
        }
        if contains_str(line, query) {
            results.push(line);
            proof {
                assert(results@.map_values(|l: &str| l@) =~= results0.map_values(|l: &str| l@)
                    + seq![line@]);
            }
        }
        proof {
            assert(matching_lines(ls, query@) == if str_contains(line@, query@) {
                seq![line@] + matching_lines(ls.drop_first(), query@)
            } else {
                matching_lines(ls.drop_first(), query@)
            });
        }
        if j < n {
            i = j + 1;
        } else {
            i = n;
            proof {
                assert(lines_from(contents@, n as int) =~= Seq::<Seq<char>>::empty());
            }
        }
    }
    proof {
        assert(lines_from(contents@, n as int) =~= Seq::<Seq<char>>::empty());
    }
    results
}

/// The lines of `contents` that contain `query` once both are lowercased.
pub fn search_case_insensitive<'a>(query: &str, contents: &'a str) -> (r: Vec<&'a str>)
    ensures
        r@.map_values(|l: &str| l@) == matching_lines_folded(
            lines_of(contents@),
            lower_of(query@),
        ),
{
    let query_lower = to_lowercase(query);
    let n = contents.unicode_len();
    let mut results: Vec<&'a str> = Vec::new();
    let mut i: usize = 0;
    while i < n
        invariant
            0 <= i <= n,
            n == contents@.len(),
            query_lower@ == lower_of(query@),
            matching_lines_folded(lines_of(contents@), lower_of(query@)) == results@.map_values(
                |l: &str| l@,
            ) + matching_lines_folded(lines_from(contents@, i as int), lower_of(query@)),
        decreases n - i,
    {
        let ghost results0 = results@;
        let ghost ls = lines_from(contents@, i as int);
        let mut j = i;
        while j < n && contents.get_char(j) != '\n'
            invariant
                n == contents@.len(),
                i <= j <= n,
                forall|k: int| i <= k < j ==> contents@[k] != '\n',
            decreases n - j,
        {
            j = j + 1;
        }
        proof {
            lemma_scanned_line(contents@, i as int, j as int);
        }
        let line: &'a str = if j < n && j > i && contents.get_char(j - 1) == '\r' {
            contents.substring_char(i, j - 1)
        } else {
            contents.substring_char(i, j)
        };
        proof {
            let raw = contents@.subrange(i as int, j as int);
            if j < n && raw.len() > 0 && raw.last() == '\r' {
                assert(contents@.subrange(i as int, j as int - 1) =~= raw.drop_last());
            }
            assert(ls.first() == line@);
            assert(ls.drop_first() =~= if j < n {
                lines_from(contents@, j as int + 1)
            } else {
                Seq::<Seq<char>>::empty()
            });
        }
        let line_lower = to_lowercase(line);
        if contains_str(line_lower.as_str(), query_lower.as_str()) {
            results.push(line);
            proof {
                assert(results@.map_values(|l: &str| l@) =~= results0.map_values(|l: &str| l@)
                    + seq![line@]);
            }
        }
        proof {
            assert(matching_lines_folded(ls, lower_of(query@)) == if str_contains(
                lower_of(line@),
                lower_of(query@),
            ) {
                seq![line@] + matching_lines_folded(ls.drop_first(), lower_of(query@))
            } else {
                matching_lines_folded(ls.drop_first(), lower_of(query@))
            });
        }
        if j < n {
            i = j + 1;
        } else {
            i = n;
            proof {
                assert(lines_from(contents@, n as int) =~= Seq::<Seq<char>>::empty());
            }
        }
    }
    proof {
        assert(lines_from(contents@, n as int) =~= Seq::<Seq<char>>::empty());
    }
    results
}

/// How a search is to be run: what to look for, where, and whether case
/// matters.
pub struct Config {
    pub query: String,
    pub filename: String,
    pub case_sensitive: bool,
}

impl Config {
    /// Reads the query and the file name from the argument list (whose
    /// first entry is the program name). A fourth argument containing
    /// `case_insensitive` forces case-insensitive search; otherwise the
    /// search is case-sensitive exactly when the `CASE_INSENSITIVE`
    /// environment variable is absent, which the caller reports through
    /// `env_case_insensitive`.
    pub fn new(args: &Vec<String>, env_case_insensitive: bool) -> (r: Result<
        Config,
        &'static str,
    >)
        ensures
            args@.len() < 2 ==> r is Err && r->Err_0@ == "Didn't get a query string"@,
            args@.len() == 2 ==> r is Err && r->Err_0@ == "Didn't get a file name"@,
            args@.len() >= 3 ==> r is Ok && r->Ok_0.query@ == args@[1]@ && r->Ok_0.filename@
                == args@[2]@ && r->Ok_0.case_sensitive == (if args@.len() >= 4 && str_contains(
                args@[3]@,
                "case_insensitive"@,
            ) {
                false
            } else {
                !env_case_insensitive
            }),
    {
        if args.len() < 2 {
            return Err("Didn't get a query string");
        }
        if args.len() < 3 {
            return Err("Didn't get a file name");
        }
        let query = args[1].clone();
        let filename = args[2].clone();
        let arg_case_insensitive = if args.len() >= 4 {
            contains_str(args[3].as_str(), "case_insensitive")
        } else {
            false
        };
        let case_sensitive = if arg_case_insensitive {
            false
        } else {
            !env_case_insensitive
        };
        Ok(Config { query, filename, case_sensitive })
    }
}

} // verus!
