//! A summary trait with a default method built on the author line, and
//! the two news types that implement it.

use vstd::prelude::*;
use vstd::string::StringExecFns;
use core::fmt::Display;

verus! {

/// Something that can introduce itself by its author and a stock phrase.
pub trait Summary {
    /// The author line the implementor reports.
    spec fn spec_author(&self) -> Seq<char>;

    /// The author line as text.
    fn summarize_author(&self) -> (r: String)
        ensures
            r@ == self.spec_author(),
    ;

    /// The stock summary: `(Read more from <author>...`.
    fn summarize(&self) -> (r: String)
        ensures
            r@ == "(Read more from "@ + self.spec_author() + "..."@,
    {
        let mut s = String::from_str("(Read more from ");
        let author = self.summarize_author();
        s.append(author.as_str());
        s.append("...");
        proof {
            assert(s@ =~= "(Read more from "@ + self.spec_author() + "..."@);
        }
        s
    }
}

/// A news article with its headline and body.
pub struct NewsArticle {
    pub headline: String,
    pub location: String,
    pub author: String,
    pub content: String,
}

impl Summary for NewsArticle {
    /// An article is summarized under its author's plain name.
    open spec fn spec_author(&self) -> Seq<char> {
        self.author@
    }

    fn summarize_author(&self) -> (r: String)
        ensures
            r@ == self.spec_author(),
    {
        self.author.clone()
    }
}

/// A tweet with its sender and flags.
pub struct Tweet {
    pub username: String,
    pub content: String,
    pub reply: bool,
    pub retweet: bool,
}

impl Summary for Tweet {
    /// A tweet is summarized under its handle: an at sign and the user
    /// name.
    open spec fn spec_author(&self) -> Seq<char> {
        "@"@ + self.username@
    }

    fn summarize_author(&self) -> (r: String)
        ensures
            r@ == self.spec_author(),
    {
        let mut s = String::from_str("@");
        s.append(self.username.as_str());
        s
    }
}

/// Takes two summarizable items; the exercise leaves the body empty.
pub fn notify_2_params(item1: &impl Summary, item2: &impl Summary) {
}

/// The same with explicit trait-bound syntax.
pub fn notify_2_params_v2<T: Summary>(item1: &T, item2: &T) {
}

/// Takes an item that is both summarizable and displayable; the exercise
/// leaves the body empty.
pub fn notify_mult(item1: &(impl Summary + Display)) {
}

/// The same with explicit trait-bound syntax.
pub fn notify_mult_v2<T: Summary + Display>(item1: &T) {
}

/// Always zero, whatever its displayable and debuggable arguments are.
pub fn some_function<T: Display + Clone, U: Clone + core::fmt::Debug>(t: &T, u: &U) -> (r: i32)
    ensures
        r == 0,
{
    0
}

/// The same with a `where` clause.
pub fn some_function_v2<T, U>(t: &T, u: &U) -> (r: i32) where
    T: Display + Clone,
    U: Clone + core::fmt::Debug,

    ensures
        r == 0,
{
    0
}

/// Some summarizable value; which type it is stays hidden from the
/// caller, who only learns the author line.
pub fn returns_summarizable() -> (r: impl Summary)
    ensures
        r.spec_author() == "@"@ + "horse_ebooks"@,
{
    Tweet {
        username: String::from_str("horse_ebooks"),
        content: String::from_str("of course, as you probably already know, people"),
        reply: false,
        retweet: false,
    }
}

} // verus!
