//! The blog post state machine again, with each state as its own type, so
//! that an unpublished post has no way to show its content at all. Approval
//! is needed twice: each `approve` moves one step closer to a published
//! [`Post`].

use vstd::prelude::*;
use vstd::string::StringExecFns;

verus! {

/// A published post; the only state whose content can be read.
pub struct Post {
    content: String,
}

/// A post still being written; the only state that accepts text.
pub struct DraftPost {
    content: String,
}

/// A post waiting for its first approval.
pub struct PendingReviewOnePost {
    content: String,
}

/// A post waiting for its second approval.
pub struct PendingReviewTwoPost {
    content: String,
}

impl Post {
    /// The text of the post.
    pub closed spec fn spec_content(&self) -> Seq<char> {
        self.content@
    }

    /// Every post starts as an empty draft.
    pub fn new() -> (r: DraftPost)
        ensures
            r.spec_content() == Seq::<char>::empty(),
    {
        DraftPost { content: String::new() }
    }

    pub fn content(&self) -> (r: &str)
        ensures
            r@ == self.spec_content(),
    {
        self.content.as_str()
    }
}

impl DraftPost {
    /// The text gathered so far.
    pub closed spec fn spec_content(&self) -> Seq<char> {
        self.content@
    }

    /// Appends text to the draft.
    pub fn add_text(&mut self, text: &str)
        ensures
            final(self).spec_content() == old(self).spec_content() + text@,
    {
        self.content.append(text);
    }

    /// Hands the draft to review, keeping its text.
    pub fn request_review(self) -> (r: PendingReviewOnePost)
        ensures
            r.spec_content() == self.spec_content(),
    {
        PendingReviewOnePost { content: self.content }
    }
}

impl PendingReviewOnePost {
    /// The text under review.
    pub closed spec fn spec_content(&self) -> Seq<char> {
        self.content@
    }

    /// The first approval; a second one is still needed.
    pub fn approve(self) -> (r: PendingReviewTwoPost)
        ensures
            r.spec_content() == self.spec_content(),
    {
        PendingReviewTwoPost { content: self.content }
    }

    /// Sends the post back to draft, keeping its text.
    pub fn reject(self) -> (r: DraftPost)
        ensures
            r.spec_content() == self.spec_content(),
    {
        DraftPost { content: self.content }
    }
}

impl PendingReviewTwoPost {
    /// The text under review.
    pub closed spec fn spec_content(&self) -> Seq<char> {
        self.content@
    }

    /// The second approval publishes the post.
    pub fn approve(self) -> (r: Post)
        ensures
            r.spec_content() == self.spec_content(),
    {
        Post { content: self.content }
    }

    /// Sends the post back to draft, keeping its text.
    pub fn reject(self) -> (r: DraftPost)
        ensures
            r.spec_content() == self.spec_content(),
    {
        DraftPost { content: self.content }
    }
}

} // verus!
