//! A blog post that moves between draft, pending-review and published
//! states. Text can only be added while the post is a draft, approval is
//! needed twice, and the content is only shown once the post is published.

use vstd::prelude::*;
use vstd::string::StringExecFns;

verus! {

/// The review state of a post. A pending post remembers whether it has
/// already collected its first approval.
#[derive(Debug, Clone, Copy, PartialEq, Eq, Structural)]
pub enum PostState {
    Draft,
    PendingReview { approved: bool },
    Published,
}

impl PostState {
    /// The text that may be added in this state: all of it as a draft,
    /// none of it otherwise.
    fn add_text<'a>(&self, text: &'a str) -> (r: &'a str)
        ensures
            r@ == if self is Draft {
                text@
            } else {
                Seq::<char>::empty()
            },
    {
        proof {
            reveal_strlit("");
        }
        match self {
            PostState::Draft => text,
            _ => "",
        }
    }

    /// Asking for a review sends a draft, and also a post already under
    /// review, into an unapproved pending state; a published post stays
    /// published.
    fn request_review(self) -> (r: PostState)
        ensures
            r == match self {
                PostState::Draft => PostState::PendingReview { approved: false },
                PostState::PendingReview { .. } => PostState::PendingReview { approved: false },
                PostState::Published => PostState::Published,
            },
    {
        match self {
            PostState::Draft => PostState::PendingReview { approved: false },
            PostState::PendingReview { .. } => PostState::PendingReview { approved: false },
            PostState::Published => PostState::Published,
        }
    }

    /// The first approval marks the pending post approved, the second one
    /// publishes it; drafts and published posts are unchanged.
    fn approve(self) -> (r: PostState)
        ensures
            r == match self {
                PostState::Draft => PostState::Draft,
                PostState::PendingReview { approved } => if approved {
                    PostState::Published
                } else {
                    PostState::PendingReview { approved: true }
                },
                PostState::Published => PostState::Published,
            },
    {
        match self {
            PostState::Draft => PostState::Draft,
            PostState::PendingReview { approved } => {
                if approved {
                    PostState::Published
                } else {
                    PostState::PendingReview { approved: true }
                }
            },
            PostState::Published => PostState::Published,
        }
    }

    /// Rejection sends a pending post back to draft; drafts and published
    /// posts are unchanged.
    fn reject(self) -> (r: PostState)
        ensures
            r == match self {
                PostState::Draft => PostState::Draft,
                PostState::PendingReview { .. } => PostState::Draft,
                PostState::Published => PostState::Published,
            },
    {
        match self {
            PostState::Draft => PostState::Draft,
            PostState::PendingReview { .. } => PostState::Draft,
            PostState::Published => PostState::Published,
        }
    }
}

/// A blog post with its review state and the text gathered so far.
pub struct Post {
    state: PostState,
    content: String,
}

impl Post {
    /// The current review state.
    pub closed spec fn spec_state(&self) -> PostState {
        self.state
    }

    /// The text gathered so far, shown or not.
    pub closed spec fn spec_content(&self) -> Seq<char> {
        self.content@
    }

    /// A new post starts as an empty draft.
    pub fn new() -> (r: Post)
        ensures
            r.spec_state() == PostState::Draft,
            r.spec_content() == Seq::<char>::empty(),
    {
        Post { state: PostState::Draft, content: String::new() }
    }

    /// Appends the text to the post while it is a draft; in any other
    /// state the text is dropped.
    pub fn add_text(&mut self, text: &str)
        ensures
            final(self).spec_state() == old(self).spec_state(),
            final(self).spec_content() == if old(self).spec_state() is Draft {
                old(self).spec_content() + text@
            } else {
                old(self).spec_content()
            },
    {
        let added = self.state.add_text(text);
        self.content.append(added);
    }

    /// The text of a published post; anything not yet published shows
    /// nothing.
    pub fn content(&self) -> (r: &str)
        ensures
            r@ == if self.spec_state() is Published {
                self.spec_content()
            } else {
                Seq::<char>::empty()
            },
    {
        proof {
            reveal_strlit("");
        }
        match self.state {
            PostState::Published => self.content.as_str(),
            _ => "",
        }
    }

    /// Sends the post into review; a published post is unchanged.
    pub fn request_review(&mut self)
        ensures
            final(self).spec_content() == old(self).spec_content(),
            final(self).spec_state() == match old(self).spec_state() {
                PostState::Draft => PostState::PendingReview { approved: false },
                PostState::PendingReview { .. } => PostState::PendingReview { approved: false },
                PostState::Published => PostState::Published,
            },
    {
        self.state = self.state.request_review();
    }

    /// Sends a pending post back to draft; drafts and published posts are
    /// unchanged.
    pub fn reject(&mut self)
        ensures
            final(self).spec_content() == old(self).spec_content(),
            final(self).spec_state() == match old(self).spec_state() {
                PostState::Draft => PostState::Draft,
                PostState::PendingReview { .. } => PostState::Draft,
                PostState::Published => PostState::Published,
            },
    {
        self.state = self.state.reject();
    }

    /// Records one approval; the second approval publishes the post.
    pub fn approve(&mut self)
        ensures
            final(self).spec_content() == old(self).spec_content(),
            final(self).spec_state() == match old(self).spec_state() {
                PostState::Draft => PostState::Draft,
                PostState::PendingReview { approved } => if approved {
                    PostState::Published
                } else {
                    PostState::PendingReview { approved: true }
                },
                PostState::Published => PostState::Published,
            },
    {
        self.state = self.state.approve();
    }
}

} // verus!
