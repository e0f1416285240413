//! A blog post that moves through review as a state machine held in a value.
//!
//! A review must be requested before a post can be approved, two approvals
//! publish it, a rejection before publication sends it back to the draft
//! state, text can be added only while the post is a draft, and the content
//! is shown only once the post is published.
use vstd::prelude::*;
use vstd::string::StringExecFns;

verus! {

/// Where a post stands in its review.
#[derive(Clone, Copy, Debug, PartialEq, Eq, Structural)]
pub enum State {
    Draft,
    PendingReview,
    ApprovedOnce,
    Published,
}

impl State {
    pub open spec fn after_request_review(self) -> State {
        match self {
            State::Draft => State::PendingReview,
            other => other,
        }
    }

    pub open spec fn after_approve(self) -> State {
        match self {
            State::PendingReview => State::ApprovedOnce,
            State::ApprovedOnce => State::Published,
            other => other,
        }
    }

    pub open spec fn after_reject(self) -> State {
        match self {
            State::PendingReview | State::ApprovedOnce => State::Draft,
            other => other,
        }
    }

    /// The state after a review is asked for: a draft goes to review, any
    /// other state stays.
    pub fn request_review(self) -> (r: State)
        ensures
            r == self.after_request_review(),
    {
        match self {
            State::Draft => State::PendingReview,
            other => other,
        }
    }

    /// The state after an approval: review leads to one approval, one
    /// approval to publication, any other state stays.
    pub fn approve(self) -> (r: State)
        ensures
            r == self.after_approve(),
    {
        match self {
            State::PendingReview => State::ApprovedOnce,
            State::ApprovedOnce => State::Published,
            other => other,
        }
    }

    /// The state after a rejection: a post under review, approved once or
    /// not, goes back to draft; any other state stays.
    pub fn reject(self) -> (r: State)
        ensures
            r == self.after_reject(),
    {
        match self {
            State::PendingReview | State::ApprovedOnce => State::Draft,
            other => other,
        }
    }

    /// The part of `post` that a post in this state shows: all of its text
    /// once published, none before.
    pub fn content<'a>(&self, post: &'a Post) -> (r: &'a str)
        ensures
            r@ == (if *self == State::Published {
                post.content@
            } else {
                Seq::<char>::empty()
            }),
    {
        match self {
            State::Published => post.content.as_str(),
            _ => {
                proof {
                    reveal_strlit("");
                }
                ""
            },
        }
    }
}

/// A blog post, its text, and whether its text may still change.
pub struct Post {
    pub state: State,
    pub content: String,
}

impl Post {
    /// An empty draft.
    pub fn new() -> (r: Post)
        ensures
            r.state == State::Draft,
            r.content@ == Seq::<char>::empty(),
    {
        Post { state: Self::create_draft(), content: String::new() }
    }

    /// Whether text can be added: only while the post is a draft.
    pub fn is_editable(&self) -> (r: bool)
        ensures
            r == (self.state == State::Draft),
    {
        match self.state {
            State::Draft => true,
            _ => false,
        }
    }

    /// Appends `text` to the post while it is a draft; does nothing otherwise.
    pub fn add_text(&mut self, text: &str)
        ensures
            final(self).content@ == (if old(self).state == State::Draft {
                old(self).content@ + text@
            } else {
                old(self).content@
            }),
            final(self).state == old(self).state,
    {
        if self.is_editable() {
            self.content.append(text);
        }
    }

    /// The text of a published post, or the empty string before that.
    pub fn content(&self) -> (r: &str)
        ensures
            r@ == (if self.state == State::Published {
                self.content@
            } else {
                Seq::<char>::empty()
            }),
    {
        self.state.content(self)
    }

    /// Asks for a review of a draft; the text can then no longer be changed.
    pub fn request_review(&mut self)
        ensures
            final(self).state == old(self).state.after_request_review(),
            final(self).content@ == old(self).content@,
    {
        self.state = self.state.request_review();
    }

    /// Approves a post under review.
    pub fn approve(&mut self)
        ensures
            final(self).state == old(self).state.after_approve(),
            final(self).content@ == old(self).content@,
    {
        self.state = self.state.approve();
    }

    /// Rejects a post under review, which goes back to draft and can be
    /// changed again; a draft or a published post stays as it is.
    pub fn reject(&mut self)
        ensures
            final(self).state == old(self).state.after_reject(),
            final(self).content@ == old(self).content@,
    {
        self.state = self.state.reject();
    }

    fn create_draft() -> (r: State)
        ensures
            r == State::Draft,
    {
        State::Draft
    }
}

} // verus!
