//! A blog post whose review state is its type: each step consumes the post
//! and returns it as the type of the next state, so an illegal step does not
//! compile.
use vstd::prelude::*;
use vstd::string::StringExecFns;

verus! {

/// A post that can still be edited, and sent for review.
pub struct DraftPost {
    content: String,
}

/// A post under review, which can be approved or rejected.
pub struct PendingReviewPost {
    content: String,
}

/// A post approved once, which can be approved again or rejected.
pub struct ApprovedOncePost {
    content: String,
}

/// A published post, whose content can be read.
pub struct Post {
    content: String,
}

impl View for DraftPost {
    type V = Seq<char>;

    closed spec fn view(&self) -> Seq<char> {
        self.content@
    }
}

impl View for PendingReviewPost {
    type V = Seq<char>;

    closed spec fn view(&self) -> Seq<char> {
        self.content@
    }
}

impl View for ApprovedOncePost {
    type V = Seq<char>;

    closed spec fn view(&self) -> Seq<char> {
        self.content@
    }
}

impl View for Post {
    type V = Seq<char>;

    closed spec fn view(&self) -> Seq<char> {
        self.content@
    }
}

impl DraftPost {
    /// Appends `text` to the draft.
    pub fn add_text(&mut self, text: &str)
        ensures
            final(self)@ == old(self)@ + text@,
    {
        self.content.append(text);
    }

    /// Sends the draft for review.
    pub fn request_review(self) -> (r: PendingReviewPost)
        ensures
            r@ == self@,
    {
        PendingReviewPost { content: self.content }
    }
}

impl PendingReviewPost {
    /// Gives the first approval.
    pub fn approve(self) -> (r: ApprovedOncePost)
        ensures
            r@ == self@,
    {
        ApprovedOncePost { content: self.content }
    }

    /// Sends the post back to draft.
    pub fn reject(self) -> (r: DraftPost)
        ensures
            r@ == self@,
    {
        DraftPost { content: self.content }
    }
}

impl ApprovedOncePost {
    /// Gives the second approval, which publishes the post.
    pub fn approve(self) -> (r: Post)
        ensures
            r@ == self@,
    {
        Post { content: self.content }
    }

    /// Sends the post back to draft.
    pub fn reject(self) -> (r: DraftPost)
        ensures
            r@ == self@,
    {
        DraftPost { content: self.content }
    }
}

impl Post {
    /// A new, empty draft.
    pub fn new() -> (r: DraftPost)
        ensures
            r@ == Seq::<char>::empty(),
    {
        DraftPost { content: String::new() }
    }

    /// The text of the published post.
    pub fn content(&self) -> (r: &str)
        ensures
            r@ == self@,
    {
        self.content.as_str()
    }
}

} // verus!
