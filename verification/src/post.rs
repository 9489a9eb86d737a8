//! The document: a text buffer owned together with its current lifecycle
//! stage. Every outward-facing query and mutation delegates its decision to
//! the stage, and every transition replaces the stage in one step.

use vstd::prelude::*;
use vstd::string::StringExecFns;
use crate::state::State;

verus! {

/// Abstract value of a [`Post`]: its lifecycle stage together with the full
/// stored text, visible or not.
#[verifier::ext_equal]
pub ghost struct PostView {
    pub state: State,
    pub text: Seq<char>,
}

impl PostView {
    /// A freshly created document: an empty draft.
    pub open spec fn init() -> PostView {
        PostView { state: State::Draft, text: Seq::empty() }
    }

    /// Appending text extends the buffer only while the stage accepts edits;
    /// otherwise the document is left untouched.
    pub open spec fn add_text(self, text: Seq<char>) -> PostView {
        if self.state.spec_editable() {
            PostView { state: self.state, text: self.text + text }
        } else {
            self
        }
    }

    /// What a reader sees: the stage's visible part of the stored text.
    pub open spec fn content(self) -> Seq<char> {
        self.state.spec_visible(self.text)
    }

    /// The document after a review request: the stage moves along the
    /// transition table, the buffer is kept.
    pub open spec fn request_review(self) -> PostView {
        PostView { state: self.state.spec_request_review(), text: self.text }
    }

    /// The document after a rejection: the stage moves along the transition
    /// table, the buffer is kept.
    pub open spec fn reject(self) -> PostView {
        PostView { state: self.state.spec_reject(), text: self.text }
    }

    /// The document after an approval: the stage moves along the transition
    /// table, the buffer is kept.
    pub open spec fn approve(self) -> PostView {
        PostView { state: self.state.spec_approve(), text: self.text }
    }
}

/// A piece of text moving through the editorial workflow. Created as an empty
/// draft; edits and visibility are gated by the current stage, and the three
/// review operations are total, acting as silent no-ops where the transition
/// table says so.
pub struct Post {
    state: State,
    content: String,
}

impl View for Post {
    type V = PostView;

    closed spec fn view(&self) -> PostView {
        PostView { state: self.state, text: self.content@ }
    }
}

impl Post {
    /// Creates a document in draft stage with an empty buffer.
    pub fn new() -> (post: Post)
        ensures
            post@ == PostView::init(),
    {
        Post { state: State::Draft, content: String::new() }
    }

    /// Returns the stage's view over the stored text: everything once
    /// published, nothing before.
    pub fn content(&self) -> (r: &str)
        ensures
            r@ == self@.content(),
    {
        self.state.visible_content(self.content.as_str())
    }

    /// Appends `text` to the buffer if the current stage accepts edits;
    /// otherwise the call is silently ignored.
    pub fn add_text(&mut self, text: &str)
        ensures
            final(self)@ == old(self)@.add_text(text@),
    {
        if self.state.editable() {
            self.content.append(text);
        }
    }

    /// Replaces the current stage with its transition on a review request.
    pub fn request_review(&mut self)
        ensures
            final(self)@ == old(self)@.request_review(),
    {
        self.state = self.state.request_review();
    }

    /// Replaces the current stage with its transition on a rejection.
    pub fn reject(&mut self)
        ensures
            final(self)@ == old(self)@.reject(),
    {
        self.state = self.state.reject();
    }

    /// Replaces the current stage with its transition on an approval.
    pub fn approve(&mut self)
        ensures
            final(self)@ == old(self)@.approve(),
    {
        self.state = self.state.approve();
    }
}

} // verus!
