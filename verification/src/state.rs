//! The state policy: the closed set of lifecycle stages and, for each stage,
//! the editability rule, the visibility rule, and the transition taken on each
//! of the three review events.

use vstd::prelude::*;

verus! {

/// A document's lifecycle stage. `PendingReview` carries the number of
/// further approvals required beyond the one that brings the counter to zero:
/// approving at zero publishes, approving above zero only decrements.
#[derive(Clone, Copy)]
pub enum State {
    Draft,
    PendingReview { remaining: u8 },
    Published,
}

impl State {
    /// Only a draft accepts edits.
    pub open spec fn spec_editable(self) -> bool {
        self is Draft
    }

    /// A published document shows the full stored text; every other stage
    /// shows nothing.
    pub open spec fn spec_visible(self, full_text: Seq<char>) -> Seq<char> {
        if self is Published {
            full_text
        } else {
            Seq::empty()
        }
    }

    /// Transition on a review request: a draft becomes pending with one
    /// approval remaining; every other stage is left unchanged.
    pub open spec fn spec_request_review(self) -> State {
        match self {
            State::Draft => State::PendingReview { remaining: 1 },
            _ => self,
        }
    }

    /// Transition on a rejection: a pending document returns to draft,
    /// discarding its approval progress; every other stage is left unchanged.
    pub open spec fn spec_reject(self) -> State {
        match self {
            State::PendingReview { .. } => State::Draft,
            _ => self,
        }
    }

    /// Transition on an approval: a pending document publishes once its
    /// counter has already reached zero, and otherwise stays pending with the
    /// counter decremented; every other stage is left unchanged.
    pub open spec fn spec_approve(self) -> State {
        match self {
            State::PendingReview { remaining } => if remaining == 0 {
                State::Published
            } else {
                State::PendingReview { remaining: (remaining - 1) as u8 }
            },
            _ => self,
        }
    }

    /// Whether text may be appended while in this stage.
    pub fn editable(&self) -> (r: bool)
        ensures
            r == self.spec_editable(),
    {
        match self {
            State::Draft => true,
            _ => false,
        }
    }

    /// The part of the stored text that this stage exposes to readers.
    pub fn visible_content<'a>(&self, full_text: &'a str) -> (r: &'a str)
        ensures
            r@ == self.spec_visible(full_text@),
    {
        match self {
            State::Published => full_text,
            _ => {
                proof {
                    reveal_strlit("");
                }
                ""
            },
        }
    }

    /// Consumes this stage and yields the stage after a review request.
    pub fn request_review(self) -> (r: State)
        ensures
            r == self.spec_request_review(),
    {
        match self {
            State::Draft => State::PendingReview { remaining: 1 },
            _ => self,
        }
    }

    /// Consumes this stage and yields the stage after a rejection.
    pub fn reject(self) -> (r: State)
        ensures
            r == self.spec_reject(),
    {
        match self {
            State::PendingReview { .. } => State::Draft,
            _ => self,
        }
    }

    /// Consumes this stage and yields the stage after an approval.
    pub fn approve(self) -> (r: State)
        ensures
            r == self.spec_approve(),
    {
        match self {
            State::PendingReview { remaining } => if remaining == 0 {
                State::Published
            } else {
                State::PendingReview { remaining: remaining - 1 }
            },
            _ => self,
        }
    }
}

} // verus!
