//! Workflow-wide guarantees, each proved once and for all over the abstract
//! document value [`PostView`] that every `Post` operation is specified
//! against.

use vstd::prelude::*;
use crate::post::PostView;

verus! {

/// Draft invisibility: whatever text is appended to a fresh document, nothing
/// of it is visible while the document is still a draft.
pub proof fn draft_keeps_content_hidden(t: Seq<char>)
    ensures
        PostView::init().add_text(t).content() == Seq::<char>::empty(),
{
}

/// Pending invisibility: after appending text and requesting a review, the
/// visible content is still empty, whatever the text was.
pub proof fn pending_keeps_content_hidden(t: Seq<char>)
    ensures
        PostView::init().add_text(t).request_review().content() == Seq::<char>::empty(),
{
}

/// Two-step approval: from a fresh draft, one review request and exactly two
/// approvals are needed to publish. After the first approval the document is
/// still pending and hidden; after the second it is published and shows the
/// whole text.
pub proof fn two_approvals_publish(t: Seq<char>)
    ensures
        ({
            let once = PostView::init().add_text(t).request_review().approve();
            &&& once.state is PendingReview
            &&& once.content() == Seq::<char>::empty()
            &&& once.approve().state is Published
            &&& once.approve().content() == t
        }),
{
}

/// Rejection returns the document to an editable draft: text appended after
/// the rejection lands in the buffer, and publishing then shows both the text
/// from before the review and the text from after the rejection.
pub proof fn reject_returns_to_editable_draft(t1: Seq<char>, t2: Seq<char>)
    ensures
        ({
            let back = PostView::init().add_text(t1).request_review().reject();
            &&& back.state is Draft
            &&& back.state.spec_editable()
            &&& back.add_text(t2).request_review().approve().approve().content() == t1 + t2
        }),
{
}

/// Published is sticky: once a document is published, a review request
/// followed by a rejection changes nothing, and the full text stays visible.
pub proof fn published_is_sticky(post: PostView)
    requires
        post.state is Published,
    ensures
        post.request_review().reject() == post,
        post.request_review().reject().content() == post.text,
{
}

/// No editing outside draft: appending text to a pending or published
/// document leaves it exactly as it was.
pub proof fn no_edits_outside_draft(post: PostView, t: Seq<char>)
    requires
        !(post.state is Draft),
    ensures
        post.add_text(t) == post,
{
}

/// No-op transitions are idempotent: rejecting or approving a fresh draft
/// leaves it a fresh draft, and a repeated review request on a pending
/// document neither advances nor resets its approval counter.
pub proof fn idle_requests_change_nothing(post: PostView)
    requires
        post.state is PendingReview,
    ensures
        PostView::init().reject() == PostView::init(),
        PostView::init().approve() == PostView::init(),
        post.request_review() == post,
{
}

} // verus!
