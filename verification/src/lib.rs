//! A document with an editorial workflow: text moves through draft,
//! pending-review, and published stages. Each stage decides whether edits are
//! accepted and how much of the stored text is visible; every transition
//! request is total, with disallowed combinations absorbed as silent no-ops.

pub mod laws;
pub mod post;
pub mod state;

pub use post::Post;
pub use post::PostView;
pub use state::State;
