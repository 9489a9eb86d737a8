use state_pattern::Post;

#[test]
fn test_post_draft_state() {
    let mut post = Post::new();
    post.add_text("hola que tal");
    assert_eq!("", post.content());
}

#[test]
fn test_post_pendingreview_state() {
    let mut post = Post::new();
    post.add_text("hola que tal");
    post.request_review();
    assert_eq!("", post.content());
}

#[test]
fn test_post_published_state() {
    let mut post = Post::new();
    post.add_text("hola que tal las cosas");
    post.request_review();
    post.approve();
    post.approve();
    assert_eq!("hola que tal las cosas", post.content());
}

#[test]
fn test_no_changeback_to_pendingreview_from_published() {
    let mut post = Post::new();
    post.add_text("hola que tal por alla");
    post.request_review();
    post.approve();
    post.approve();
    post.request_review();
    post.reject();
    assert_eq!("hola que tal por alla", post.content());
}

#[test]
fn test_post_rejected_after_reviewed() {
    let mut post = Post::new();
    post.add_text("nuevo post hola que tal por alla");
    post.request_review();
    post.reject();
    post.approve();
    post.approve();
    assert_eq!("", post.content());
}

#[test]
fn test_can_only_edit_draft() {
    let mut post = Post::new();
    post.add_text("hola que");
    post.request_review();
    post.add_text(" tal");
    post.reject();
    post.add_text(", como va todo?");
    post.request_review();
    post.add_text("asdf");
    post.approve();
    post.approve();
    post.add_text("las cosas");
    assert_eq!("hola que, como va todo?", post.content());
}

#[test]
fn test_new_post_is_empty_draft() {
    let post = Post::new();
    assert_eq!("", post.content());
}

#[test]
fn test_single_approve_does_not_publish() {
    let mut post = Post::new();
    post.add_text("one approval only");
    post.request_review();
    post.approve();
    assert_eq!("", post.content());
}

#[test]
fn test_reject_then_edit_and_publish_keeps_both_parts() {
    let mut post = Post::new();
    post.add_text("first");
    post.request_review();
    post.reject();
    post.add_text(" second");
    post.request_review();
    post.approve();
    post.approve();
    assert_eq!("first second", post.content());
}

#[test]
fn test_reject_on_fresh_draft_is_noop() {
    let mut post = Post::new();
    post.reject();
    post.add_text("still editable");
    assert_eq!("", post.content());
    post.request_review();
    post.approve();
    post.approve();
    assert_eq!("still editable", post.content());
}

#[test]
fn test_approve_on_fresh_draft_is_noop() {
    let mut post = Post::new();
    post.approve();
    post.approve();
    post.add_text("approvals before review count for nothing");
    assert_eq!("", post.content());
    post.request_review();
    post.approve();
    post.approve();
    assert_eq!("approvals before review count for nothing", post.content());
}

#[test]
fn test_repeated_request_review_keeps_counter() {
    let mut post = Post::new();
    post.add_text("texto");
    post.request_review();
    post.request_review();
    post.approve();
    post.request_review();
    assert_eq!("", post.content());
    post.approve();
    assert_eq!("texto", post.content());
}

#[test]
fn test_add_text_ignored_when_pending() {
    let mut post = Post::new();
    post.add_text("kept");
    post.request_review();
    post.add_text(" dropped");
    post.approve();
    post.approve();
    assert_eq!("kept", post.content());
}

#[test]
fn test_add_text_ignored_when_published() {
    let mut post = Post::new();
    post.add_text("kept");
    post.request_review();
    post.approve();
    post.approve();
    post.add_text(" dropped");
    assert_eq!("kept", post.content());
}

#[test]
fn test_empty_appends_publish_empty() {
    let mut post = Post::new();
    post.add_text("");
    post.add_text("");
    post.request_review();
    post.approve();
    post.approve();
    assert_eq!("", post.content());
}

#[test]
fn test_reject_discards_approval_progress() {
    let mut post = Post::new();
    post.add_text("slow review");
    post.request_review();
    post.approve();
    post.reject();
    post.request_review();
    post.approve();
    assert_eq!("", post.content());
    post.approve();
    assert_eq!("slow review", post.content());
}
