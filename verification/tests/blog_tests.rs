use workbook::blog::Post;

#[test]
fn test_states() {
    let mut post = Post::new();

    post.add_text("Hello, here is some text. ");
    assert_eq!("", post.content());

    post.request_review();
    post.add_text("Attempting to add text in Pending Review State. ");
    assert_eq!("", post.content());

    post.reject();
    post.add_text("Adding text in Draft State.");
    assert_eq!("", post.content());

    post.request_review();
    post.approve();
    assert_eq!("", post.content());

    post.approve();
    post.add_text("Attempting to add text in Published State.");
    assert_eq!(
        "Hello, here is some text. Adding text in Draft State.",
        post.content()
    );
}

#[test]
fn request_review_resets_a_first_approval() {
    let mut post = Post::new();
    post.add_text("draft text");
    post.request_review();
    post.approve();
    // Asking for review again drops the approval gathered so far.
    post.request_review();
    post.approve();
    assert_eq!("", post.content());
    post.approve();
    assert_eq!("draft text", post.content());
}

#[test]
fn typestate_post_needs_two_approvals() {
    let mut post = workbook::rusty_blog::Post::new();
    post.add_text("I ate a salad for lunch today");
    let post = post.request_review();
    let post = post.approve();
    let post = post.approve();
    assert_eq!("I ate a salad for lunch today", post.content());
}

#[test]
fn typestate_reject_returns_to_draft() {
    let mut post = workbook::rusty_blog::Post::new();
    post.add_text("first");
    let pending = post.request_review();
    let mut draft = pending.reject();
    draft.add_text(" second");
    let published = draft.request_review().approve().approve();
    assert_eq!("first second", published.content());
}
