use bsky_video_dl::url::{classify, names_did, parse_url, ActorRef, PostReference, ValidationError};

fn handle(actor: &str, key: &str) -> PostReference {
    PostReference { actor: ActorRef::Handle(actor.to_string()), resource_key: key.to_string() }
}

fn did(actor: &str, key: &str) -> PostReference {
    PostReference { actor: ActorRef::Did(actor.to_string()), resource_key: key.to_string() }
}

#[test]
fn address_with_handle() {
    assert_eq!(
        parse_url("https://bsky.app/profile/alice.bsky.social/post/abc123"),
        Ok(handle("alice.bsky.social", "abc123"))
    );
}

#[test]
fn address_with_did() {
    assert_eq!(
        parse_url("https://bsky.app/profile/did:plc:xyz/post/abc123"),
        Ok(did("did:plc:xyz", "abc123"))
    );
}

#[test]
fn address_with_http_scheme() {
    assert_eq!(parse_url("http://host/profile/bob/post/1"), Ok(handle("bob", "1")));
}

#[test]
fn address_is_trimmed_first() {
    assert_eq!(
        parse_url("  \thttps://bsky.app/profile/alice.test/post/3k \r\n"),
        Ok(handle("alice.test", "3k"))
    );
}

#[test]
fn address_may_go_on_after_the_key() {
    assert_eq!(
        parse_url("https://bsky.app/profile/alice.test/post/3k/liked-by"),
        Ok(handle("alice.test", "3k"))
    );
    assert_eq!(parse_url("https://bsky.app/profile/alice.test/post/3k/"), Ok(handle("alice.test", "3k")));
}

#[test]
fn address_may_have_segments_before_profile() {
    assert_eq!(parse_url("https://h/x/y/profile/a/z/post/k"), Ok(handle("a", "k")));
}

#[test]
fn first_occurrence_of_each_segment_counts() {
    assert_eq!(parse_url("https://h/profile/a/post/k/profile/b/post/m"), Ok(handle("a", "k")));
    assert_eq!(parse_url("https://h/profile/profile/post/post"), Ok(handle("profile", "post")));
    assert_eq!(parse_url("https://h/profile/post/k"), Ok(handle("post", "k")));
}

#[test]
fn key_with_non_ascii_characters() {
    assert_eq!(parse_url("https://h/profile/é.example/post/日本"), Ok(handle("é.example", "日本")));
}

#[test]
fn empty_address() {
    assert_eq!(parse_url(""), Err(ValidationError::Empty));
    assert_eq!(parse_url("   \n\t"), Err(ValidationError::Empty));
}

#[test]
fn address_without_scheme() {
    assert_eq!(parse_url("bsky.app/profile/alice/post/1"), Err(ValidationError::MissingScheme));
    assert_eq!(parse_url("ftp://bsky.app/profile/alice/post/1"), Err(ValidationError::MissingScheme));
    assert_eq!(parse_url("https:/bsky.app/profile/alice/post/1"), Err(ValidationError::MissingScheme));
    assert_eq!(parse_url("HTTPS://bsky.app/profile/alice/post/1"), Err(ValidationError::MissingScheme));
}

#[test]
fn address_without_profile() {
    assert_eq!(parse_url("https://bsky.app/alice/post/1"), Err(ValidationError::MissingSegments));
    assert_eq!(parse_url("https://bsky.app/profiles/alice/post/1"), Err(ValidationError::MissingSegments));
}

#[test]
fn address_without_post() {
    assert_eq!(parse_url("https://bsky.app/profile/alice"), Err(ValidationError::MissingSegments));
    assert_eq!(parse_url("https://bsky.app/profile/alice/posts/1"), Err(ValidationError::MissingSegments));
    assert_eq!(parse_url("https://bsky.app/"), Err(ValidationError::MissingSegments));
}

#[test]
fn address_that_ends_with_profile_or_post() {
    assert_eq!(parse_url("https://bsky.app/profile/alice/post"), Err(ValidationError::MissingSegments));
    assert_eq!(parse_url("https://bsky.app/post/1/profile"), Err(ValidationError::MissingSegments));
    assert_eq!(parse_url("https://bsky.app/post/1/profile "), Err(ValidationError::MissingSegments));
}

#[test]
fn post_before_profile() {
    assert_eq!(parse_url("https://bsky.app/post/1/profile/alice"), Err(ValidationError::OutOfOrder));
    assert_eq!(parse_url("https://bsky.app/post/1/profile/alice/post/2"), Err(ValidationError::OutOfOrder));
}

#[test]
fn empty_actor() {
    assert_eq!(parse_url("https://bsky.app/profile//post/1"), Err(ValidationError::EmptyActor));
}

#[test]
fn empty_key() {
    assert_eq!(parse_url("https://bsky.app/profile/alice/post/"), Err(ValidationError::EmptyResourceKey));
    assert_eq!(parse_url("https://bsky.app/profile/alice/post//x"), Err(ValidationError::EmptyResourceKey));
}

#[test]
fn actor_is_a_did_if_it_begins_with_did_colon() {
    assert!(names_did("did:plc:xyz"));
    assert!(names_did("did:"));
    assert!(!names_did("did"));
    assert!(!names_did("DID:plc:xyz"));
    assert!(!names_did("alice.did:x"));
    assert_eq!(classify("did:web:example.com".to_string()), ActorRef::Did("did:web:example.com".to_string()));
    assert_eq!(classify("alice.example".to_string()), ActorRef::Handle("alice.example".to_string()));
}
