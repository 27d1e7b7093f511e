use bsky_video_dl::json::{read_text, Reading};

#[test]
fn reads_a_string_member() {
    assert_eq!(
        read_text(br#"{"did":"did:plc:abc","handle":"alice.test"}"#, "did"),
        Reading::Text("did:plc:abc".to_string())
    );
    assert_eq!(
        read_text(br#"{"did":"did:plc:abc","handle":"alice.test"}"#, "handle"),
        Reading::Text("alice.test".to_string())
    );
}

#[test]
fn reads_escapes_as_the_characters_they_stand_for() {
    assert_eq!(
        read_text(r#"{"message":"a\"bé\n\u0041"}"#.as_bytes(), "message"),
        Reading::Text("a\"b\u{e9}\nA".to_string())
    );
}

#[test]
fn a_member_that_is_missing_is_absent() {
    assert_eq!(read_text(br#"{"handle":"alice.test"}"#, "did"), Reading::Absent);
    assert_eq!(read_text(b"{}", "did"), Reading::Absent);
}

#[test]
fn a_member_that_is_no_string_is_absent() {
    assert_eq!(read_text(br#"{"did":12}"#, "did"), Reading::Absent);
    assert_eq!(read_text(br#"{"did":null}"#, "did"), Reading::Absent);
    assert_eq!(read_text(br#"{"did":["did:plc:abc"]}"#, "did"), Reading::Absent);
    assert_eq!(read_text(br#"{"did":{"did":"x"}}"#, "did"), Reading::Absent);
}

#[test]
fn a_document_that_is_no_object_has_no_members() {
    assert_eq!(read_text(br#"["did"]"#, "did"), Reading::Absent);
    assert_eq!(read_text(br#""did""#, "did"), Reading::Absent);
    assert_eq!(read_text(b"null", "did"), Reading::Absent);
    assert_eq!(read_text(b"17", "did"), Reading::Absent);
}

#[test]
fn bytes_that_are_no_json_text_are_undecodable() {
    assert_eq!(read_text(b"", "did"), Reading::Undecodable);
    assert_eq!(read_text(b"<html>", "did"), Reading::Undecodable);
    assert_eq!(read_text(br#"{"did":"x""#, "did"), Reading::Undecodable);
    assert_eq!(read_text(br#"{"did":"x"} trailing"#, "did"), Reading::Undecodable);
    assert_eq!(read_text(b"{\"did\":\"\xff\"}", "did"), Reading::Undecodable);
}

#[test]
fn the_last_of_several_members_of_one_key_counts() {
    assert_eq!(read_text(br#"{"did":"a","did":"b"}"#, "did"), Reading::Text("b".to_string()));
}
