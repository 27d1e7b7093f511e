use bsky_video_dl::identity::{
    did_from_lookup, document_url, host_from_document, host_from_listing, is_success,
    lookup_answer, lookup_url, pds_endpoint, read_services, rejection, Endpoints, Listing,
    ResolutionError, ServiceEntry,
};
use bsky_video_dl::json::Reading;
use bsky_video_dl::types::ResolveResponse;

fn entry(id: Option<&str>, endpoint: Option<&str>) -> ServiceEntry {
    ServiceEntry { id: id.map(|s| s.to_string()), endpoint: endpoint.map(|s| s.to_string()) }
}

fn alice() -> String {
    "alice.test".to_string()
}

fn resolved(did: &str) -> Result<ResolveResponse, ResolutionError> {
    Ok(ResolveResponse { did: did.to_string() })
}

#[test]
fn standard_endpoints_are_those_of_the_public_network() {
    let e = Endpoints::standard();
    assert_eq!(e.handle_lookup, "https://public.api.bsky.app/xrpc/app.bsky.actor.getProfile?actor=");
    assert_eq!(e.plc_directory, "https://plc.directory/");
    assert_eq!(e.repository_host, None);
}

#[test]
fn success_is_from_200_to_299() {
    assert!(!is_success(0));
    assert!(!is_success(199));
    assert!(is_success(200));
    assert!(is_success(204));
    assert!(is_success(299));
    assert!(!is_success(300));
    assert!(!is_success(404));
    assert!(!is_success(500));
    assert!(!is_success(u16::MAX));
}

#[test]
fn lookup_address_ends_with_the_handle() {
    assert_eq!(
        lookup_url(&Endpoints::standard(), "alice.bsky.social"),
        Ok("https://public.api.bsky.app/xrpc/app.bsky.actor.getProfile?actor=alice.bsky.social".to_string())
    );
}

#[test]
fn lookup_address_has_the_handle_trimmed() {
    assert_eq!(
        lookup_url(&Endpoints::standard(), " alice.test\t"),
        Ok("https://public.api.bsky.app/xrpc/app.bsky.actor.getProfile?actor=alice.test".to_string())
    );
    assert_eq!(
        lookup_url(&Endpoints::standard(), " "),
        Ok("https://public.api.bsky.app/xrpc/app.bsky.actor.getProfile?actor=".to_string())
    );
}

#[test]
fn lookup_address_of_another_service() {
    let e = Endpoints {
        handle_lookup: "https://pds.test/xrpc/com.atproto.identity.resolveHandle?handle=".to_string(),
        plc_directory: "https://plc.test/".to_string(),
        repository_host: Some("https://pds.test".to_string()),
    };
    assert_eq!(
        lookup_url(&e, "bob.test"),
        Ok("https://pds.test/xrpc/com.atproto.identity.resolveHandle?handle=bob.test".to_string())
    );
}

#[test]
fn lookup_of_an_empty_handle() {
    assert_eq!(lookup_url(&Endpoints::standard(), ""), Err(ResolutionError::EmptyHandle));
}

#[test]
fn document_of_a_plc_did() {
    assert_eq!(
        document_url(&Endpoints::standard(), "did:plc:ewvi7nxzyoun6zhxrhs64oiz"),
        Ok("https://plc.directory/did:plc:ewvi7nxzyoun6zhxrhs64oiz".to_string())
    );
}

#[test]
fn document_of_a_web_did() {
    assert_eq!(
        document_url(&Endpoints::standard(), "did:web:example.com"),
        Ok("https://example.com/.well-known/did.json".to_string())
    );
}

#[test]
fn document_of_a_web_did_with_a_path() {
    assert_eq!(
        document_url(&Endpoints::standard(), "did:web:example.com:user:alice"),
        Ok("https://example.com/user/alice/.well-known/did.json".to_string())
    );
    assert_eq!(
        document_url(&Endpoints::standard(), "did:web:"),
        Ok("https:///.well-known/did.json".to_string())
    );
}

#[test]
fn document_of_a_did_of_another_method() {
    let e = Endpoints::standard();
    assert_eq!(document_url(&e, "did:key:z6Mk"), Err(ResolutionError::UnsupportedMethod));
    assert_eq!(document_url(&e, "did:web"), Err(ResolutionError::UnsupportedMethod));
    assert_eq!(document_url(&e, "did:plc"), Err(ResolutionError::UnsupportedMethod));
    assert_eq!(document_url(&e, "alice.test"), Err(ResolutionError::UnsupportedMethod));
    assert_eq!(document_url(&e, ""), Err(ResolutionError::UnsupportedMethod));
}

#[test]
fn lookup_answer_for_each_reading() {
    assert_eq!(lookup_answer(alice(), Reading::Text("did:plc:abc".to_string())), resolved("did:plc:abc"));
    assert_eq!(lookup_answer(alice(), Reading::Absent), Err(ResolutionError::LookupWithoutDid { handle: alice() }));
    assert_eq!(lookup_answer(alice(), Reading::Undecodable), Err(ResolutionError::LookupMalformed { handle: alice() }));
}

#[test]
fn rejection_prefers_the_message_of_the_answer() {
    assert_eq!(rejection(Reading::Text("no such actor".to_string()), "{...}".to_string()), "no such actor");
    assert_eq!(rejection(Reading::Absent, "{...}".to_string()), "{...}");
    assert_eq!(rejection(Reading::Undecodable, "gone".to_string()), "gone");
}

#[test]
fn lookup_that_succeeds() {
    assert_eq!(
        did_from_lookup(alice(), 200, br#"{"did":"did:plc:abc","handle":"alice.test"}"#),
        resolved("did:plc:abc")
    );
}

#[test]
fn lookup_answer_without_did() {
    assert_eq!(did_from_lookup(alice(), 200, br#"{"handle":"alice.test"}"#), Err(ResolutionError::LookupWithoutDid { handle: alice() }));
    assert_eq!(did_from_lookup(alice(), 200, br#"{"did":7}"#), Err(ResolutionError::LookupWithoutDid { handle: alice() }));
}

#[test]
fn lookup_answer_that_is_no_json() {
    assert_eq!(did_from_lookup(alice(), 200, b"<html></html>"), Err(ResolutionError::LookupMalformed { handle: alice() }));
    assert_eq!(did_from_lookup(alice(), 200, b""), Err(ResolutionError::LookupMalformed { handle: alice() }));
}

#[test]
fn lookup_that_is_rejected_with_a_message() {
    assert_eq!(
        did_from_lookup(alice(), 400, br#"{"error":"InvalidRequest","message":"Profile not found"}"#),
        Err(ResolutionError::LookupRejected { status: 400, message: "Profile not found".to_string() })
    );
}

#[test]
fn lookup_that_is_rejected_without_a_message() {
    assert_eq!(
        did_from_lookup(alice(), 429, br#"{"error":"RateLimitExceeded"}"#),
        Err(ResolutionError::LookupRejected {
            status: 429,
            message: r#"{"error":"RateLimitExceeded"}"#.to_string()
        })
    );
    assert_eq!(
        did_from_lookup(alice(), 502, b"Bad Gateway"),
        Err(ResolutionError::LookupRejected { status: 502, message: "Bad Gateway".to_string() })
    );
    assert_eq!(
        did_from_lookup(alice(), 500, b""),
        Err(ResolutionError::LookupRejected { status: 500, message: String::new() })
    );
}

#[test]
fn lookup_that_is_rejected_with_bytes_that_are_no_text() {
    assert_eq!(
        did_from_lookup(alice(), 503, b"down\xff!"),
        Err(ResolutionError::LookupRejected { status: 503, message: "down\u{FFFD}!".to_string() })
    );
}

#[test]
fn lookup_with_a_did_in_a_rejected_answer() {
    assert_eq!(
        did_from_lookup(alice(), 404, br#"{"did":"did:plc:abc"}"#),
        Err(ResolutionError::LookupRejected { status: 404, message: r#"{"did":"did:plc:abc"}"#.to_string() })
    );
}

#[test]
fn services_of_a_document() {
    let body = br##"{
        "id": "did:plc:abc",
        "service": [
            {"id": "#other", "type": "Other", "serviceEndpoint": "https://other.test"},
            {"id": "#atproto_pds", "type": "AtprotoPersonalDataServer", "serviceEndpoint": "https://pds.test"},
            {"id": 5},
            "text",
            {"serviceEndpoint": {"uri": "https://x.test"}}
        ]
    }"##;
    assert_eq!(
        read_services(body),
        Listing::Listed(vec![
            entry(Some("#other"), Some("https://other.test")),
            entry(Some("#atproto_pds"), Some("https://pds.test")),
            entry(None, None),
            entry(None, None),
            entry(None, None),
        ])
    );
}

#[test]
fn services_of_a_document_without_a_list() {
    assert_eq!(read_services(br#"{"id":"did:plc:abc"}"#), Listing::Unlisted);
    assert_eq!(read_services(br##"{"service":{"id":"#atproto_pds"}}"##), Listing::Unlisted);
    assert_eq!(read_services(br#"{"service":null}"#), Listing::Unlisted);
    assert_eq!(read_services(br#"[]"#), Listing::Unlisted);
    assert_eq!(read_services(br#"{"service":[]}"#), Listing::Listed(vec![]));
}

#[test]
fn services_of_bytes_that_are_no_json() {
    assert_eq!(read_services(b"not json"), Listing::Undecodable);
    assert_eq!(read_services(b""), Listing::Undecodable);
}

#[test]
fn endpoint_of_the_repository_service() {
    let entries = vec![
        entry(Some("#other"), Some("https://other.test")),
        entry(Some("#atproto_pds"), Some("https://pds.test")),
    ];
    assert_eq!(pds_endpoint(&entries), Some("https://pds.test".to_string()));
}

#[test]
fn endpoint_of_the_first_of_two_repository_services() {
    let entries = vec![
        entry(Some("#atproto_pds"), Some("https://first.test")),
        entry(Some("#atproto_pds"), Some("https://second.test")),
    ];
    assert_eq!(pds_endpoint(&entries), Some("https://first.test".to_string()));
    let entries = vec![
        entry(Some("#atproto_pds"), None),
        entry(Some("#atproto_pds"), Some("https://second.test")),
    ];
    assert_eq!(pds_endpoint(&entries), None);
}

#[test]
fn no_endpoint_without_a_repository_service() {
    assert_eq!(pds_endpoint(&vec![]), None);
    let entries = vec![
        entry(Some("#other"), Some("https://other.test")),
        entry(None, Some("https://pds.test")),
        entry(Some("atproto_pds"), Some("https://pds.test")),
        entry(Some("#atproto_pds2"), Some("https://pds.test")),
        entry(Some("#ATPROTO_PDS"), Some("https://pds.test")),
    ];
    assert_eq!(pds_endpoint(&entries), None);
    assert_eq!(host_from_listing(Listing::Listed(entries)), Err(ResolutionError::NoRepositoryService));
}

#[test]
fn host_for_each_listing() {
    assert_eq!(host_from_listing(Listing::Undecodable), Err(ResolutionError::DocumentMalformed));
    assert_eq!(host_from_listing(Listing::Unlisted), Err(ResolutionError::NoRepositoryService));
    assert_eq!(host_from_listing(Listing::Listed(vec![])), Err(ResolutionError::NoRepositoryService));
    assert_eq!(
        host_from_listing(Listing::Listed(vec![entry(Some("#atproto_pds"), Some("https://pds.test"))])),
        Ok("https://pds.test".to_string())
    );
}

#[test]
fn host_from_a_document() {
    let body = br##"{"service":[{"id":"#atproto_pds","serviceEndpoint":"https://pds.test"}]}"##;
    assert_eq!(host_from_document(200, body), Ok("https://pds.test".to_string()));
}

#[test]
fn host_from_a_document_without_repository_service() {
    let body = br##"{"service":[{"id":"#a","serviceEndpoint":"https://a.test"},{"id":"#b","serviceEndpoint":"https://b.test"},{"id":"#c","serviceEndpoint":"https://c.test"}]}"##;
    assert_eq!(host_from_document(200, body), Err(ResolutionError::NoRepositoryService));
    assert_eq!(host_from_document(200, br#"{"service":[]}"#), Err(ResolutionError::NoRepositoryService));
    assert_eq!(host_from_document(200, br#"{}"#), Err(ResolutionError::NoRepositoryService));
}

#[test]
fn host_from_a_document_whose_endpoint_is_no_string() {
    let body = br##"{"service":[{"id":"#atproto_pds","serviceEndpoint":["https://pds.test"]}]}"##;
    assert_eq!(host_from_document(200, body), Err(ResolutionError::NoRepositoryService));
}

#[test]
fn host_from_a_document_that_is_no_json() {
    assert_eq!(host_from_document(200, b"oops"), Err(ResolutionError::DocumentMalformed));
}

#[test]
fn host_from_a_rejected_request() {
    let body = br##"{"service":[{"id":"#atproto_pds","serviceEndpoint":"https://pds.test"}]}"##;
    assert_eq!(host_from_document(404, body), Err(ResolutionError::DocumentRejected { status: 404 }));
    assert_eq!(host_from_document(500, b""), Err(ResolutionError::DocumentRejected { status: 500 }));
}
