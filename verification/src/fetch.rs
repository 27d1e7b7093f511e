//! Reading from a repository: the addresses of a record and of a blob, and
//! what an answer to either means.

use vstd::prelude::*;
use vstd::string::StringExecFns;
use crate::json::{read_text, text_read, Reading, ReadingView};
use crate::model::{agrees, text_of};
use crate::types::{ApiResponse, ApiResponseView, PostRecord, PostRecordView};

verus! {

/// Why a record or a blob could not be had.
#[derive(Debug, Clone, PartialEq, Eq)]
pub enum FetchError {
    /// The repository has nothing under the address (status 404).
    NotFound,
    /// The repository does not accept the reference (status 400).
    InvalidReference,
    /// Any other status than success, with the message in the answer, where
    /// it has one.
    Status { status: u16, message: Option<String> },
    /// The repository could not be reached, or its answer could not be read
    /// to the end.
    Unreachable { detail: String },
    /// The answer is not of the shape of a record.
    Malformed,
}

/// Model of a [`FetchError`].
pub enum FetchErrorView {
    NotFound,
    InvalidReference,
    Status { status: u16, message: Option<Seq<char>> },
    Unreachable { detail: Seq<char> },
    Malformed,
}

impl View for FetchError {
    type V = FetchErrorView;

    open spec fn view(&self) -> FetchErrorView {
        match self {
            FetchError::NotFound => FetchErrorView::NotFound,
            FetchError::InvalidReference => FetchErrorView::InvalidReference,
            FetchError::Status { status, message } => FetchErrorView::Status {
                status: *status,
                message: text_of(*message),
            },
            FetchError::Unreachable { detail } => FetchErrorView::Unreachable { detail: detail@ },
            FetchError::Malformed => FetchErrorView::Malformed,
        }
    }
}

/// The address of a post: the record of the collection of posts that an
/// actor's repository holds under a key.
pub open spec fn record_address(host: Seq<char>, did: Seq<char>, key: Seq<char>) -> Seq<char> {
    host + "/xrpc/com.atproto.repo.getRecord?repo="@ + did
        + "&collection=app.bsky.feed.post&rkey="@ + key
}

/// The address of a blob of an actor's repository.
pub open spec fn blob_address(host: Seq<char>, did: Seq<char>, cid: Seq<char>) -> Seq<char> {
    host + "/xrpc/com.atproto.sync.getBlob?did="@ + did + "&cid="@ + cid
}

/// The message that an answer carries, given what was read off it under
/// `message`.
pub open spec fn upstream_note(message: ReadingView) -> Option<Seq<char>> {
    match message {
        ReadingView::Text(message) => Some(message),
        _ => None,
    }
}

/// What a status other than success means for a record read.
pub open spec fn record_rejection(status: u16, note: Option<Seq<char>>) -> FetchErrorView {
    if status == 404 {
        FetchErrorView::NotFound
    } else if status == 400 {
        FetchErrorView::InvalidReference
    } else {
        FetchErrorView::Status { status, message: note }
    }
}

/// What a status other than success means for a blob read.
pub open spec fn blob_rejection(status: u16, note: Option<Seq<char>>) -> FetchErrorView {
    if status == 404 {
        FetchErrorView::NotFound
    } else {
        FetchErrorView::Status { status, message: note }
    }
}

/// What the attempt to decode the answer of a record read means.
pub open spec fn record_decoded(decoded: Option<ApiResponseView>) -> Result<
    PostRecordView,
    FetchErrorView,
> {
    match decoded {
        Some(response) => Ok(response.value),
        None => Err(FetchErrorView::Malformed),
    }
}

/// The model of an optional answer of a record read.
pub open spec fn response_view(decoded: Option<ApiResponse>) -> Option<ApiResponseView> {
    match decoded {
        Some(response) => Some(response@),
        None => None,
    }
}

/// The address to ask for a post.
pub fn record_url(host: &str, did: &str, key: &str) -> (r: String)
    ensures
        r@ == record_address(host@, did@, key@),
{
    let mut url = String::from_str(host);
    url.append("/xrpc/com.atproto.repo.getRecord?repo=");
    url.append(did);
    url.append("&collection=app.bsky.feed.post&rkey=");
    url.append(key);
    url
}

/// The address to ask for a blob.
pub fn blob_url(host: &str, did: &str, cid: &str) -> (r: String)
    ensures
        r@ == blob_address(host@, did@, cid@),
{
    let mut url = String::from_str(host);
    url.append("/xrpc/com.atproto.sync.getBlob?did=");
    url.append(did);
    url.append("&cid=");
    url.append(cid);
    url
}

/// The message that an answer carries.
pub fn note(message: Reading) -> (r: Option<String>)
    ensures
        text_of(r) == upstream_note(message@),
{
    match message {
        Reading::Text(message) => Some(message),
        _ => None,
    }
}

/// The error for a record read that was answered with a status other than
/// success.
pub fn record_failure(status: u16, note: Option<String>) -> (r: FetchError)
    ensures
        r@ == record_rejection(status, text_of(note)),
{
    if status == 404 {
        FetchError::NotFound
    } else if status == 400 {
        FetchError::InvalidReference
    } else {
        FetchError::Status { status, message: note }
    }
}

/// The error for a blob read that was answered with a status other than
/// success.
pub fn blob_failure(status: u16, note: Option<String>) -> (r: FetchError)
    ensures
        r@ == blob_rejection(status, text_of(note)),
{
    if status == 404 {
        FetchError::NotFound
    } else {
        FetchError::Status { status, message: note }
    }
}

/// The error for a rejected record read, with the message that the answer
/// carries.
pub fn rejected_record(status: u16, body: &[u8]) -> (r: FetchError)
    ensures
        r@ == record_rejection(status, upstream_note(text_read(body@, "message"@))),
{
    record_failure(status, note(read_text(body, "message")))
}

/// The error for a rejected blob read, with the message that the answer
/// carries.
pub fn rejected_blob(status: u16, body: &[u8]) -> (r: FetchError)
    ensures
        r@ == blob_rejection(status, upstream_note(text_read(body@, "message"@))),
{
    blob_failure(status, note(read_text(body, "message")))
}

/// The record that a decoded answer holds; an answer that did not decode is
/// malformed.
pub fn record_from(decoded: Option<ApiResponse>) -> (r: Result<PostRecord, FetchError>)
    ensures
        agrees(r, record_decoded(response_view(decoded))),
{
    match decoded {
        Some(response) => Ok(response.value),
        None => Err(FetchError::Malformed),
    }
}

/// A read that is rejected with the status 404 fails in another way than
/// one that is rejected with any other status, whatever message the answers
/// carry.
pub proof fn law_not_found_is_told_apart(
    status: u16,
    note: Option<Seq<char>>,
    other: Option<Seq<char>>,
)
    requires
        status != 404,
    ensures
        record_rejection(404, note) == FetchErrorView::NotFound,
        record_rejection(status, other) != record_rejection(404, note),
        blob_rejection(404, note) == FetchErrorView::NotFound,
        blob_rejection(status, other) != blob_rejection(404, note),
{
}

} // verus!
