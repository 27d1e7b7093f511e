//! Resolving an actor: from a handle to a DID, and from a DID to the host of
//! the actor's repository. This module says which address to ask and what an
//! answer means; asking is the caller's part.

use vstd::prelude::*;
use vstd::string::{StrSliceExecFns, StringExecFns};
use crate::json::{
    decode, items_of_member, json_decoded, json_of, jsons_of, lossy, lossy_text, member_items,
    member_text, read_text, text_of_member, text_read, Json, Reading, ReadingView,
};
use crate::model::{agrees, text_of};
use crate::text::{chars_of, replace_char, replaced, same_text, starts_with, trim, trimmed};
use crate::types::{ResolveResponse, ResolveResponseView};

verus! {

/// The services that resolution asks, and the choice between the two ways of
/// finding a repository host.
#[derive(Debug, Clone, PartialEq, Eq)]
pub struct Endpoints {
    /// The address of the handle lookup, up to where the handle goes.
    pub handle_lookup: String,
    /// The address of the PLC directory, up to where the DID goes.
    pub plc_directory: String,
    /// A host that serves every actor's repository. Without one, the host is
    /// taken from the actor's DID document.
    pub repository_host: Option<String>,
}

/// An actor, resolved: the DID and the host of the repository.
#[derive(Debug, Clone, PartialEq, Eq)]
pub struct ResolvedIdentity {
    pub did: String,
    pub repository_host: String,
}

/// Why an actor could not be resolved.
#[derive(Debug, Clone, PartialEq, Eq)]
pub enum ResolutionError {
    /// The handle to look up is empty.
    EmptyHandle,
    /// The handle lookup could not be reached.
    LookupUnreachable { detail: String },
    /// The handle lookup answered with a status other than success. The
    /// message is the one in the answer, or else the answer's text.
    LookupRejected { status: u16, message: String },
    /// The answer of the lookup of this handle is no JSON text.
    LookupMalformed { handle: String },
    /// The answer of the lookup of this handle holds no DID.
    LookupWithoutDid { handle: String },
    /// The DID is of a method other than `web` and `plc`.
    UnsupportedMethod,
    /// The DID document could not be reached.
    DocumentUnreachable { detail: String },
    /// The request for the DID document was answered with a status other
    /// than success.
    DocumentRejected { status: u16 },
    /// The DID document is no JSON text.
    DocumentMalformed,
    /// The DID document names no repository host.
    NoRepositoryService,
}

/// One entry of a DID document's list of services, as far as it is read.
#[derive(Debug, Clone, PartialEq, Eq)]
pub struct ServiceEntry {
    /// The entry's `id`, where it is a string.
    pub id: Option<String>,
    /// The entry's `serviceEndpoint`, where it is a string.
    pub endpoint: Option<String>,
}

/// What reading the services off a DID document comes to.
#[derive(Debug, Clone, PartialEq, Eq)]
pub enum Listing {
    /// The bytes are no JSON text.
    Undecodable,
    /// The document has no array under `service`.
    Unlisted,
    /// The entries of the array under `service`, in order.
    Listed(Vec<ServiceEntry>),
}

/// Model of [`Endpoints`].
pub struct EndpointsView {
    pub handle_lookup: Seq<char>,
    pub plc_directory: Seq<char>,
    pub repository_host: Option<Seq<char>>,
}

/// Model of a [`ResolvedIdentity`].
pub struct ResolvedIdentityView {
    pub did: Seq<char>,
    pub repository_host: Seq<char>,
}

/// Model of a [`ResolutionError`].
pub enum ResolutionErrorView {
    EmptyHandle,
    LookupUnreachable { detail: Seq<char> },
    LookupRejected { status: u16, message: Seq<char> },
    LookupMalformed { handle: Seq<char> },
    LookupWithoutDid { handle: Seq<char> },
    UnsupportedMethod,
    DocumentUnreachable { detail: Seq<char> },
    DocumentRejected { status: u16 },
    DocumentMalformed,
    NoRepositoryService,
}

/// Model of a [`ServiceEntry`].
pub struct ServiceEntryView {
    pub id: Option<Seq<char>>,
    pub endpoint: Option<Seq<char>>,
}

/// Model of a [`Listing`].
pub enum ListingView {
    Undecodable,
    Unlisted,
    Listed(Seq<ServiceEntryView>),
}

impl View for Endpoints {
    type V = EndpointsView;

    open spec fn view(&self) -> EndpointsView {
        EndpointsView {
            handle_lookup: self.handle_lookup@,
            plc_directory: self.plc_directory@,
            repository_host: text_of(self.repository_host),
        }
    }
}

impl View for ResolvedIdentity {
    type V = ResolvedIdentityView;

    open spec fn view(&self) -> ResolvedIdentityView {
        ResolvedIdentityView { did: self.did@, repository_host: self.repository_host@ }
    }
}

impl View for ResolutionError {
    type V = ResolutionErrorView;

    open spec fn view(&self) -> ResolutionErrorView {
        match self {
            ResolutionError::EmptyHandle => ResolutionErrorView::EmptyHandle,
            ResolutionError::LookupUnreachable { detail } => ResolutionErrorView::LookupUnreachable {
                detail: detail@,
            },
            ResolutionError::LookupRejected { status, message } => {
                ResolutionErrorView::LookupRejected { status: *status, message: message@ }
            },
            ResolutionError::LookupMalformed { handle } => ResolutionErrorView::LookupMalformed {
                handle: handle@,
            },
            ResolutionError::LookupWithoutDid { handle } => ResolutionErrorView::LookupWithoutDid {
                handle: handle@,
            },
            ResolutionError::UnsupportedMethod => ResolutionErrorView::UnsupportedMethod,
            ResolutionError::DocumentUnreachable { detail } => {
                ResolutionErrorView::DocumentUnreachable { detail: detail@ }
            },
            ResolutionError::DocumentRejected { status } => ResolutionErrorView::DocumentRejected {
                status: *status,
            },
            ResolutionError::DocumentMalformed => ResolutionErrorView::DocumentMalformed,
            ResolutionError::NoRepositoryService => ResolutionErrorView::NoRepositoryService,
        }
    }
}

impl View for ServiceEntry {
    type V = ServiceEntryView;

    open spec fn view(&self) -> ServiceEntryView {
        ServiceEntryView { id: text_of(self.id), endpoint: text_of(self.endpoint) }
    }
}

/// The models of a list of entries.
pub open spec fn entry_views(entries: Seq<ServiceEntry>) -> Seq<ServiceEntryView> {
    Seq::new(entries.len(), |i: int| entries[i]@)
}

impl View for Listing {
    type V = ListingView;

    open spec fn view(&self) -> ListingView {
        match self {
            Listing::Undecodable => ListingView::Undecodable,
            Listing::Unlisted => ListingView::Unlisted,
            Listing::Listed(entries) => ListingView::Listed(entry_views(entries@)),
        }
    }
}

/// Whether a status is one of success: from 200 to 299.
pub open spec fn succeeded(status: u16) -> bool {
    200 <= status < 300
}

/// The endpoints of the public network: the profile lookup of the public
/// API, the PLC directory, and no fixed repository host.
pub open spec fn standard_endpoints() -> EndpointsView {
    EndpointsView {
        handle_lookup: "https://public.api.bsky.app/xrpc/app.bsky.actor.getProfile?actor="@,
        plc_directory: "https://plc.directory/"@,
        repository_host: None,
    }
}

/// The address at which a handle is looked up: the lookup's address followed
/// by the trimmed handle.
pub open spec fn lookup_address(endpoints: EndpointsView, handle: Seq<char>) -> Result<
    Seq<char>,
    ResolutionErrorView,
> {
    if handle.len() == 0 {
        Err(ResolutionErrorView::EmptyHandle)
    } else {
        Ok(endpoints.handle_lookup + trimmed(handle))
    }
}

/// The address of an actor's DID document. For the method `web`, what
/// follows `did:web:` names the host, and a path below it where it holds
/// colons. For the method `plc`, the document is in the PLC directory.
pub open spec fn document_address(endpoints: EndpointsView, did: Seq<char>) -> Result<
    Seq<char>,
    ResolutionErrorView,
> {
    if "did:web:"@.is_prefix_of(did) {
        Ok(
            "https://"@ + replaced(did.skip("did:web:"@.len() as int), ':', "/"@)
                + "/.well-known/did.json"@,
        )
    } else if "did:plc:"@.is_prefix_of(did) {
        Ok(endpoints.plc_directory + did)
    } else {
        Err(ResolutionErrorView::UnsupportedMethod)
    }
}

/// What an answer of the lookup of a handle with status success means,
/// given what was read off it under `did`.
pub open spec fn lookup_answered(handle: Seq<char>, did: ReadingView) -> Result<
    ResolveResponseView,
    ResolutionErrorView,
> {
    match did {
        ReadingView::Undecodable => Err(ResolutionErrorView::LookupMalformed { handle }),
        ReadingView::Absent => Err(ResolutionErrorView::LookupWithoutDid { handle }),
        ReadingView::Text(did) => Ok(ResolveResponseView { did }),
    }
}

/// The message of a rejected lookup, given what was read off the answer
/// under `message`, and the answer's text.
pub open spec fn rejection_message(message: ReadingView, text: Seq<char>) -> Seq<char> {
    match message {
        ReadingView::Text(message) => message,
        _ => text,
    }
}

/// What an answer of the lookup of a handle means.
pub open spec fn lookup_result(handle: Seq<char>, status: u16, body: Seq<u8>) -> Result<
    ResolveResponseView,
    ResolutionErrorView,
> {
    if succeeded(status) {
        lookup_answered(handle, text_read(body, "did"@))
    } else {
        Err(
            ResolutionErrorView::LookupRejected {
                status,
                message: rejection_message(text_read(body, "message"@), lossy_text(body)),
            },
        )
    }
}

/// Whether an entry is the one of the repository host.
pub open spec fn is_repository_service(entry: ServiceEntryView) -> bool {
    entry.id == Some("#atproto_pds"@)
}

/// The first entry that is the one of the repository host.
pub open spec fn first_repository_service(entries: Seq<ServiceEntryView>) -> Option<
    ServiceEntryView,
>
    decreases entries.len(),
{
    if entries.len() == 0 {
        None
    } else if is_repository_service(entries.first()) {
        Some(entries.first())
    } else {
        first_repository_service(entries.drop_first())
    }
}

/// The repository host that a list of services names: the endpoint of the
/// first entry of the repository host, where that entry has one. Later
/// entries are not looked at.
pub open spec fn repository_endpoint(entries: Seq<ServiceEntryView>) -> Option<Seq<char>> {
    match first_repository_service(entries) {
        Some(entry) => entry.endpoint,
        None => None,
    }
}

/// What is read off one element of the array of services.
pub open spec fn entry_read(item: Json) -> ServiceEntryView {
    ServiceEntryView {
        id: member_text(item, "id"@),
        endpoint: member_text(item, "serviceEndpoint"@),
    }
}

/// The services that a DID document lists: what is read off each element of
/// the array under `service`, where the document has one.
pub open spec fn services_of(doc: Json) -> Option<Seq<ServiceEntryView>> {
    match member_items(doc, "service"@) {
        Some(items) => Some(Seq::new(items.len(), |i: int| entry_read(items[i]))),
        None => None,
    }
}

/// What reading the services off a decoded DID document, or off nothing
/// where the bytes did not decode, comes to.
pub open spec fn services_found(decoded: Option<Json>) -> ListingView {
    match decoded {
        None => ListingView::Undecodable,
        Some(doc) => match services_of(doc) {
            None => ListingView::Unlisted,
            Some(entries) => ListingView::Listed(entries),
        },
    }
}

/// What reading the services off the bytes of a DID document comes to.
pub open spec fn services_read(body: Seq<u8>) -> ListingView {
    services_found(json_decoded(body))
}

/// The repository host that a listing gives.
pub open spec fn listed_host(listing: ListingView) -> Result<Seq<char>, ResolutionErrorView> {
    match listing {
        ListingView::Undecodable => Err(ResolutionErrorView::DocumentMalformed),
        ListingView::Unlisted => Err(ResolutionErrorView::NoRepositoryService),
        ListingView::Listed(entries) => match repository_endpoint(entries) {
            Some(host) => Ok(host),
            None => Err(ResolutionErrorView::NoRepositoryService),
        },
    }
}

/// What an answer to the request for a DID document means.
pub open spec fn document_result(status: u16, body: Seq<u8>) -> Result<
    Seq<char>,
    ResolutionErrorView,
> {
    if succeeded(status) {
        listed_host(services_read(body))
    } else {
        Err(ResolutionErrorView::DocumentRejected { status })
    }
}

/// The first entry of the repository host is the one at `i`, where no
/// earlier entry is one.
pub proof fn lemma_first_repository_service(entries: Seq<ServiceEntryView>, i: int)
    requires
        0 <= i <= entries.len(),
        forall|j: int| 0 <= j < i ==> !is_repository_service(entries[j]),
        i < entries.len() ==> is_repository_service(entries[i]),
    ensures
        first_repository_service(entries) == if i < entries.len() {
            Some(entries[i])
        } else {
            None
        },
    decreases i,
{
    if i > 0 {
        assert(!is_repository_service(entries[0]));
        let rest = entries.drop_first();
        assert forall|j: int| 0 <= j < i - 1 implies !is_repository_service(rest[j]) by {
            assert(rest[j] == entries[j + 1]);
        }
        lemma_first_repository_service(rest, i - 1);
    }
}

/// A list of services without an entry whose `id` is `#atproto_pds` names no
/// repository host, whatever else it holds, and resolution fails on it.
pub proof fn law_repository_service_required(entries: Seq<ServiceEntryView>)
    requires
        forall|i: int| 0 <= i < entries.len() ==> entries[i].id != Some("#atproto_pds"@),
    ensures
        repository_endpoint(entries) is None,
        listed_host(ListingView::Listed(entries)) == Err::<Seq<char>, ResolutionErrorView>(
            ResolutionErrorView::NoRepositoryService,
        ),
{
    lemma_first_repository_service(entries, entries.len() as int);
}

/// Whether none of the services that a DID document lists has the `id`
/// `#atproto_pds`. A document that lists no services is such a one.
pub open spec fn lists_no_repository_service(doc: Json) -> bool {
    member_items(doc, "service"@) matches Some(items) ==> forall|i: int|
        0 <= i < items.len() ==> member_text(#[trigger] items[i], "id"@) != Some("#atproto_pds"@)
}

/// A DID document whose services hold no entry with the `id` `#atproto_pds`
/// names no repository host, however many services it lists: resolution
/// fails on it.
pub proof fn law_document_without_repository_service(status: u16, body: Seq<u8>, doc: Json)
    requires
        succeeded(status),
        json_decoded(body) == Some(doc),
        lists_no_repository_service(doc),
    ensures
        services_of(doc) matches Some(entries) ==> repository_endpoint(entries) is None,
        document_result(status, body) == Err::<Seq<char>, ResolutionErrorView>(
            ResolutionErrorView::NoRepositoryService,
        ),
{
    if services_of(doc) is Some {
        law_repository_service_required(services_of(doc)->Some_0);
    }
}

impl Endpoints {
    /// The endpoints of the public network.
    pub fn standard() -> (r: Endpoints)
        ensures
            r@ == standard_endpoints(),
    {
        Endpoints {
            handle_lookup: String::from_str(
                "https://public.api.bsky.app/xrpc/app.bsky.actor.getProfile?actor=",
            ),
            plc_directory: String::from_str("https://plc.directory/"),
            repository_host: None,
        }
    }
}

/// Tells whether a status is one of success.
pub fn is_success(status: u16) -> (r: bool)
    ensures
        r == succeeded(status),
{
    200 <= status && status < 300
}

/// The address to ask for the DID behind a handle.
pub fn lookup_url(endpoints: &Endpoints, handle: &str) -> (r: Result<String, ResolutionError>)
    ensures
        agrees(r, lookup_address(endpoints@, handle@)),
{
    if handle.unicode_len() == 0 {
        return Err(ResolutionError::EmptyHandle);
    }
    let mut url = endpoints.handle_lookup.clone();
    url.append(trim(handle));
    Ok(url)
}

/// The address to ask for the DID document of an actor. An actor of another
/// method than `web` and `plc` has none.
pub fn document_url(endpoints: &Endpoints, did: &str) -> (r: Result<String, ResolutionError>)
    ensures
        agrees(r, document_address(endpoints@, did@)),
{
    let chars = chars_of(did);
    let web = chars_of("did:web:");
    let plc = chars_of("did:plc:");
    if starts_with(&chars, &web) {
        let domain = did.substring_char(web.len(), chars.len());
        proof {
            assert(domain@ =~= did@.skip("did:web:"@.len() as int));
        }
        let path = replace_char(domain, ':', "/");
        let mut url = String::from_str("https://");
        url.append(path.as_str());
        url.append("/.well-known/did.json");
        Ok(url)
    } else if starts_with(&chars, &plc) {
        let mut url = endpoints.plc_directory.clone();
        url.append(did);
        Ok(url)
    } else {
        Err(ResolutionError::UnsupportedMethod)
    }
}

/// What an answer of the lookup of a handle with status success means,
/// given what was read off it under `did`.
pub fn lookup_answer(handle: String, did: Reading) -> (r: Result<ResolveResponse, ResolutionError>)
    ensures
        agrees(r, lookup_answered(handle@, did@)),
{
    match did {
        Reading::Undecodable => Err(ResolutionError::LookupMalformed { handle }),
        Reading::Absent => Err(ResolutionError::LookupWithoutDid { handle }),
        Reading::Text(did) => Ok(ResolveResponse { did }),
    }
}

/// The message of a rejected lookup: the one read off the answer under
/// `message`, or else the answer's text.
pub fn rejection(message: Reading, text: String) -> (r: String)
    ensures
        r@ == rejection_message(message@, text@),
{
    match message {
        Reading::Text(message) => message,
        _ => text,
    }
}

/// The DID that an answer of the lookup of a handle gives.
pub fn did_from_lookup(handle: String, status: u16, body: &[u8]) -> (r: Result<
    ResolveResponse,
    ResolutionError,
>)
    ensures
        agrees(r, lookup_result(handle@, status, body@)),
{
    if is_success(status) {
        lookup_answer(handle, read_text(body, "did"))
    } else {
        let message = rejection(read_text(body, "message"), lossy(body));
        Err(ResolutionError::LookupRejected { status, message })
    }
}

/// Reads one element of the array of services.
pub fn read_entry(item: &serde_json::Value) -> (r: ServiceEntry)
    ensures
        r@ == entry_read(json_of(*item)),
{
    ServiceEntry {
        id: text_of_member(item, "id"),
        endpoint: text_of_member(item, "serviceEndpoint"),
    }
}

/// Decodes a DID document and reads its services.
pub fn read_services(body: &[u8]) -> (r: Listing)
    ensures
        r@ == services_read(body@),
{
    let doc = match decode(body) {
        Ok(doc) => doc,
        Err(_) => {
            return Listing::Undecodable;
        },
    };
    let items = match items_of_member(&doc, "service") {
        Some(items) => items,
        None => {
            return Listing::Unlisted;
        },
    };
    let mut entries: Vec<ServiceEntry> = Vec::new();
    let mut i: usize = 0;
    while i < items.len()
        invariant
            i <= items.len(),
            entries.len() == i,
            forall|j: int| 0 <= j < i ==> entries@[j]@ == entry_read(json_of(items@[j])),
        decreases items.len() - i,
    {
        entries.push(read_entry(&items[i]));
        i += 1;
    }
    proof {
        let listed = jsons_of(items@);
        assert(entry_views(entries@) =~= Seq::new(listed.len(), |i: int| entry_read(listed[i])));
    }
    Listing::Listed(entries)
}

/// The repository host that a list of services names.
pub fn pds_endpoint(entries: &Vec<ServiceEntry>) -> (r: Option<String>)
    ensures
        text_of(r) == repository_endpoint(entry_views(entries@)),
{
    let mut i: usize = 0;
    while i < entries.len()
        invariant
            i <= entries.len(),
            forall|j: int| 0 <= j < i ==> !is_repository_service(entry_views(entries@)[j]),
        decreases entries.len() - i,
    {
        let found = match &entries[i].id {
            Some(id) => same_text(id.as_str(), "#atproto_pds"),
            None => false,
        };
        if found {
            proof {
                lemma_first_repository_service(entry_views(entries@), i as int);
            }
            return match &entries[i].endpoint {
                Some(endpoint) => Some(endpoint.clone()),
                None => None,
            };
        }
        i += 1;
    }
    proof {
        lemma_first_repository_service(entry_views(entries@), i as int);
    }
    None
}

/// The repository host that a listing gives.
pub fn host_from_listing(listing: Listing) -> (r: Result<String, ResolutionError>)
    ensures
        agrees(r, listed_host(listing@)),
{
    match listing {
        Listing::Undecodable => Err(ResolutionError::DocumentMalformed),
        Listing::Unlisted => Err(ResolutionError::NoRepositoryService),
        Listing::Listed(entries) => match pds_endpoint(&entries) {
            Some(host) => Ok(host),
            None => Err(ResolutionError::NoRepositoryService),
        },
    }
}

/// The repository host that an answer to the request for a DID document
/// gives.
pub fn host_from_document(status: u16, body: &[u8]) -> (r: Result<String, ResolutionError>)
    ensures
        agrees(r, document_result(status, body@)),
{
    if is_success(status) {
        host_from_listing(read_services(body))
    } else {
        Err(ResolutionError::DocumentRejected { status })
    }
}

} // verus!
