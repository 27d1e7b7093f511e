//! From an address to a video, step by step. A run asks for one thing at a
//! time: it names an address to fetch, or an answer to decode, and goes on
//! with what the caller hands back, until it ends in an outcome. Nothing is
//! kept from one run to the next, and nothing is tried twice.

use vstd::prelude::*;
use crate::embed::{
    assemble, assembled, extract_video, extracted, video_kind, ContentError, ContentErrorView,
    VideoInfo, VideoInfoView,
};
use crate::fetch::{
    blob_address, blob_rejection, blob_url, record_address, record_rejection, record_url,
    rejected_blob, rejected_record, response_view, upstream_note, FetchError, FetchErrorView,
};
use crate::identity::{
    did_from_lookup, document_address, document_result, document_url, host_from_document,
    is_success, law_document_without_repository_service, lists_no_repository_service,
    lookup_address, lookup_result, lookup_url, succeeded, Endpoints, EndpointsView,
    ResolutionError, ResolutionErrorView, ResolvedIdentity, ResolvedIdentityView,
};
use crate::json::{json_decoded, text_read, Json};
use crate::text::{position, split};
use crate::types::{
    ApiResponse, ApiResponseView, AspectRatio, BlobRefView, EmbedView, PostRecordView,
    VideoBlobView,
};
use crate::url::{
    law_segments_of_address, parse_url, parsed, ActorRef, ActorRefView, ValidationError,
};

verus! {

/// What a run is for.
#[derive(Debug, Clone, Copy, PartialEq, Eq, Structural)]
pub enum Goal {
    /// To tell what is known of the video.
    Describe,
    /// To tell whether there is a video.
    Check,
    /// To get the video's bytes.
    Download,
}

/// Why a run failed: the first thing that went wrong, and at which step.
#[derive(Debug, Clone, PartialEq, Eq)]
pub enum Failure {
    /// The address was not accepted.
    Validation(ValidationError),
    /// The actor could not be resolved.
    Resolution(ResolutionError),
    /// The post could not be read.
    Record(FetchError),
    /// The post holds no video.
    Content(ContentError),
    /// The video's bytes could not be read.
    Blob(FetchError),
}

/// How a run ended.
#[derive(Debug, Clone, PartialEq, Eq)]
pub enum Outcome {
    /// What is known of the video.
    Described(VideoInfo),
    /// Whether the post holds a video.
    Checked(bool),
    /// The video's bytes, as the repository served them.
    Downloaded(Vec<u8>),
    /// The run failed.
    Failed(Failure),
}

/// A run that waits for the answer to a request.
#[derive(Debug, Clone, PartialEq, Eq)]
pub enum Pending {
    /// The handle lookup was asked.
    Lookup { goal: Goal, endpoints: Endpoints, handle: String, resource_key: String },
    /// The DID document was asked for.
    Document { goal: Goal, did: String, resource_key: String },
    /// The post was asked for.
    Record { goal: Goal, identity: ResolvedIdentity },
    /// The video's bytes were asked for.
    Blob,
}

/// A run that waits for the answer of a record read to be decoded.
#[derive(Debug, Clone, PartialEq, Eq)]
pub struct Decoding {
    pub goal: Goal,
    pub identity: ResolvedIdentity,
}

/// What a run asks of its caller next.
#[derive(Debug, Clone, PartialEq, Eq)]
pub enum Step {
    /// Fetch the address, and hand the answer to `pending`.
    Fetch { pending: Pending, url: String },
    /// Decode the bytes as the answer of a record read, and hand the result
    /// to `decoding`.
    Decode { decoding: Decoding, body: Vec<u8> },
    /// Nothing: the run has ended.
    Done(Outcome),
}

/// Model of a [`Failure`].
pub enum FailureView {
    Validation(ValidationError),
    Resolution(ResolutionErrorView),
    Record(FetchErrorView),
    Content(ContentErrorView),
    Blob(FetchErrorView),
}

/// Model of an [`Outcome`].
pub enum OutcomeView {
    Described(VideoInfoView),
    Checked(bool),
    Downloaded(Seq<u8>),
    Failed(FailureView),
}

/// Model of a [`Pending`].
pub enum PendingView {
    Lookup { goal: Goal, endpoints: EndpointsView, handle: Seq<char>, resource_key: Seq<char> },
    Document { goal: Goal, did: Seq<char>, resource_key: Seq<char> },
    Record { goal: Goal, identity: ResolvedIdentityView },
    Blob,
}

/// Model of a [`Decoding`].
pub struct DecodingView {
    pub goal: Goal,
    pub identity: ResolvedIdentityView,
}

/// Model of a [`Step`].
pub enum StepView {
    Fetch { pending: PendingView, url: Seq<char> },
    Decode { decoding: DecodingView, body: Seq<u8> },
    Done(OutcomeView),
}

impl View for Failure {
    type V = FailureView;

    open spec fn view(&self) -> FailureView {
        match self {
            Failure::Validation(e) => FailureView::Validation(e@),
            Failure::Resolution(e) => FailureView::Resolution(e@),
            Failure::Record(e) => FailureView::Record(e@),
            Failure::Content(e) => FailureView::Content(e@),
            Failure::Blob(e) => FailureView::Blob(e@),
        }
    }
}

impl View for Outcome {
    type V = OutcomeView;

    open spec fn view(&self) -> OutcomeView {
        match self {
            Outcome::Described(info) => OutcomeView::Described(info@),
            Outcome::Checked(present) => OutcomeView::Checked(*present),
            Outcome::Downloaded(bytes) => OutcomeView::Downloaded(bytes@),
            Outcome::Failed(failure) => OutcomeView::Failed(failure@),
        }
    }
}

impl View for Pending {
    type V = PendingView;

    open spec fn view(&self) -> PendingView {
        match self {
            Pending::Lookup { goal, endpoints, handle, resource_key } => PendingView::Lookup {
                goal: *goal,
                endpoints: endpoints@,
                handle: handle@,
                resource_key: resource_key@,
            },
            Pending::Document { goal, did, resource_key } => PendingView::Document {
                goal: *goal,
                did: did@,
                resource_key: resource_key@,
            },
            Pending::Record { goal, identity } => PendingView::Record {
                goal: *goal,
                identity: identity@,
            },
            Pending::Blob => PendingView::Blob,
        }
    }
}

impl View for Decoding {
    type V = DecodingView;

    open spec fn view(&self) -> DecodingView {
        DecodingView { goal: self.goal, identity: self.identity@ }
    }
}

impl View for Step {
    type V = StepView;

    open spec fn view(&self) -> StepView {
        match self {
            Step::Fetch { pending, url } => StepView::Fetch { pending: pending@, url: url@ },
            Step::Decode { decoding, body } => StepView::Decode {
                decoding: decoding@,
                body: body@,
            },
            Step::Done(outcome) => StepView::Done(outcome@),
        }
    }
}

/// The step that ends a run in a failure.
pub open spec fn failed(failure: FailureView) -> StepView {
    StepView::Done(OutcomeView::Failed(failure))
}

/// The step of a run that knows whose post it is after, and where their
/// repository is: it asks for the post.
pub open spec fn with_identity(
    goal: Goal,
    identity: ResolvedIdentityView,
    resource_key: Seq<char>,
) -> StepView {
    StepView::Fetch {
        pending: PendingView::Record { goal, identity },
        url: record_address(identity.repository_host, identity.did, resource_key),
    }
}

/// The step of a run that knows the actor's DID. With a fixed repository
/// host it asks for the post there. Without one it asks for the actor's DID
/// document, or fails where the DID's method has none.
pub open spec fn with_did(
    goal: Goal,
    endpoints: EndpointsView,
    did: Seq<char>,
    resource_key: Seq<char>,
) -> StepView {
    match endpoints.repository_host {
        Some(host) => with_identity(
            goal,
            ResolvedIdentityView { did, repository_host: host },
            resource_key,
        ),
        None => match document_address(endpoints, did) {
            Ok(url) => StepView::Fetch {
                pending: PendingView::Document { goal, did, resource_key },
                url,
            },
            Err(e) => failed(FailureView::Resolution(e)),
        },
    }
}

/// The first step of a run. An address that is not accepted ends the run at
/// once. An actor named by a DID is taken as named; one named by a handle is
/// looked up.
pub open spec fn started(goal: Goal, endpoints: EndpointsView, url: Seq<char>) -> StepView {
    match parsed(url) {
        Err(e) => failed(FailureView::Validation(e)),
        Ok(reference) => match reference.actor {
            ActorRefView::Did(did) => with_did(goal, endpoints, did, reference.resource_key),
            ActorRefView::Handle(handle) => match lookup_address(endpoints, handle) {
                Ok(url) => StepView::Fetch {
                    pending: PendingView::Lookup {
                        goal,
                        endpoints,
                        handle,
                        resource_key: reference.resource_key,
                    },
                    url,
                },
                Err(e) => failed(FailureView::Resolution(e)),
            },
        },
    }
}

/// The step after an answer has arrived.
pub open spec fn on_received(pending: PendingView, status: u16, body: Seq<u8>) -> StepView {
    match pending {
        PendingView::Lookup { goal, endpoints, handle, resource_key } => match lookup_result(
            handle,
            status,
            body,
        ) {
            Ok(response) => with_did(goal, endpoints, response.did, resource_key),
            Err(e) => failed(FailureView::Resolution(e)),
        },
        PendingView::Document { goal, did, resource_key } => match document_result(status, body) {
            Ok(host) => with_identity(
                goal,
                ResolvedIdentityView { did, repository_host: host },
                resource_key,
            ),
            Err(e) => failed(FailureView::Resolution(e)),
        },
        PendingView::Record { goal, identity } => if succeeded(status) {
            StepView::Decode { decoding: DecodingView { goal, identity }, body }
        } else {
            failed(
                FailureView::Record(
                    record_rejection(status, upstream_note(text_read(body, "message"@))),
                ),
            )
        },
        PendingView::Blob => if succeeded(status) {
            StepView::Done(OutcomeView::Downloaded(body))
        } else {
            failed(
                FailureView::Blob(
                    blob_rejection(status, upstream_note(text_read(body, "message"@))),
                ),
            )
        },
    }
}

/// The step after a request has had no answer.
pub open spec fn on_unreachable(pending: PendingView, detail: Seq<char>) -> StepView {
    match pending {
        PendingView::Lookup { .. } => failed(
            FailureView::Resolution(ResolutionErrorView::LookupUnreachable { detail }),
        ),
        PendingView::Document { .. } => failed(
            FailureView::Resolution(ResolutionErrorView::DocumentUnreachable { detail }),
        ),
        PendingView::Record { .. } => failed(
            FailureView::Record(FetchErrorView::Unreachable { detail }),
        ),
        PendingView::Blob => failed(FailureView::Blob(FetchErrorView::Unreachable { detail })),
    }
}

/// The step after a post has been read. A post without a video is a failure
/// of its own kind, but for a run that only checks: there it is the answer
/// `false`.
pub open spec fn on_record(decoding: DecodingView, record: PostRecordView) -> StepView {
    match extracted(record) {
        Err(e) => if decoding.goal == Goal::Check {
            StepView::Done(OutcomeView::Checked(false))
        } else {
            failed(FailureView::Content(e))
        },
        Ok((video, aspect_ratio)) => match decoding.goal {
            Goal::Describe => StepView::Done(
                OutcomeView::Described(assembled(video, aspect_ratio)),
            ),
            Goal::Check => StepView::Done(OutcomeView::Checked(true)),
            Goal::Download => StepView::Fetch {
                pending: PendingView::Blob,
                url: blob_address(
                    decoding.identity.repository_host,
                    decoding.identity.did,
                    video.blob_ref.cid,
                ),
            },
        },
    }
}

/// The step after the caller has tried to decode the answer of a record
/// read.
pub open spec fn on_decoded(decoding: DecodingView, decoded: Option<ApiResponseView>) -> StepView {
    match decoded {
        None => failed(FailureView::Record(FetchErrorView::Malformed)),
        Some(response) => on_record(decoding, response.value),
    }
}

/// Ends a run in a failure.
fn fail(failure: Failure) -> (r: Step)
    ensures
        r@ == failed(failure@),
{
    Step::Done(Outcome::Failed(failure))
}

/// Goes on with an actor that is resolved.
fn proceed_with_identity(goal: Goal, identity: ResolvedIdentity, resource_key: String) -> (r: Step)
    ensures
        r@ == with_identity(goal, identity@, resource_key@),
{
    let url = record_url(
        identity.repository_host.as_str(),
        identity.did.as_str(),
        resource_key.as_str(),
    );
    Step::Fetch { pending: Pending::Record { goal, identity }, url }
}

/// Goes on with an actor whose DID is known.
fn proceed_with_did(goal: Goal, endpoints: Endpoints, did: String, resource_key: String) -> (r:
    Step)
    ensures
        r@ == with_did(goal, endpoints@, did@, resource_key@),
{
    match endpoints.repository_host {
        Some(host) => proceed_with_identity(
            goal,
            ResolvedIdentity { did, repository_host: host },
            resource_key,
        ),
        None => match document_url(&endpoints, did.as_str()) {
            Ok(url) => Step::Fetch { pending: Pending::Document { goal, did, resource_key }, url },
            Err(e) => fail(Failure::Resolution(e)),
        },
    }
}

/// Starts a run for a post address.
pub fn begin(goal: Goal, endpoints: Endpoints, post_url: &str) -> (r: Step)
    ensures
        r@ == started(goal, endpoints@, post_url@),
{
    let reference = match parse_url(post_url) {
        Ok(reference) => reference,
        Err(e) => {
            return fail(Failure::Validation(e));
        },
    };
    match reference.actor {
        ActorRef::Did(did) => proceed_with_did(goal, endpoints, did, reference.resource_key),
        ActorRef::Handle(handle) => match lookup_url(&endpoints, handle.as_str()) {
            Ok(url) => Step::Fetch {
                pending: Pending::Lookup {
                    goal,
                    endpoints,
                    handle,
                    resource_key: reference.resource_key,
                },
                url,
            },
            Err(e) => fail(Failure::Resolution(e)),
        },
    }
}

/// Starts a run that tells what is known of the video of a post.
pub fn get_video_info(endpoints: Endpoints, post_url: &str) -> (r: Step)
    ensures
        r@ == started(Goal::Describe, endpoints@, post_url@),
{
    begin(Goal::Describe, endpoints, post_url)
}

/// Starts a run that tells whether a post holds a video.
pub fn check_has_video(endpoints: Endpoints, post_url: &str) -> (r: Step)
    ensures
        r@ == started(Goal::Check, endpoints@, post_url@),
{
    begin(Goal::Check, endpoints, post_url)
}

/// Starts a run that gets the bytes of the video of a post.
pub fn download_video(endpoints: Endpoints, post_url: &str) -> (r: Step)
    ensures
        r@ == started(Goal::Download, endpoints@, post_url@),
{
    begin(Goal::Download, endpoints, post_url)
}

impl Pending {
    /// Goes on with the answer to the request: its status and its bytes.
    pub fn received(self, status: u16, body: Vec<u8>) -> (r: Step)
        ensures
            r@ == on_received(self@, status, body@),
    {
        match self {
            Pending::Lookup { goal, endpoints, handle, resource_key } => match did_from_lookup(
                handle,
                status,
                body.as_slice(),
            ) {
                Ok(response) => proceed_with_did(goal, endpoints, response.did, resource_key),
                Err(e) => fail(Failure::Resolution(e)),
            },
            Pending::Document { goal, did, resource_key } => match host_from_document(
                status,
                body.as_slice(),
            ) {
                Ok(host) => proceed_with_identity(
                    goal,
                    ResolvedIdentity { did, repository_host: host },
                    resource_key,
                ),
                Err(e) => fail(Failure::Resolution(e)),
            },
            Pending::Record { goal, identity } => if is_success(status) {
                Step::Decode { decoding: Decoding { goal, identity }, body }
            } else {
                fail(Failure::Record(rejected_record(status, body.as_slice())))
            },
            Pending::Blob => if is_success(status) {
                Step::Done(Outcome::Downloaded(body))
            } else {
                fail(Failure::Blob(rejected_blob(status, body.as_slice())))
            },
        }
    }

    /// Goes on after the request has had no answer, for the reason told in
    /// `detail`.
    pub fn unreachable(self, detail: String) -> (r: Step)
        ensures
            r@ == on_unreachable(self@, detail@),
    {
        match self {
            Pending::Lookup { .. } => fail(
                Failure::Resolution(ResolutionError::LookupUnreachable { detail }),
            ),
            Pending::Document { .. } => fail(
                Failure::Resolution(ResolutionError::DocumentUnreachable { detail }),
            ),
            Pending::Record { .. } => fail(Failure::Record(FetchError::Unreachable { detail })),
            Pending::Blob => fail(Failure::Blob(FetchError::Unreachable { detail })),
        }
    }
}

impl Decoding {
    /// Goes on with the decoded answer of the record read, or with nothing
    /// where the bytes did not decode.
    pub fn decoded(self, decoded: Option<ApiResponse>) -> (r: Step)
        ensures
            r@ == on_decoded(self@, response_view(decoded)),
    {
        let record = match decoded {
            Some(response) => response.value,
            None => {
                return fail(Failure::Record(FetchError::Malformed));
            },
        };
        match extract_video(record) {
            Err(e) => match self.goal {
                Goal::Check => Step::Done(Outcome::Checked(false)),
                _ => fail(Failure::Content(e)),
            },
            Ok((video, aspect_ratio)) => match self.goal {
                Goal::Describe => Step::Done(Outcome::Described(assemble(video, aspect_ratio))),
                Goal::Check => Step::Done(Outcome::Checked(true)),
                Goal::Download => {
                    let url = blob_url(
                        self.identity.repository_host.as_str(),
                        self.identity.did.as_str(),
                        video.blob_ref.cid.as_str(),
                    );
                    Step::Fetch { pending: Pending::Blob, url }
                },
            },
        }
    }
}

/// An address that is not accepted ends the run at its first step, with the
/// reason: nothing is fetched.
pub proof fn law_rejected_address_ends_run(goal: Goal, endpoints: EndpointsView, url: Seq<char>)
    requires
        parsed(url) is Err,
    ensures
        started(goal, endpoints, url) == failed(FailureView::Validation(parsed(url)->Err_0)),
{
}

/// A run for an address that lacks the segment `profile` or the segment
/// `post`, or has its first `post` no later than its first `profile`, ends at
/// its first step in a failure of validation: nothing is fetched.
pub proof fn law_segments_required(goal: Goal, endpoints: EndpointsView, url: Seq<char>)
    requires
        ({
            let parts = split(url, '/');
            ||| !parts.contains("profile"@)
            ||| !parts.contains("post"@)
            ||| position(parts, "post"@) <= position(parts, "profile"@)
        }),
    ensures
        started(goal, endpoints, url) matches StepView::Done(
            OutcomeView::Failed(FailureView::Validation(_)),
        ),
{
    law_segments_of_address(url);
}

/// An actor that the address names by a DID is not looked up: the run goes
/// on as one that knows the DID.
pub proof fn law_did_is_not_looked_up(goal: Goal, endpoints: EndpointsView, url: Seq<char>)
    requires
        parsed(url) matches Ok(reference) && reference.actor is Did,
    ensures
        started(goal, endpoints, url) == with_did(
            goal,
            endpoints,
            parsed(url)->Ok_0.actor->Did_0,
            parsed(url)->Ok_0.resource_key,
        ),
        !(started(goal, endpoints, url) matches StepView::Fetch {
            pending: PendingView::Lookup { .. },
            ..
        }),
{
}

/// A run ends in a failure of resolution when the DID document that arrives
/// lists no service with the `id` `#atproto_pds`, whatever else it lists.
pub proof fn law_document_without_repository_ends_run(
    goal: Goal,
    did: Seq<char>,
    resource_key: Seq<char>,
    status: u16,
    body: Seq<u8>,
    doc: Json,
)
    requires
        succeeded(status),
        json_decoded(body) == Some(doc),
        lists_no_repository_service(doc),
    ensures
        on_received(PendingView::Document { goal, did, resource_key }, status, body) == failed(
            FailureView::Resolution(ResolutionErrorView::NoRepositoryService),
        ),
{
    law_document_without_repository_service(status, body, doc);
}

/// For a post without an attachment, a run that checks answers `false`, and
/// a run that describes or downloads fails with `NoEmbed`: the run that
/// downloads asks for no blob.
pub proof fn law_post_without_embed(identity: ResolvedIdentityView, response: ApiResponseView)
    requires
        response.value.embed is None,
    ensures
        on_decoded(DecodingView { goal: Goal::Check, identity }, Some(response)) == StepView::Done(
            OutcomeView::Checked(false),
        ),
        on_decoded(DecodingView { goal: Goal::Describe, identity }, Some(response)) == failed(
            FailureView::Content(ContentErrorView::NoEmbed),
        ),
        on_decoded(DecodingView { goal: Goal::Download, identity }, Some(response)) == failed(
            FailureView::Content(ContentErrorView::NoEmbed),
        ),
{
}

/// A run that checks never fails for want of a video, and a run of another
/// kind never asks for a blob of a post that has none.
pub proof fn law_absence_is_benign(decoding: DecodingView, response: ApiResponseView)
    requires
        extracted(response.value) is Err,
    ensures
        decoding.goal == Goal::Check ==> on_decoded(decoding, Some(response)) == StepView::Done(
            OutcomeView::Checked(false),
        ),
        decoding.goal != Goal::Check ==> on_decoded(decoding, Some(response)) == failed(
            FailureView::Content(extracted(response.value)->Err_0),
        ),
{
}

/// For a post with a video attachment that tells its content, a run that
/// describes ends with what the attachment tells, unchanged; a run that
/// checks answers `true`; a run that downloads asks for the blob under the
/// content address.
pub proof fn law_video_post(
    identity: ResolvedIdentityView,
    cid: Seq<char>,
    mime_type: Seq<char>,
    size: Option<u64>,
    aspect_ratio: Option<AspectRatio>,
)
    ensures
        ({
            let response = ApiResponseView {
                value: PostRecordView {
                    embed: Some(
                        EmbedView {
                            embed_type: video_kind(),
                            video: Some(
                                VideoBlobView { blob_ref: BlobRefView { cid }, mime_type, size },
                            ),
                            aspect_ratio,
                        },
                    ),
                },
            };
            &&& on_decoded(DecodingView { goal: Goal::Describe, identity }, Some(response))
                == StepView::Done(
                OutcomeView::Described(
                    VideoInfoView { cid, mime_type, size_bytes: size, aspect_ratio },
                ),
            )
            &&& on_decoded(DecodingView { goal: Goal::Check, identity }, Some(response))
                == StepView::Done(OutcomeView::Checked(true))
            &&& on_decoded(DecodingView { goal: Goal::Download, identity }, Some(response))
                == StepView::Fetch {
                pending: PendingView::Blob,
                url: blob_address(identity.repository_host, identity.did, cid),
            }
        }),
{
}

/// A record read that is answered with a status other than success fails
/// the run, whatever the run is for: a run that checks does not answer
/// `false`. The status 404 gives another failure than the status 500.
pub proof fn law_record_status_is_passed_on(
    goal: Goal,
    identity: ResolvedIdentityView,
    status: u16,
    body: Seq<u8>,
)
    requires
        !succeeded(status),
    ensures
        on_received(PendingView::Record { goal, identity }, status, body) == failed(
            FailureView::Record(
                record_rejection(status, upstream_note(text_read(body, "message"@))),
            ),
        ),
        on_received(PendingView::Record { goal, identity }, 404, body) == failed(
            FailureView::Record(FetchErrorView::NotFound),
        ),
        on_received(PendingView::Record { goal, identity }, 500, body) == failed(
            FailureView::Record(
                FetchErrorView::Status {
                    status: 500,
                    message: upstream_note(text_read(body, "message"@)),
                },
            ),
        ),
        on_received(PendingView::Record { goal, identity }, 404, body) != on_received(
            PendingView::Record { goal, identity },
            500,
            body,
        ),
{
}

/// The bytes that a run hands out are the bytes that the blob read was
/// answered with.
pub proof fn law_blob_is_handed_out_unchanged(status: u16, body: Seq<u8>)
    requires
        succeeded(status),
    ensures
        on_received(PendingView::Blob, status, body) == StepView::Done(
            OutcomeView::Downloaded(body),
        ),
{
}

/// A DID of a method other than `web` and `plc` ends the run at once, where
/// no repository host is fixed: nothing is fetched for it.
pub proof fn law_unsupported_method_ends_run(
    goal: Goal,
    endpoints: EndpointsView,
    did: Seq<char>,
    resource_key: Seq<char>,
)
    requires
        endpoints.repository_host is None,
        !"did:web:"@.is_prefix_of(did),
        !"did:plc:"@.is_prefix_of(did),
    ensures
        with_did(goal, endpoints, did, resource_key) == failed(
            FailureView::Resolution(ResolutionErrorView::UnsupportedMethod),
        ),
{
}

/// A run that checks answers whether a run that describes would have a
/// video to describe. Up to the post the two runs go the same way.
pub proof fn law_check_follows_describe(identity: ResolvedIdentityView, response: ApiResponseView)
    ensures
        on_decoded(DecodingView { goal: Goal::Check, identity }, Some(response)) == StepView::Done(
            OutcomeView::Checked(
                on_decoded(
                    DecodingView { goal: Goal::Describe, identity },
                    Some(response),
                ) matches StepView::Done(OutcomeView::Described(_)),
            ),
        ),
{
}

/// The same wait, for another goal.
pub open spec fn with_goal(pending: PendingView, goal: Goal) -> PendingView {
    match pending {
        PendingView::Lookup { endpoints, handle, resource_key, .. } => PendingView::Lookup {
            goal,
            endpoints,
            handle,
            resource_key,
        },
        PendingView::Document { did, resource_key, .. } => PendingView::Document {
            goal,
            did,
            resource_key,
        },
        PendingView::Record { identity, .. } => PendingView::Record { goal, identity },
        PendingView::Blob => PendingView::Blob,
    }
}

/// A failure before the post is read does not depend on what the run is for:
/// where a run fails at its first step, or on an answer, or for want of one,
/// a run for any other goal fails there in the same way. So a run that checks
/// passes on every failure that a run that describes would meet there.
pub proof fn law_failures_are_the_same_for_every_goal(
    goal: Goal,
    other: Goal,
    endpoints: EndpointsView,
    url: Seq<char>,
    pending: PendingView,
    status: u16,
    body: Seq<u8>,
    detail: Seq<char>,
)
    ensures
        started(goal, endpoints, url) matches StepView::Done(OutcomeView::Failed(failure))
            ==> started(other, endpoints, url) == failed(failure),
        on_received(with_goal(pending, goal), status, body) matches StepView::Done(
            OutcomeView::Failed(failure),
        ) ==> on_received(with_goal(pending, other), status, body) == failed(failure),
        on_unreachable(with_goal(pending, goal), detail) == on_unreachable(
            with_goal(pending, other),
            detail,
        ),
        on_unreachable(pending, detail) matches StepView::Done(OutcomeView::Failed(_)),
{
}

/// How many requests a run may still make of its caller, at most: a lookup,
/// a DID document, a post, its decoding and a blob, each once and in this
/// order.
pub open spec fn requests_left(step: StepView) -> nat {
    match step {
        StepView::Fetch { pending: PendingView::Lookup { .. }, .. } => 5,
        StepView::Fetch { pending: PendingView::Document { .. }, .. } => 4,
        StepView::Fetch { pending: PendingView::Record { .. }, .. } => 3,
        StepView::Decode { .. } => 2,
        StepView::Fetch { pending: PendingView::Blob, .. } => 1,
        StepView::Done(_) => 0,
    }
}

/// Every answer takes a run further: no request is made a second time, and
/// a run ends after five requests at most. A failure ends the run at once.
pub proof fn law_runs_go_forward(
    pending: PendingView,
    url: Seq<char>,
    status: u16,
    body: Seq<u8>,
    detail: Seq<char>,
    decoding: DecodingView,
    decoded: Option<ApiResponseView>,
)
    ensures
        requests_left(on_received(pending, status, body)) < requests_left(
            StepView::Fetch { pending, url },
        ),
        requests_left(on_unreachable(pending, detail)) == 0,
        requests_left(on_decoded(decoding, decoded)) < requests_left(
            StepView::Decode { decoding, body },
        ),
        on_decoded(decoding, decoded) matches StepView::Fetch { pending: next, .. } ==> next
            == PendingView::Blob && decoding.goal == Goal::Download,
{
}

} // verus!
