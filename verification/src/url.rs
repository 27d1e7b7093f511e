//! Reading a post address: which actor it names and which record of theirs.

use vstd::prelude::*;
use vstd::string::StrSliceExecFns;
use crate::model::agrees;
use crate::text::{
    chars_of, first_segment, is_space, lemma_position, lemma_position_is_first, lemma_split_around,
    lemma_split_first, lemma_trimmed_within, position, split, split_bounds, starts_with, trim,
    trimmed,
};

verus! {

/// The actor that an address names: by a handle, which has to be looked up,
/// or by a DID, which is taken as it stands.
#[derive(Debug, Clone, PartialEq, Eq)]
pub enum ActorRef {
    Handle(String),
    Did(String),
}

/// What an address points at: an actor and the key of one of their records.
#[derive(Debug, Clone, PartialEq, Eq)]
pub struct PostReference {
    pub actor: ActorRef,
    pub resource_key: String,
}

/// Why an address was not accepted.
#[derive(Debug, Clone, Copy, PartialEq, Eq, Structural)]
pub enum ValidationError {
    /// Nothing is left of the address once white space is trimmed.
    Empty,
    /// The address begins with neither `http://` nor `https://`.
    MissingScheme,
    /// The segment `profile` or the segment `post` is missing, or nothing
    /// follows it.
    MissingSegments,
    /// The first `post` segment does not come after the first `profile`
    /// segment.
    OutOfOrder,
    /// The segment after `profile` is empty.
    EmptyActor,
    /// The segment after `post` is empty.
    EmptyResourceKey,
}

/// Model of an [`ActorRef`].
pub enum ActorRefView {
    Handle(Seq<char>),
    Did(Seq<char>),
}

/// Model of a [`PostReference`].
pub struct PostReferenceView {
    pub actor: ActorRefView,
    pub resource_key: Seq<char>,
}

impl View for ActorRef {
    type V = ActorRefView;

    open spec fn view(&self) -> ActorRefView {
        match self {
            ActorRef::Handle(handle) => ActorRefView::Handle(handle@),
            ActorRef::Did(did) => ActorRefView::Did(did@),
        }
    }
}

impl View for ValidationError {
    type V = ValidationError;

    open spec fn view(&self) -> ValidationError {
        *self
    }
}

impl View for PostReference {
    type V = PostReferenceView;

    open spec fn view(&self) -> PostReferenceView {
        PostReferenceView { actor: self.actor@, resource_key: self.resource_key@ }
    }
}

/// Whether a text begins with one of the two accepted schemes.
pub open spec fn has_scheme(text: Seq<char>) -> bool {
    "http://"@.is_prefix_of(text) || "https://"@.is_prefix_of(text)
}

/// Whether a text names a DID: it begins with `did:`.
pub open spec fn is_did(actor: Seq<char>) -> bool {
    "did:"@.is_prefix_of(actor)
}

/// The actor that a text names.
pub open spec fn classified(actor: Seq<char>) -> ActorRefView {
    if is_did(actor) {
        ActorRefView::Did(actor)
    } else {
        ActorRefView::Handle(actor)
    }
}

/// What an address is read as. The address is trimmed and cut at every `/`.
/// The first segment `profile` is followed by the actor, the first segment
/// `post` by the record key.
pub open spec fn parsed(url: Seq<char>) -> Result<PostReferenceView, ValidationError> {
    let text = trimmed(url);
    let parts = split(text, '/');
    let profile = position(parts, "profile"@);
    let post = position(parts, "post"@);
    if text.len() == 0 {
        Err(ValidationError::Empty)
    } else if !has_scheme(text) {
        Err(ValidationError::MissingScheme)
    } else if profile + 1 >= parts.len() || post + 1 >= parts.len() {
        Err(ValidationError::MissingSegments)
    } else if post <= profile {
        Err(ValidationError::OutOfOrder)
    } else if parts[profile + 1].len() == 0 {
        Err(ValidationError::EmptyActor)
    } else if parts[post + 1].len() == 0 {
        Err(ValidationError::EmptyResourceKey)
    } else {
        Ok(
            PostReferenceView {
                actor: classified(parts[profile + 1]),
                resource_key: parts[post + 1],
            },
        )
    }
}

/// Tells whether a text names a DID.
pub fn names_did(actor: &str) -> (r: bool)
    ensures
        r == is_did(actor@),
{
    let chars = chars_of(actor);
    let prefix = chars_of("did:");
    starts_with(&chars, &prefix)
}

/// The actor that a text names.
pub fn classify(actor: String) -> (r: ActorRef)
    ensures
        r@ == classified(actor@),
{
    if names_did(actor.as_str()) {
        ActorRef::Did(actor)
    } else {
        ActorRef::Handle(actor)
    }
}

/// Reads a post address of the shape
/// `https://{domain}/profile/{handle or DID}/post/{record key}`.
pub fn parse_url(url: &str) -> (r: Result<PostReference, ValidationError>)
    ensures
        agrees(r, parsed(url@)),
{
    let text = trim(url);
    let chars = chars_of(text);
    if chars.len() == 0 {
        return Err(ValidationError::Empty);
    }
    let http = chars_of("http://");
    let https = chars_of("https://");
    if !starts_with(&chars, &http) && !starts_with(&chars, &https) {
        return Err(ValidationError::MissingScheme);
    }
    let bounds = split_bounds(&chars, '/');
    let profile_word = chars_of("profile");
    let post_word = chars_of("post");
    let profile = first_segment(&chars, &bounds, &profile_word);
    let post = first_segment(&chars, &bounds, &post_word);
    proof {
        lemma_position_is_first(split(chars@, '/'), "profile"@);
        lemma_position_is_first(split(chars@, '/'), "post"@);
    }
    if bounds.len() - profile <= 1 || bounds.len() - post <= 1 {
        return Err(ValidationError::MissingSegments);
    }
    if post <= profile {
        return Err(ValidationError::OutOfOrder);
    }
    let (actor_from, actor_to) = bounds[profile + 1];
    let (key_from, key_to) = bounds[post + 1];
    if actor_from == actor_to {
        return Err(ValidationError::EmptyActor);
    }
    if key_from == key_to {
        return Err(ValidationError::EmptyResourceKey);
    }
    let actor = text.substring_char(actor_from, actor_to).to_owned();
    let resource_key = text.substring_char(key_from, key_to).to_owned();
    Ok(PostReference { actor: classify(actor), resource_key })
}

/// An address is rejected if, once trimmed, it has no segment `profile`, or no
/// segment `post`, or if its first `post` segment does not come after its
/// first `profile` segment.
pub proof fn law_segments_in_order(url: Seq<char>)
    requires
        ({
            let parts = split(trimmed(url), '/');
            ||| !parts.contains("profile"@)
            ||| !parts.contains("post"@)
            ||| position(parts, "post"@) <= position(parts, "profile"@)
        }),
    ensures
        parsed(url) is Err,
{
    let parts = split(trimmed(url), '/');
    lemma_position_is_first(parts, "profile"@);
    lemma_position_is_first(parts, "post"@);
}

/// Where an address is accepted, the actor and the record key are the
/// segments that follow the first `profile` and the first `post`, neither is
/// empty, and the actor is a DID exactly if it begins with `did:`.
pub proof fn law_accepted_parts(url: Seq<char>)
    requires
        parsed(url) is Ok,
    ensures
        ({
            let parts = split(trimmed(url), '/');
            let profile = position(parts, "profile"@);
            let post = position(parts, "post"@);
            let reference = parsed(url)->Ok_0;
            &&& 0 <= profile < post < parts.len() - 1
            &&& parts[profile] == "profile"@
            &&& parts[post] == "post"@
            &&& reference.resource_key == parts[post + 1]
            &&& reference.resource_key.len() > 0
            &&& reference.actor == classified(parts[profile + 1])
            &&& parts[profile + 1].len() > 0
            &&& reference.actor is Did <==> is_did(parts[profile + 1])
        }),
{
    let parts = split(trimmed(url), '/');
    lemma_position_is_first(parts, "profile"@);
    lemma_position_is_first(parts, "post"@);
}

/// Where an address is accepted, its segments `profile` and `post` are found
/// at the same places whether or not the address is trimmed first.
pub proof fn lemma_trimming_keeps_positions(url: Seq<char>)
    requires
        parsed(url) is Ok,
    ensures
        position(split(url, '/'), "profile"@) == position(split(trimmed(url), '/'), "profile"@),
        position(split(url, '/'), "post"@) == position(split(trimmed(url), '/'), "post"@),
        split(url, '/').len() == split(trimmed(url), '/').len(),
{
    reveal_strlit("http://");
    reveal_strlit("https://");
    reveal_strlit("profile");
    reveal_strlit("post");
    let text = trimmed(url);
    let inner = split(text, '/');
    let outer = split(url, '/');
    let (head, tail) = lemma_trimmed_within(url);
    lemma_split_around(head, text, tail, '/');
    lemma_position_is_first(inner, "profile"@);
    lemma_position_is_first(inner, "post"@);
    assert(text[0] == 'h') by {
        if "http://"@.is_prefix_of(text) {
            assert(text.subrange(0, "http://"@.len() as int)[0] == 'h');
        } else {
            assert(text.subrange(0, "https://"@.len() as int)[0] == 'h');
        }
    }
    lemma_split_first(text, '/');
    assert(outer[0] == head + inner[0]);
    assert(outer[0][0] != 'p') by {
        if head.len() > 0 {
            assert(is_space(head[0]));
        }
    }
    assert("profile"@[0] == 'p');
    assert("post"@[0] == 'p');
    lemma_position(outer, "profile"@, position(inner, "profile"@));
    lemma_position(outer, "post"@, position(inner, "post"@));
}

/// An address is rejected if it has no segment `profile`, or no segment
/// `post`, or if its first `post` segment does not come after its first
/// `profile` segment.
pub proof fn law_segments_of_address(url: Seq<char>)
    requires
        ({
            let parts = split(url, '/');
            ||| !parts.contains("profile"@)
            ||| !parts.contains("post"@)
            ||| position(parts, "post"@) <= position(parts, "profile"@)
        }),
    ensures
        parsed(url) is Err,
{
    if parsed(url) is Ok {
        let parts = split(url, '/');
        lemma_trimming_keeps_positions(url);
        lemma_position_is_first(parts, "profile"@);
        lemma_position_is_first(parts, "post"@);
    }
}

} // verus!
