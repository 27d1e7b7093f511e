//! The records that the repository and the directory hand out, as decoded
//! values, each with its mathematical model.

use vstd::prelude::*;

verus! {

/// The answer of a record read: the record under the key `value`.
#[derive(Debug, Clone, PartialEq, Eq)]
pub struct ApiResponse {
    pub value: PostRecord,
}

/// A post, as far as its attachment goes.
#[derive(Debug, Clone, PartialEq, Eq)]
pub struct PostRecord {
    pub embed: Option<Embed>,
}

/// An attachment of a post, tagged by the name of its kind.
#[derive(Debug, Clone, PartialEq, Eq)]
pub struct Embed {
    pub embed_type: String,
    pub video: Option<VideoBlob>,
    pub aspect_ratio: Option<AspectRatio>,
}

/// Width and height of a picture.
#[derive(Debug, Clone, Copy, PartialEq, Eq)]
pub struct AspectRatio {
    pub width: u32,
    pub height: u32,
}

/// What an attachment says of its video: where the content is, what kind of
/// content it is said to be, and how long.
#[derive(Debug, Clone, PartialEq, Eq)]
pub struct VideoBlob {
    pub blob_ref: BlobRef,
    pub mime_type: String,
    pub size: Option<u64>,
}

/// The content address of a blob.
#[derive(Debug, Clone, PartialEq, Eq)]
pub struct BlobRef {
    pub cid: String,
}

/// The answer of a handle lookup.
#[derive(Debug, Clone, PartialEq, Eq)]
pub struct ResolveResponse {
    pub did: String,
}

/// Model of a [`BlobRef`].
pub struct BlobRefView {
    pub cid: Seq<char>,
}

/// Model of a [`VideoBlob`].
pub struct VideoBlobView {
    pub blob_ref: BlobRefView,
    pub mime_type: Seq<char>,
    pub size: Option<u64>,
}

/// Model of an [`Embed`].
pub struct EmbedView {
    pub embed_type: Seq<char>,
    pub video: Option<VideoBlobView>,
    pub aspect_ratio: Option<AspectRatio>,
}

/// Model of a [`PostRecord`].
pub struct PostRecordView {
    pub embed: Option<EmbedView>,
}

/// Model of an [`ApiResponse`].
pub struct ApiResponseView {
    pub value: PostRecordView,
}

/// Model of a [`ResolveResponse`].
pub struct ResolveResponseView {
    pub did: Seq<char>,
}

impl View for BlobRef {
    type V = BlobRefView;

    open spec fn view(&self) -> BlobRefView {
        BlobRefView { cid: self.cid@ }
    }
}

impl View for VideoBlob {
    type V = VideoBlobView;

    open spec fn view(&self) -> VideoBlobView {
        VideoBlobView { blob_ref: self.blob_ref@, mime_type: self.mime_type@, size: self.size }
    }
}

impl View for Embed {
    type V = EmbedView;

    open spec fn view(&self) -> EmbedView {
        EmbedView {
            embed_type: self.embed_type@,
            video: match self.video {
                Some(video) => Some(video@),
                None => None,
            },
            aspect_ratio: self.aspect_ratio,
        }
    }
}

impl View for PostRecord {
    type V = PostRecordView;

    open spec fn view(&self) -> PostRecordView {
        PostRecordView {
            embed: match self.embed {
                Some(embed) => Some(embed@),
                None => None,
            },
        }
    }
}

impl View for ApiResponse {
    type V = ApiResponseView;

    open spec fn view(&self) -> ApiResponseView {
        ApiResponseView { value: self.value@ }
    }
}

impl View for ResolveResponse {
    type V = ResolveResponseView;

    open spec fn view(&self) -> ResolveResponseView {
        ResolveResponseView { did: self.did@ }
    }
}

} // verus!
