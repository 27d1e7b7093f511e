//! The attachment of a post: whether it is a video, and which.

use vstd::prelude::*;
use crate::model::agrees;
use crate::text::same_text;
use crate::types::{
    AspectRatio, BlobRefView, EmbedView, PostRecord, PostRecordView, VideoBlob, VideoBlobView,
};

verus! {

/// Why a post has no video to offer. None of these is a fault: the post is
/// as it should be, and holds no video.
#[derive(Debug, Clone, PartialEq, Eq)]
pub enum ContentError {
    /// The post has no attachment.
    NoEmbed,
    /// The attachment is of another kind, which is told.
    NotAVideo { embed_type: String },
    /// The attachment is a video, and says nothing of its content.
    EmptyVideoEmbed,
}

/// What is told of a video: its content address, the kind of content it is
/// said to be, its length in bytes and its shape, as far as they are known.
#[derive(Debug, Clone, PartialEq, Eq)]
pub struct VideoInfo {
    pub cid: String,
    pub mime_type: String,
    pub size_bytes: Option<u64>,
    pub aspect_ratio: Option<AspectRatio>,
}

/// Model of a [`ContentError`].
pub enum ContentErrorView {
    NoEmbed,
    NotAVideo { embed_type: Seq<char> },
    EmptyVideoEmbed,
}

/// Model of a [`VideoInfo`].
pub struct VideoInfoView {
    pub cid: Seq<char>,
    pub mime_type: Seq<char>,
    pub size_bytes: Option<u64>,
    pub aspect_ratio: Option<AspectRatio>,
}

impl View for ContentError {
    type V = ContentErrorView;

    open spec fn view(&self) -> ContentErrorView {
        match self {
            ContentError::NoEmbed => ContentErrorView::NoEmbed,
            ContentError::NotAVideo { embed_type } => ContentErrorView::NotAVideo {
                embed_type: embed_type@,
            },
            ContentError::EmptyVideoEmbed => ContentErrorView::EmptyVideoEmbed,
        }
    }
}

impl View for VideoInfo {
    type V = VideoInfoView;

    open spec fn view(&self) -> VideoInfoView {
        VideoInfoView {
            cid: self.cid@,
            mime_type: self.mime_type@,
            size_bytes: self.size_bytes,
            aspect_ratio: self.aspect_ratio,
        }
    }
}

/// The name of the kind of attachment that is a video.
pub open spec fn video_kind() -> Seq<char> {
    "app.bsky.embed.video"@
}

/// The video that a post holds, with its shape where the attachment tells
/// it.
pub open spec fn extracted(record: PostRecordView) -> Result<
    (VideoBlobView, Option<AspectRatio>),
    ContentErrorView,
> {
    match record.embed {
        None => Err(ContentErrorView::NoEmbed),
        Some(embed) => if embed.embed_type != video_kind() {
            Err(ContentErrorView::NotAVideo { embed_type: embed.embed_type })
        } else {
            match embed.video {
                None => Err(ContentErrorView::EmptyVideoEmbed),
                Some(video) => Ok((video, embed.aspect_ratio)),
            }
        },
    }
}

/// What is told of a video, put together.
pub open spec fn assembled(video: VideoBlobView, aspect_ratio: Option<AspectRatio>) -> VideoInfoView {
    VideoInfoView {
        cid: video.blob_ref.cid,
        mime_type: video.mime_type,
        size_bytes: video.size,
        aspect_ratio,
    }
}

/// What is told of the video that a post holds.
pub open spec fn described(record: PostRecordView) -> Result<VideoInfoView, ContentErrorView> {
    match extracted(record) {
        Ok((video, aspect_ratio)) => Ok(assembled(video, aspect_ratio)),
        Err(e) => Err(e),
    }
}

/// The video that a post holds, with its shape where the attachment tells
/// it.
pub fn extract_video(record: PostRecord) -> (r: Result<
    (VideoBlob, Option<AspectRatio>),
    ContentError,
>)
    ensures
        agrees(r, extracted(record@)),
{
    let embed = match record.embed {
        Some(embed) => embed,
        None => {
            return Err(ContentError::NoEmbed);
        },
    };
    if !same_text(embed.embed_type.as_str(), "app.bsky.embed.video") {
        return Err(ContentError::NotAVideo { embed_type: embed.embed_type });
    }
    match embed.video {
        Some(video) => Ok((video, embed.aspect_ratio)),
        None => Err(ContentError::EmptyVideoEmbed),
    }
}

/// Puts together what is told of a video.
pub fn assemble(video: VideoBlob, aspect_ratio: Option<AspectRatio>) -> (r: VideoInfo)
    ensures
        r@ == assembled(video@, aspect_ratio),
{
    VideoInfo {
        cid: video.blob_ref.cid,
        mime_type: video.mime_type,
        size_bytes: video.size,
        aspect_ratio,
    }
}

/// What is told of the video that a post holds.
pub fn describe(record: PostRecord) -> (r: Result<VideoInfo, ContentError>)
    ensures
        agrees(r, described(record@)),
{
    match extract_video(record) {
        Ok((video, aspect_ratio)) => Ok(assemble(video, aspect_ratio)),
        Err(e) => Err(e),
    }
}

/// A post without an attachment has no video: the answer is `NoEmbed`.
pub proof fn law_no_embed(record: PostRecordView)
    requires
        record.embed is None,
    ensures
        extracted(record) == Err::<(VideoBlobView, Option<AspectRatio>), ContentErrorView>(
            ContentErrorView::NoEmbed,
        ),
        described(record) == Err::<VideoInfoView, ContentErrorView>(ContentErrorView::NoEmbed),
{
}

/// What a video attachment says of its content comes out as it went in: the
/// content address, the kind of content, the length and the shape.
pub proof fn law_descriptor_round_trip(
    cid: Seq<char>,
    mime_type: Seq<char>,
    size: Option<u64>,
    aspect_ratio: Option<AspectRatio>,
)
    ensures
        described(
            PostRecordView {
                embed: Some(
                    EmbedView {
                        embed_type: video_kind(),
                        video: Some(
                            VideoBlobView { blob_ref: BlobRefView { cid }, mime_type, size },
                        ),
                        aspect_ratio,
                    },
                ),
            },
        ) == Ok::<VideoInfoView, ContentErrorView>(
            VideoInfoView { cid, mime_type, size_bytes: size, aspect_ratio },
        ),
{
}

} // verus!
