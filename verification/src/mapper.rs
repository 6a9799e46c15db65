//! The codec's frame contents as the library's and back, and
//! the view of a whole tag as a sequence of records.

use crate::codec::{stored_content, stored_frames, tag_frames, StoredFrame};
use crate::content::FrameContent;
use crate::error::{TagError, TagErrorView};
use crate::record::{frame_record, record_of, GenericRecord, RecordView};
use vstd::prelude::*;

verus! {

/// The library's content for a content of the codec: `None` for every
/// variant outside the supported set.
pub fn content_from_codec(content: id3::frame::Content) -> (converted: Option<FrameContent>)
    ensures
        match converted {
            Some(held) => stored_content(content) == Some(held@),
            None => stored_content(content) is None,
        },
{
    match content {
        id3::frame::Content::Text(text) => Some(FrameContent::Text(text)),
        id3::frame::Content::ExtendedText(held) => Some(
            FrameContent::ExtendedText { description: held.description, value: held.value },
        ),
        id3::frame::Content::Link(link) => Some(FrameContent::Link(link)),
        id3::frame::Content::ExtendedLink(held) => Some(
            FrameContent::ExtendedLink { description: held.description, link: held.link },
        ),
        id3::frame::Content::Comment(held) => Some(
            FrameContent::Comment {
                lang: held.lang,
                description: held.description,
                text: held.text,
            },
        ),
        id3::frame::Content::Lyrics(held) => Some(
            FrameContent::Lyrics {
                lang: held.lang,
                description: held.description,
                text: held.text,
            },
        ),
        id3::frame::Content::Picture(held) => Some(
            FrameContent::Picture {
                mime_type: held.mime_type,
                picture_type: held.picture_type,
                description: held.description,
                data: held.data,
            },
        ),
        id3::frame::Content::EncapsulatedObject(held) => Some(
            FrameContent::EncapsulatedObject {
                mime_type: held.mime_type,
                filename: held.filename,
                description: held.description,
                data: held.data,
            },
        ),
        id3::frame::Content::Unknown(held) => Some(FrameContent::Unknown { data: held.data }),
        _ => None,
    }
}

/// The codec's content for a content of the library. Unknown content is
/// marked with the tag version that the library writes.
pub fn content_to_codec(content: FrameContent) -> (converted: id3::frame::Content)
    ensures
        stored_content(converted) == Some(content@),
        converted matches id3::frame::Content::Unknown(held) ==> held.version
            == id3::Version::Id3v24,
{
    match content {
        FrameContent::Text(text) => id3::frame::Content::Text(text),
        FrameContent::ExtendedText { description, value } => id3::frame::Content::ExtendedText(
            id3::frame::ExtendedText { description, value },
        ),
        FrameContent::Link(link) => id3::frame::Content::Link(link),
        FrameContent::ExtendedLink { description, link } => id3::frame::Content::ExtendedLink(
            id3::frame::ExtendedLink { description, link },
        ),
        FrameContent::Comment { lang, description, text } => id3::frame::Content::Comment(
            id3::frame::Comment { lang, description, text },
        ),
        FrameContent::Lyrics { lang, description, text } => id3::frame::Content::Lyrics(
            id3::frame::Lyrics { lang, description, text },
        ),
        FrameContent::Picture {
            mime_type,
            picture_type,
            description,
            data,
        } => id3::frame::Content::Picture(
            id3::frame::Picture { mime_type, picture_type, description, data },
        ),
        FrameContent::EncapsulatedObject {
            mime_type,
            filename,
            description,
            data,
        } => id3::frame::Content::EncapsulatedObject(
            id3::frame::EncapsulatedObject { mime_type, filename, description, data },
        ),
        FrameContent::Unknown { data } => id3::frame::Content::Unknown(
            id3::frame::Unknown { data, version: id3::Version::Id3v24 },
        ),
    }
}

/// Whether every frame holds content of a supported kind.
pub open spec fn all_supported(frames: Seq<StoredFrame>) -> bool {
    forall|i: int| 0 <= i < frames.len() ==> (#[trigger] frames[i]).content is Some
}

/// Whether the frame at `at` is the first that holds content outside the
/// supported set.
pub open spec fn is_first_unsupported(frames: Seq<StoredFrame>, at: int) -> bool {
    &&& 0 <= at < frames.len()
    &&& frames[at].content is None
    &&& forall|i: int| 0 <= i < at ==> (#[trigger] frames[i]).content is Some
}

/// The records of `frames`: one for each frame, in the same order.
pub open spec fn records_of(frames: Seq<StoredFrame>) -> Seq<RecordView>
    recommends
        all_supported(frames),
{
    Seq::new(frames.len(), |i: int| record_of(frames[i].id, frames[i].content.unwrap()))
}

/// What a sequence of records holds, as mathematical values.
pub open spec fn records_view(records: Seq<GenericRecord>) -> Seq<RecordView> {
    Seq::new(records.len(), |i: int| records[i]@)
}

/// Whether `records` is what a host is to see of `frames`: one record for
/// each frame, in the same order, where every frame holds content of a
/// supported kind; a failure that names the first frame that does not,
/// otherwise.
pub open spec fn is_generic(
    frames: Seq<StoredFrame>,
    records: Result<Vec<GenericRecord>, TagError>,
) -> bool {
    match records {
        Ok(held) => all_supported(frames) && records_view(held@) == records_of(frames),
        Err(error) => exists|at: int|
            is_first_unsupported(frames, at) && error@ == (TagErrorView::UnsupportedContent {
                id: #[trigger] frames[at].id,
            }),
    }
}

/// The records under which a host sees the frames of `tag`: one record for
/// each frame, in the tag's order. Where a frame holds content outside the
/// supported set the whole call fails, with the identifier of the first such
/// frame, and hands out no record at all.
pub fn to_generic(tag: &id3::Tag) -> (records: Result<Vec<GenericRecord>, TagError>)
    ensures
        is_generic(tag_frames(*tag), records),
{
    let frames = stored_frames(tag);
    let ghost stored = tag_frames(*tag);
    let ghost handed = frames@;
    let mut records: Vec<GenericRecord> = Vec::new();
    for pair in it: frames
        invariant
            stored == tag_frames(*tag),
            handed.len() == stored.len(),
            it.seq() == handed,
            forall|i: int|
                0 <= i < handed.len() ==> (#[trigger] handed[i]).0@ == stored[i].id
                    && stored_content(handed[i].1) == stored[i].content,
            records@.len() == it.index(),
            forall|i: int| 0 <= i < it.index() ==> (#[trigger] stored[i]).content is Some,
            forall|i: int|
                0 <= i < it.index() ==> (#[trigger] records@[i])@ == record_of(
                    stored[i].id,
                    stored[i].content.unwrap(),
                ),
    {
        let (id, content) = pair;
        match content_from_codec(content) {
            Some(held) => {
                records.push(frame_record(id, held));
            },
            None => {
                proof {
                    assert(is_first_unsupported(stored, it.index() as int));
                }
                return Err(TagError::UnsupportedContent { id });
            },
        }
    }
    proof {
        assert(records_view(records@) =~= records_of(stored));
    }
    Ok(records)
}

} // verus!
