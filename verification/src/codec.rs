//! The boundary with the `id3` crate: the codec's types as the verifier sees
//! them, and the operations of a tag that are taken on trust.

use crate::content::ContentView;
use id3::TagLike;
use vstd::prelude::*;
use vstd::utf8::encode_utf8;

verus! {

// Plain data of the codec: declared with their public fields and variants,
// which the verifier reads from the crate itself.

#[verifier::external_type_specification]
pub struct ExPictureType(id3::frame::PictureType);

#[verifier::external_type_specification]
pub struct ExVersion(id3::Version);

#[verifier::external_type_specification]
pub struct ExExtendedText(id3::frame::ExtendedText);

#[verifier::external_type_specification]
pub struct ExExtendedLink(id3::frame::ExtendedLink);

#[verifier::external_type_specification]
pub struct ExComment(id3::frame::Comment);

#[verifier::external_type_specification]
pub struct ExLyrics(id3::frame::Lyrics);

#[verifier::external_type_specification]
pub struct ExPicture(id3::frame::Picture);

#[verifier::external_type_specification]
pub struct ExEncapsulatedObject(id3::frame::EncapsulatedObject);

#[verifier::external_type_specification]
pub struct ExUnknown(id3::frame::Unknown);

#[verifier::external_type_specification]
pub struct ExContent(id3::frame::Content);

#[verifier::external_type_specification]
pub struct ExErrorKind(id3::ErrorKind);

#[verifier::external_type_specification]
pub struct ExError(id3::Error);

// What the library never looks into: carried through as opaque values.

#[verifier::external_type_specification]
#[verifier::external_body]
pub struct ExPopularimeter(id3::frame::Popularimeter);

#[verifier::external_type_specification]
#[verifier::external_body]
pub struct ExSynchronisedLyrics(id3::frame::SynchronisedLyrics);

#[verifier::external_type_specification]
#[verifier::external_body]
pub struct ExChapter(id3::frame::Chapter);

#[verifier::external_type_specification]
#[verifier::external_body]
pub struct ExMpegLocationLookupTable(id3::frame::MpegLocationLookupTable);

#[verifier::external_type_specification]
#[verifier::external_body]
pub struct ExPrivate(id3::frame::Private);

#[verifier::external_type_specification]
#[verifier::external_body]
pub struct ExTableOfContents(id3::frame::TableOfContents);

#[verifier::external_type_specification]
#[verifier::external_body]
pub struct ExUniqueFileIdentifier(id3::frame::UniqueFileIdentifier);

#[verifier::external_type_specification]
#[verifier::external_body]
pub struct ExInvolvedPeopleList(id3::frame::InvolvedPeopleList);

#[verifier::external_type_specification]
#[verifier::external_body]
pub struct ExIoError(std::io::Error);

#[verifier::external_type_specification]
#[verifier::external_body]
pub struct ExTag(id3::Tag);

/// A frame as a tag stores it: its identifier, and its content where that is
/// of a supported kind.
pub struct StoredFrame {
    pub id: Seq<char>,
    pub content: Option<ContentView>,
}

/// What `content` is to the library: `None` for every variant outside the
/// supported set.
pub open spec fn stored_content(content: id3::frame::Content) -> Option<ContentView> {
    match content {
        id3::frame::Content::Text(text) => Some(ContentView::Text(text@)),
        id3::frame::Content::ExtendedText(held) => Some(
            ContentView::ExtendedText { description: held.description@, value: held.value@ },
        ),
        id3::frame::Content::Link(link) => Some(ContentView::Link(link@)),
        id3::frame::Content::ExtendedLink(held) => Some(
            ContentView::ExtendedLink { description: held.description@, link: held.link@ },
        ),
        id3::frame::Content::Comment(held) => Some(
            ContentView::Comment {
                lang: held.lang@,
                description: held.description@,
                text: held.text@,
            },
        ),
        id3::frame::Content::Lyrics(held) => Some(
            ContentView::Lyrics {
                lang: held.lang@,
                description: held.description@,
                text: held.text@,
            },
        ),
        id3::frame::Content::Picture(held) => Some(
            ContentView::Picture {
                mime_type: held.mime_type@,
                picture_type: held.picture_type,
                description: held.description@,
                data: held.data@,
            },
        ),
        id3::frame::Content::EncapsulatedObject(held) => Some(
            ContentView::EncapsulatedObject {
                mime_type: held.mime_type@,
                filename: held.filename@,
                description: held.description@,
                data: held.data@,
            },
        ),
        id3::frame::Content::Unknown(held) => Some(ContentView::Unknown { data: held.data@ }),
        _ => None,
    }
}

/// The frames of a tag, in the order in which the tag hands them out.
pub uninterp spec fn tag_frames(tag: id3::Tag) -> Seq<StoredFrame>;

/// Where in `tag` the first frame stands that the codec takes for the same
/// logical frame as `frame`, which is to be added: the frame that gives way
/// to it. The number of frames where there is none.
pub uninterp spec fn tag_conflict(tag: id3::Tag, frame: StoredFrame) -> int;

/// The identifier under which the codec stores a frame that was made with
/// the three-byte identifier `id` of the oldest tag version.
pub uninterp spec fn legacy_frame_id(id: Seq<char>) -> Seq<char>;

/// Whether a frame can be made with `id`: the codec takes identifiers of
/// three or four bytes.
pub open spec fn is_frame_id(id: Seq<char>) -> bool {
    encode_utf8(id).len() == 3 || encode_utf8(id).len() == 4
}

/// The identifier under which the codec stores a frame made with `id`.
pub open spec fn stored_id(id: Seq<char>) -> Seq<char> {
    if encode_utf8(id).len() == 4 {
        id
    } else {
        legacy_frame_id(id)
    }
}

/// What tells the frames under one identifier apart, as the codec sees it.
pub enum Target {
    /// Text and link frames: the identifier alone.
    Alone,
    /// Extended text, extended link and encapsulated object: the
    /// description.
    Described(Seq<char>),
    /// Comment and lyrics: the language and the description.
    Spoken(Seq<char>, Seq<char>),
    /// Picture: the picture type.
    Pictured(id3::frame::PictureType),
    /// Unknown content: no two frames are the same.
    Never,
}

/// What tells a frame with `content` apart from the others under its
/// identifier.
pub open spec fn target_of(content: ContentView) -> Target {
    match content {
        ContentView::Text(_) | ContentView::Link(_) => Target::Alone,
        ContentView::ExtendedText { description, .. } | ContentView::ExtendedLink {
            description,
            ..
        } | ContentView::EncapsulatedObject { description, .. } => Target::Described(description),
        ContentView::Comment { lang, description, .. } | ContentView::Lyrics {
            lang,
            description,
            ..
        } => Target::Spoken(lang, description),
        ContentView::Picture { picture_type, .. } => Target::Pictured(picture_type),
        ContentView::Unknown { .. } => Target::Never,
    }
}

/// The link that `content` holds, if it is a link.
pub open spec fn link_of(content: ContentView) -> Option<Seq<char>> {
    match content {
        ContentView::Link(link) => Some(link),
        _ => None,
    }
}

/// Whether `id` is one of the two link identifiers under which the codec
/// tells frames apart by their link and by nothing else.
pub open spec fn is_told_by_link(id: Seq<char>) -> bool {
    id == "WCOM"@ || id == "WOAR"@
}

/// Whether the codec is sure to take a stored frame with content `stored`
/// for the same logical frame as a new frame with content `added`, both
/// under the identifier `id`.
pub open spec fn takes_for_same(id: Seq<char>, stored: ContentView, added: ContentView) -> bool {
    if is_told_by_link(id) {
        link_of(stored) == link_of(added)
    } else {
        target_of(stored) == target_of(added) && target_of(added) != Target::Never
    }
}

/// Whether the codec is sure to tell a stored frame with content `stored`
/// apart from a new frame with content `added`, both under the identifier
/// `id`. Nothing is said of a picture beside a content that is told by its
/// description: there the codec compares the picture type's name in words
/// with the description.
pub open spec fn tells_apart(id: Seq<char>, stored: ContentView, added: ContentView) -> bool {
    if is_told_by_link(id) {
        link_of(stored) != link_of(added)
    } else {
        &&& !takes_for_same(id, stored, added)
        &&& !(target_of(stored) is Pictured && target_of(added) is Described)
        &&& !(target_of(stored) is Described && target_of(added) is Pictured)
    }
}

/// Whether `conflict` can be where the frame stands that gives way to
/// `frame` among `frames`: such a frame has the identifier of `frame`; it
/// stands at or before every frame that the codec is sure to take for the
/// same logical frame; and it is no frame that the codec is sure to tell
/// apart.
pub open spec fn is_lawful_conflict(
    frames: Seq<StoredFrame>,
    frame: StoredFrame,
    conflict: int,
) -> bool {
    &&& 0 <= conflict < frames.len() ==> frames[conflict].id == frame.id
    &&& forall|i: int|
        0 <= i < frames.len() && (#[trigger] frames[i]).id == frame.id && frames[i].content is Some
            && frame.content is Some ==> {
            &&& takes_for_same(frame.id, frames[i].content.unwrap(), frame.content.unwrap())
                ==> 0 <= conflict <= i
            &&& tells_apart(frame.id, frames[i].content.unwrap(), frame.content.unwrap())
                ==> conflict != i
        }
}

/// `frames` after `frame` was added: the frame at `conflict`, if there is
/// one, has left, and `frame` stands at the end.
pub open spec fn with_frame(frames: Seq<StoredFrame>, frame: StoredFrame, conflict: int) -> Seq<
    StoredFrame,
> {
    if 0 <= conflict < frames.len() {
        frames.remove(conflict).push(frame)
    } else {
        frames.push(frame)
    }
}

/// Whether `frame` stays when the frames with identifier `id` are removed.
pub open spec fn survives_id(frame: StoredFrame, id: Seq<char>) -> bool {
    frame.id != id
}

/// Whether `frame` stays when the pictures of type `picture_type` are
/// removed. Of the frames with the picture identifier only the pictures of
/// another type stay.
pub open spec fn survives_picture_type(
    frame: StoredFrame,
    picture_type: id3::frame::PictureType,
) -> bool {
    frame.id != "APIC"@ || (frame.content matches Some(ContentView::Picture { picture_type: held, .. })
        && held != picture_type)
}

/// Whether `frame` stays when the encapsulated objects with exactly these
/// four values are removed. Of the frames with the object identifier only
/// the objects that differ in one of the four stay.
pub open spec fn survives_object(
    frame: StoredFrame,
    description: Seq<char>,
    mime_type: Seq<char>,
    filename: Seq<char>,
    data: Seq<u8>,
) -> bool {
    frame.id != "GEOB"@ || (frame.content matches Some(
        ContentView::EncapsulatedObject {
            mime_type: held_mime_type,
            filename: held_filename,
            description: held_description,
            data: held_data,
        },
    ) && !(held_description == description && held_mime_type == mime_type && held_filename
        == filename && held_data == data))
}

/// `id3::Tag::new`: the new tag holds no frame.
#[verifier::external_body]
pub(crate) fn empty_tag() -> (tag: id3::Tag)
    ensures
        tag_frames(tag) == Seq::<StoredFrame>::empty(),
{
    id3::Tag::new()
}

/// `id3::Tag::frames`, with `id3::Frame::id` and `id3::Frame::content` on each
/// item: the identifier and a copy of the content of every frame, in the
/// tag's order.
#[verifier::external_body]
pub(crate) fn stored_frames(tag: &id3::Tag) -> (frames: Vec<(String, id3::frame::Content)>)
    ensures
        frames@.len() == tag_frames(*tag).len(),
        forall|i: int|
            0 <= i < frames@.len() ==> (#[trigger] frames@[i]).0@ == tag_frames(*tag)[i].id
                && stored_content(frames@[i].1) == tag_frames(*tag)[i].content,
{
    tag.frames().map(|frame| (frame.id().to_string(), frame.content().clone())).collect()
}

/// `id3::TagLike::add_frame` on a frame made by `id3::Frame::with_content`:
/// the first frame that the codec takes for the same logical frame leaves
/// the tag, and the new frame goes to the end. A four-byte identifier is
/// stored as it is.
///
/// The codec takes two frames for the same where they have the same
/// identifier and the same target: nothing more for text and link frames;
/// the description for extended text, extended link and encapsulated
/// object; the language and the description for comment and lyrics; the
/// picture type for pictures. Unknown content is never the same as any
/// other. Under the identifiers `WCOM` and `WOAR` the link alone decides.
#[verifier::external_body]
pub(crate) fn add_frame(tag: &mut id3::Tag, id: &str, content: id3::frame::Content)
    requires
        is_frame_id(id@),
        stored_content(content) is Some,
    ensures
        ({
            let frame = StoredFrame {
                id: if encode_utf8(id@).len() == 4 {
                    id@
                } else {
                    legacy_frame_id(id@)
                },
                content: stored_content(content),
            };
            let conflict = tag_conflict(*old(tag), frame);
            &&& tag_frames(*final(tag)) == with_frame(tag_frames(*old(tag)), frame, conflict)
            &&& is_lawful_conflict(tag_frames(*old(tag)), frame, conflict)
        }),
{
    tag.add_frame(id3::Frame::with_content(id, content));
}

/// `id3::TagLike::remove`: the frames with identifier `id` leave the tag, and
/// the others stay as they stand.
#[verifier::external_body]
pub(crate) fn remove_by_id(tag: &mut id3::Tag, id: &str)
    ensures
        tag_frames(*final(tag)) == tag_frames(*old(tag)).filter(
            |frame: StoredFrame| survives_id(frame, id@),
        ),
{
    tag.remove(id);
}

/// `id3::TagLike::remove_picture_by_type`: of the frames with the picture
/// identifier, those leave that hold a picture of type `picture_type` or no
/// picture at all; every other frame stays as it stands.
#[verifier::external_body]
pub(crate) fn remove_pictures(tag: &mut id3::Tag, picture_type: id3::frame::PictureType)
    ensures
        tag_frames(*final(tag)) == tag_frames(*old(tag)).filter(
            |frame: StoredFrame| survives_picture_type(frame, picture_type),
        ),
{
    tag.remove_picture_by_type(picture_type);
}

/// `id3::TagLike::remove_encapsulated_object` with all four values given: of
/// the frames with the object identifier, those leave that hold an object
/// with exactly these values or no object at all; every other frame stays
/// as it stands.
#[verifier::external_body]
pub(crate) fn remove_object(
    tag: &mut id3::Tag,
    description: &str,
    mime_type: &str,
    filename: &str,
    data: &[u8],
)
    ensures
        tag_frames(*final(tag)) == tag_frames(*old(tag)).filter(
            |frame: StoredFrame|
                survives_object(frame, description@, mime_type@, filename@, data@),
        ),
{
    tag.remove_encapsulated_object(Some(description), Some(mime_type), Some(filename), Some(data));
}

} // verus!
