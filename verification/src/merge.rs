//! The edits that a host requests: what each one asks of a tag, and what a
//! batch of them does to it.

use crate::codec::{
    add_frame, is_frame_id, is_lawful_conflict, remove_by_id, remove_object, remove_pictures, stored_id,
    survives_id, survives_object, survives_picture_type, tag_conflict, tag_frames, with_frame,
    StoredFrame,
};
use crate::content::{picture_type_of, u8_to_picture_type, ContentView, FrameContent, Kind};
use crate::error::{Field, TagError, TagErrorView};
use crate::mapper::{content_to_codec, records_view};
use crate::record::{payload_content, GenericRecord, RecordView};
use crate::text::byte_len;
use id3::frame::PictureType;
use vstd::prelude::*;
use vstd::utf8::{is_ascii_chars, is_ascii_chars_encode_utf8};

verus! {

/// What one edit asks of a tag.
#[derive(Debug, PartialEq, Eq)]
pub enum Action {
    /// Remove every picture of one type.
    RemovePictures { picture_type: PictureType },
    /// Remove the encapsulated objects that hold exactly these four values.
    RemoveObject { description: String, mime_type: String, filename: String, data: Vec<u8> },
    /// Remove every frame with one identifier.
    RemoveFrames { id: String },
    /// Add a frame.
    AddFrame { id: String, content: FrameContent },
}

/// What an [`Action`] holds, as mathematical values.
pub enum ActionView {
    RemovePictures { picture_type: PictureType },
    RemoveObject {
        description: Seq<char>,
        mime_type: Seq<char>,
        filename: Seq<char>,
        data: Seq<u8>,
    },
    RemoveFrames { id: Seq<char> },
    AddFrame { id: Seq<char>, content: ContentView },
}

impl View for Action {
    type V = ActionView;

    open spec fn view(&self) -> ActionView {
        match *self {
            Action::RemovePictures { picture_type } => ActionView::RemovePictures { picture_type },
            Action::RemoveObject {
                description,
                mime_type,
                filename,
                data,
            } => ActionView::RemoveObject {
                description: description@,
                mime_type: mime_type@,
                filename: filename@,
                data: data@,
            },
            Action::RemoveFrames { id } => ActionView::RemoveFrames { id: id@ },
            Action::AddFrame { id, content } => ActionView::AddFrame { id: id@, content: content@ },
        }
    }
}

impl Clone for Action {
    /// A copy that holds the same values.
    fn clone(&self) -> (copy: Action)
        ensures
            copy@ == self@,
    {
        match self {
            Action::RemovePictures { picture_type } => Action::RemovePictures {
                picture_type: *picture_type,
            },
            Action::RemoveObject { description, mime_type, filename, data } => Action::RemoveObject {
                description: description.clone(),
                mime_type: mime_type.clone(),
                filename: filename.clone(),
                data: data.clone(),
            },
            Action::RemoveFrames { id } => Action::RemoveFrames { id: id.clone() },
            Action::AddFrame { id, content } => Action::AddFrame {
                id: id.clone(),
                content: content.clone(),
            },
        }
    }
}

impl ActionView {
    /// Whether the codec can carry the action out: a frame to add has an
    /// identifier of three or four bytes.
    pub open spec fn is_valid(self) -> bool {
        self matches ActionView::AddFrame { id, .. } ==> is_frame_id(id)
    }
}

/// The identifier of the frame that a record of `kind` with identifier `id`
/// adds: the record's own for text, link and unknown content, and the one
/// identifier that the tag format has for each other kind.
pub open spec fn added_frame_id(kind: Kind, id: Seq<char>) -> Seq<char> {
    match kind {
        Kind::Text | Kind::Link | Kind::Unknown => id,
        Kind::ExtendedText => "TXXX"@,
        Kind::ExtendedLink => "WXXX"@,
        Kind::Comment => "COMM"@,
        Kind::Lyrics => "USLT"@,
        Kind::Picture => "APIC"@,
        Kind::EncapsulatedObject => "GEOB"@,
    }
}

/// The identifier of a kind that has one of its own is four bytes long: it
/// is stored as it is, and only an identifier that a record supplies can be
/// refused.
pub proof fn lemma_fixed_identifiers_are_valid(kind: Kind, id: Seq<char>)
    requires
        kind != Kind::Text,
        kind != Kind::Link,
        kind != Kind::Unknown,
    ensures
        is_frame_id(added_frame_id(kind, id)),
        stored_id(added_frame_id(kind, id)) == added_frame_id(kind, id),
{
    reveal_strlit("TXXX");
    reveal_strlit("WXXX");
    reveal_strlit("COMM");
    reveal_strlit("USLT");
    reveal_strlit("APIC");
    reveal_strlit("GEOB");
    let fixed = added_frame_id(kind, id);
    assert(fixed.len() == 4);
    assert(is_ascii_chars(fixed));
    is_ascii_chars_encode_utf8(fixed);
}

/// What a removal of `kind` asks for. Pictures go by their type alone,
/// encapsulated objects by all four of their values, every other kind by
/// the record's identifier.
pub open spec fn planned_removal(kind: Kind, edit: RecordView) -> Result<ActionView, TagErrorView> {
    match kind {
        Kind::Picture => match edit.payload.picture_type() {
            Some(code) => Ok(ActionView::RemovePictures { picture_type: picture_type_of(code) }),
            None => Err(TagErrorView::MissingField { field: Field::PictureType }),
        },
        Kind::EncapsulatedObject => match edit.payload.missing(Kind::EncapsulatedObject) {
            Some(field) => Err(TagErrorView::MissingField { field }),
            None => Ok(
                ActionView::RemoveObject {
                    description: edit.payload.text(Field::Description).unwrap(),
                    mime_type: edit.payload.text(Field::MimeType).unwrap(),
                    filename: edit.payload.text(Field::Filename).unwrap(),
                    data: edit.payload.data().unwrap(),
                },
            ),
        },
        _ => Ok(ActionView::RemoveFrames { id: edit.id }),
    }
}

/// What an addition of `kind` asks for: a frame with the content that the
/// record describes.
pub open spec fn planned_addition(kind: Kind, edit: RecordView) -> Result<
    ActionView,
    TagErrorView,
> {
    match edit.payload.missing(kind) {
        Some(field) => Err(TagErrorView::MissingField { field }),
        None => if is_frame_id(added_frame_id(kind, edit.id)) {
            Ok(
                ActionView::AddFrame {
                    id: added_frame_id(kind, edit.id),
                    content: edit.payload.content(kind),
                },
            )
        } else {
            Err(TagErrorView::InvalidFrameId { id: added_frame_id(kind, edit.id) })
        },
    }
}

/// What `edit` asks of a tag, or why it cannot be carried out. The kind is
/// looked up before anything else: an edit whose kind is none of the nine
/// names is refused, whether it adds or removes.
pub open spec fn planned(edit: RecordView) -> Result<ActionView, TagErrorView> {
    match Kind::named(edit.kind) {
        None => Err(TagErrorView::UnsupportedKind { kind: edit.kind }),
        Some(kind) => if edit.remove {
            planned_removal(kind, edit)
        } else {
            planned_addition(kind, edit)
        },
    }
}

/// The outcome of planning, as mathematical values.
pub open spec fn plan_view(plan: Result<Action, TagError>) -> Result<ActionView, TagErrorView> {
    match plan {
        Ok(action) => Ok(action@),
        Err(error) => Err(error@),
    }
}

/// The identifier of the frame that a record of `kind` with identifier `id`
/// adds.
fn frame_id_for(kind: Kind, id: &String) -> (frame_id: String)
    ensures
        frame_id@ == added_frame_id(kind, id@),
{
    match kind {
        Kind::Text | Kind::Link | Kind::Unknown => id.clone(),
        Kind::ExtendedText => "TXXX".to_owned(),
        Kind::ExtendedLink => "WXXX".to_owned(),
        Kind::Comment => "COMM".to_owned(),
        Kind::Lyrics => "USLT".to_owned(),
        Kind::Picture => "APIC".to_owned(),
        Kind::EncapsulatedObject => "GEOB".to_owned(),
    }
}

/// What `edit` asks of a tag. Fails with `UnsupportedKind` where the edit's
/// kind is none of the nine names, with `MissingField` where its payload
/// lacks a field that the request needs, and with `InvalidFrameId` where it
/// adds a frame whose identifier is not three or four bytes long.
pub fn plan_edit(edit: &GenericRecord) -> (plan: Result<Action, TagError>)
    ensures
        plan_view(plan) == planned(edit@),
        plan matches Ok(action) ==> action@.is_valid(),
{
    let kind = match Kind::parse(edit.kind.as_str()) {
        Some(kind) => kind,
        None => {
            return Err(TagError::UnsupportedKind { kind: edit.kind.clone() });
        },
    };
    if edit.remove {
        match kind {
            Kind::Picture => {
                let code = edit.payload.require_picture_type()?;
                Ok(Action::RemovePictures { picture_type: u8_to_picture_type(code) })
            },
            Kind::EncapsulatedObject => {
                let mime_type = edit.payload.require_text(Field::MimeType)?;
                let filename = edit.payload.require_text(Field::Filename)?;
                let description = edit.payload.require_text(Field::Description)?;
                let data = edit.payload.require_data()?;
                Ok(Action::RemoveObject { description, mime_type, filename, data })
            },
            _ => Ok(Action::RemoveFrames { id: edit.id.clone() }),
        }
    } else {
        let content = payload_content(&edit.payload, kind)?;
        let id = frame_id_for(kind, &edit.id);
        let len = byte_len(id.as_str());
        if len == 3 || len == 4 {
            Ok(Action::AddFrame { id, content })
        } else {
            Err(TagError::InvalidFrameId { id })
        }
    }
}

/// The frame that stands in a tag after a frame was added with identifier
/// `id` and content `content`.
pub open spec fn added_frame(id: Seq<char>, content: ContentView) -> StoredFrame {
    StoredFrame { id: stored_id(id), content: Some(content) }
}

/// The frames of a tag that was `before`, after `action` was carried out.
///
/// A removal keeps the frames that it does not aim at, in their order. An
/// addition puts the new frame at the end; the frame that the codec takes
/// for the same logical frame, if the tag holds one, gives way to it.
pub open spec fn frames_after(before: id3::Tag, action: ActionView) -> Seq<StoredFrame> {
    match action {
        ActionView::RemovePictures { picture_type } => tag_frames(before).filter(
            |frame: StoredFrame| survives_picture_type(frame, picture_type),
        ),
        ActionView::RemoveObject { description, mime_type, filename, data } => tag_frames(
            before,
        ).filter(
            |frame: StoredFrame| survives_object(frame, description, mime_type, filename, data),
        ),
        ActionView::RemoveFrames { id } => tag_frames(before).filter(
            |frame: StoredFrame| survives_id(frame, id),
        ),
        ActionView::AddFrame { id, content } => with_frame(
            tag_frames(before),
            added_frame(id, content),
            tag_conflict(before, added_frame(id, content)),
        ),
    }
}

/// Whether carrying out `action` on the tag `before` gives the frames of the
/// tag `after`.
pub open spec fn results_in(before: id3::Tag, action: ActionView, after: id3::Tag) -> bool {
    &&& tag_frames(after) == frames_after(before, action)
    &&& action matches ActionView::AddFrame { id, content } ==> is_lawful_conflict(
        tag_frames(before),
        added_frame(id, content),
        tag_conflict(before, added_frame(id, content)),
    )
}

/// Whether carrying out `actions` one after the other leads from the tag
/// `before` to the tag `after`.
pub open spec fn leads_to(before: id3::Tag, actions: Seq<ActionView>, after: id3::Tag) -> bool
    decreases actions.len(),
{
    if actions.len() == 0 {
        after == before
    } else {
        exists|middle: id3::Tag|
            leads_to(before, actions.drop_last(), middle) && #[trigger] results_in(
                middle,
                actions.last(),
                after,
            )
    }
}

/// Carries out `action` on `tag`.
pub fn apply_action(tag: &mut id3::Tag, action: Action)
    requires
        action@.is_valid(),
    ensures
        results_in(*old(tag), action@, *final(tag)),
{
    match action {
        Action::RemovePictures { picture_type } => remove_pictures(tag, picture_type),
        Action::RemoveObject { description, mime_type, filename, data } => remove_object(
            tag,
            description.as_str(),
            mime_type.as_str(),
            filename.as_str(),
            data.as_slice(),
        ),
        Action::RemoveFrames { id } => remove_by_id(tag, id.as_str()),
        Action::AddFrame { id, content } => add_frame(tag, id.as_str(), content_to_codec(content)),
    }
}

/// Whether every edit can be carried out.
pub open spec fn all_planned(edits: Seq<RecordView>) -> bool {
    forall|i: int| 0 <= i < edits.len() ==> planned(#[trigger] edits[i]) is Ok
}

/// Whether the edit at `at` is the first that cannot be carried out.
pub open spec fn is_first_refused(edits: Seq<RecordView>, at: int) -> bool {
    &&& 0 <= at < edits.len()
    &&& planned(edits[at]) is Err
    &&& forall|i: int| 0 <= i < at ==> planned(#[trigger] edits[i]) is Ok
}

/// What the edits ask of a tag, one action for each edit, in their order.
pub open spec fn plans_of(edits: Seq<RecordView>) -> Seq<ActionView>
    recommends
        all_planned(edits),
{
    Seq::new(edits.len(), |i: int| planned(edits[i])->Ok_0)
}

/// Applies `edits` to `tag`, in the order in which they are given.
///
/// Every edit is looked at before the tag is touched: where one of them
/// cannot be carried out the call fails with the error of the first such
/// edit and leaves the tag as it was. Without edits the tag stays as it
/// was.
pub fn apply_edits(tag: &mut id3::Tag, edits: &Vec<GenericRecord>) -> (outcome: Result<
    (),
    TagError,
>)
    ensures
        outcome is Ok <==> all_planned(records_view(edits@)),
        outcome is Ok ==> leads_to(*old(tag), plans_of(records_view(edits@)), *final(tag)),
        outcome matches Err(error) ==> *final(tag) == *old(tag) && exists|at: int|
            is_first_refused(records_view(edits@), at) && planned(
                #[trigger] records_view(edits@)[at],
            ) == Err::<ActionView, TagErrorView>(error@),
        edits@.len() == 0 ==> outcome is Ok && *final(tag) == *old(tag),
{
    let ghost requested = records_view(edits@);
    let mut actions: Vec<Action> = Vec::new();
    let mut i: usize = 0;
    while i < edits.len()
        invariant
            i <= edits.len(),
            requested == records_view(edits@),
            *tag == *old(tag),
            actions@.len() == i,
            forall|j: int|
                0 <= j < i ==> planned(#[trigger] requested[j]) == Ok::<ActionView, TagErrorView>(
                    actions@[j]@,
                ),
            forall|j: int| 0 <= j < i ==> (#[trigger] actions@[j])@.is_valid(),
        decreases edits.len() - i,
    {
        assert(requested[i as int] == edits@[i as int]@);
        match plan_edit(&edits[i]) {
            Ok(action) => actions.push(action),
            Err(error) => {
                proof {
                    assert(is_first_refused(requested, i as int));
                }
                return Err(error);
            },
        }
        i += 1;
    }
    let ghost plans = plans_of(requested);
    let ghost queued = actions@;
    for action in it: actions
        invariant
            it.seq() == queued,
            queued.len() == plans.len(),
            forall|j: int| 0 <= j < queued.len() ==> (#[trigger] queued[j])@ == plans[j],
            forall|j: int| 0 <= j < queued.len() ==> (#[trigger] queued[j])@.is_valid(),
            leads_to(*old(tag), plans.take(it.index() as int), *tag),
    {
        let ghost middle = *tag;
        let ghost done = it.index() as int;
        apply_action(tag, action);
        proof {
            assert(plans.take(done + 1).drop_last() == plans.take(done));
            assert(plans.take(done + 1).last() == action@);
            assert(leads_to(*old(tag), plans.take(done + 1).drop_last(), middle));
            assert(results_in(middle, plans.take(done + 1).last(), *tag));
        }
    }
    proof {
        assert(plans.take(plans.len() as int) == plans);
    }
    Ok(())
}

} // verus!
