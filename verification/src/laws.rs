//! What holds of every tag and every edit.

use crate::codec::{
    is_frame_id, stored_id, survives_id, survives_object, survives_picture_type, tag_frames,
    tells_apart, StoredFrame,
};
use crate::content::ContentView;
use crate::error::TagErrorView;
use crate::mapper::{all_supported, records_of};
use crate::merge::{all_planned, planned, plans_of};
use crate::record::record_of;
use crate::content::{has_own_number, Kind};
use crate::merge::{
    added_frame, added_frame_id, frames_after, leads_to, lemma_fixed_identifiers_are_valid,
    results_in, ActionView,
};
use crate::record::{lemma_round_trip, read_back, record_content};
use id3::frame::PictureType;
use vstd::prelude::*;

verus! {

/// A filter that every item passes changes nothing.
proof fn lemma_filter_keeps_all<A>(items: Seq<A>, keep: spec_fn(A) -> bool)
    requires
        forall|i: int| 0 <= i < items.len() ==> keep(#[trigger] items[i]),
    ensures
        items.filter(keep) == items,
    decreases items.len(),
{
    reveal(Seq::filter);
    if items.len() > 0 {
        lemma_filter_keeps_all(items.drop_last(), keep);
        assert(items.drop_last().push(items.last()) =~= items);
    }
}

/// The records of a tag give back its contents: read as content, the record
/// of each frame is the content of that frame, variant by variant and field
/// by field. Only a picture whose type has no number of its own comes back
/// changed, as a picture of type `Other`.
pub proof fn lemma_records_give_back_contents(frames: Seq<StoredFrame>, at: int)
    requires
        all_supported(frames),
        0 <= at < frames.len(),
    ensures
        record_content(records_of(frames)[at]) == Ok::<ContentView, TagErrorView>(
            read_back(frames[at].content.unwrap()),
        ),
        !(frames[at].content.unwrap() matches ContentView::Picture { picture_type, .. }
            && !has_own_number(picture_type)) ==> read_back(frames[at].content.unwrap())
            == frames[at].content.unwrap(),
{
    lemma_round_trip(frames[at].id, frames[at].content.unwrap());
}

/// Without an action a tag stays as it is.
pub proof fn lemma_no_action_changes_nothing(before: id3::Tag, after: id3::Tag)
    requires
        leads_to(before, Seq::<ActionView>::empty(), after),
    ensures
        after == before,
{
}

/// Whether the object in `frame` differs from the four values in at least
/// one of them.
pub open spec fn is_other_object(
    frame: StoredFrame,
    description: Seq<char>,
    mime_type: Seq<char>,
    filename: Seq<char>,
    data: Seq<u8>,
) -> bool {
    frame.content matches Some(
        ContentView::EncapsulatedObject {
            mime_type: held_mime_type,
            filename: held_filename,
            description: held_description,
            data: held_data,
        },
    ) && (held_description != description || held_mime_type != mime_type || held_filename
        != filename || held_data != data)
}

/// An encapsulated object that differs from the values of a removal in even
/// one of description, MIME type, file name and data stays in the tag.
pub proof fn lemma_differing_object_stays(
    before: id3::Tag,
    at: int,
    description: Seq<char>,
    mime_type: Seq<char>,
    filename: Seq<char>,
    data: Seq<u8>,
)
    requires
        0 <= at < tag_frames(before).len(),
        is_other_object(tag_frames(before)[at], description, mime_type, filename, data),
    ensures
        frames_after(
            before,
            ActionView::RemoveObject { description, mime_type, filename, data },
        ).contains(tag_frames(before)[at]),
{
    let keep = |frame: StoredFrame| survives_object(frame, description, mime_type, filename, data);
    tag_frames(before).lemma_filter_contains(keep, at);
}

/// A removal of an encapsulated object removes nothing from a tag in which
/// every frame with the object identifier holds an object that differs from
/// the removal's values in at least one of them.
pub proof fn lemma_differing_objects_remove_nothing(
    before: id3::Tag,
    description: Seq<char>,
    mime_type: Seq<char>,
    filename: Seq<char>,
    data: Seq<u8>,
)
    requires
        forall|i: int|
            0 <= i < tag_frames(before).len() && (#[trigger] tag_frames(before)[i]).id == "GEOB"@
                ==> is_other_object(tag_frames(before)[i], description, mime_type, filename, data),
    ensures
        frames_after(before, ActionView::RemoveObject { description, mime_type, filename, data })
            == tag_frames(before),
{
    let keep = |frame: StoredFrame| survives_object(frame, description, mime_type, filename, data);
    lemma_filter_keeps_all(tag_frames(before), keep);
}

/// A removal of pictures goes by the picture type alone: whatever its
/// description, MIME type and data, a picture of the type leaves the tag,
/// and a picture of another type stays.
pub proof fn lemma_pictures_leave_by_type(before: id3::Tag, at: int, picture_type: PictureType)
    requires
        0 <= at < tag_frames(before).len(),
        tag_frames(before)[at].content matches Some(ContentView::Picture { .. }),
    ensures
        ({
            let after = frames_after(before, ActionView::RemovePictures { picture_type });
            let frame = tag_frames(before)[at];
            &&& frame.content->Some_0->Picture_picture_type != picture_type ==> after.contains(
                frame,
            )
            &&& frame.content->Some_0->Picture_picture_type == picture_type && frame.id == "APIC"@
                ==> !after.contains(frame)
        }),
{
    let keep = |frame: StoredFrame| survives_picture_type(frame, picture_type);
    let frames = tag_frames(before);
    let frame = frames[at];
    if keep(frame) {
        frames.lemma_filter_contains(keep, at);
    } else {
        if frames.filter(keep).contains(frame) {
            let i = choose|i: int|
                0 <= i < frames.filter(keep).len() && frames.filter(keep)[i] == frame;
            frames.lemma_filter_pred(keep, i);
        }
    }
}

/// A removal by identifier leaves no frame with the identifier, and every
/// frame with another one.
pub proof fn lemma_frames_leave_by_id(before: id3::Tag, id: Seq<char>)
    ensures
        ({
            let after = frames_after(before, ActionView::RemoveFrames { id });
            &&& forall|i: int| 0 <= i < after.len() ==> (#[trigger] after[i]).id != id
            &&& forall|i: int|
                0 <= i < tag_frames(before).len() && (#[trigger] tag_frames(before)[i]).id != id
                    ==> after.contains(tag_frames(before)[i])
        }),
{
    let keep = |frame: StoredFrame| survives_id(frame, id);
    let frames = tag_frames(before);
    let after = frames.filter(keep);
    assert forall|i: int| 0 <= i < after.len() implies (#[trigger] after[i]).id != id by {
        frames.lemma_filter_pred(keep, i);
    }
    assert forall|i: int| 0 <= i < frames.len() && (#[trigger] frames[i]).id != id implies after.contains(
        frames[i],
    ) by {
        frames.lemma_filter_contains(keep, i);
    }
}

/// An addition puts the new frame at the end of the tag and leaves every
/// frame with another identifier in it.
pub proof fn lemma_addition_spares_other_identifiers(
    before: id3::Tag,
    id: Seq<char>,
    content: ContentView,
    after: id3::Tag,
)
    requires
        results_in(before, ActionView::AddFrame { id, content }, after),
    ensures
        tag_frames(after).len() > 0,
        tag_frames(after).last() == added_frame(id, content),
        tag_frames(after).len() >= tag_frames(before).len(),
        forall|i: int|
            0 <= i < tag_frames(before).len() && (#[trigger] tag_frames(before)[i]).id
                != added_frame(id, content).id ==> tag_frames(after).contains(
                tag_frames(before)[i],
            ),
{
    let frames = tag_frames(before);
    let frame = added_frame(id, content);
    let conflict = crate::codec::tag_conflict(before, frame);
    let after_frames = tag_frames(after);
    assert forall|i: int| 0 <= i < frames.len() && (#[trigger] frames[i]).id != frame.id implies after_frames.contains(
        frames[i],
    ) by {
        if 0 <= conflict < frames.len() {
            if i < conflict {
                assert(after_frames[i] == frames[i]);
            } else {
                assert(after_frames[i - 1] == frames[i]);
            }
        } else {
            assert(after_frames[i] == frames[i]);
        }
    }
}

/// A picture that was added leaves the tag with a removal of its own type,
/// and stays with a removal of any other type.
pub proof fn lemma_added_picture_leaves_by_its_type(
    before: id3::Tag,
    picture: ContentView,
    added: id3::Tag,
    removed: PictureType,
)
    requires
        picture is Picture,
        results_in(
            before,
            ActionView::AddFrame {
                id: added_frame_id(Kind::Picture, Seq::<char>::empty()),
                content: picture,
            },
            added,
        ),
    ensures
        ({
            let frame = added_frame(added_frame_id(Kind::Picture, Seq::<char>::empty()), picture);
            let after = frames_after(added, ActionView::RemovePictures { picture_type: removed });
            &&& tag_frames(added).contains(frame)
            &&& picture->Picture_picture_type == removed ==> !after.contains(frame)
            &&& picture->Picture_picture_type != removed ==> after.contains(frame)
        }),
{
    let id = added_frame_id(Kind::Picture, Seq::<char>::empty());
    lemma_fixed_identifiers_are_valid(Kind::Picture, Seq::<char>::empty());
    lemma_addition_spares_other_identifiers(before, id, picture, added);
    let at = tag_frames(added).len() - 1;
    assert(tag_frames(added)[at] == added_frame(id, picture));
    reveal_strlit("APIC");
    lemma_pictures_leave_by_type(added, at, removed);
}

/// Whether no frame among `frames` has the identifier `id`.
pub open spec fn holds_no(frames: Seq<StoredFrame>, id: Seq<char>) -> bool {
    forall|i: int| 0 <= i < frames.len() ==> (#[trigger] frames[i]).id != id
}

/// A frame that is added under an identifier that the tag does not hold goes
/// to the end of the tag, and no frame leaves.
pub proof fn lemma_new_identifier_is_appended(
    before: id3::Tag,
    id: Seq<char>,
    content: ContentView,
    after: id3::Tag,
)
    requires
        results_in(before, ActionView::AddFrame { id, content }, after),
        holds_no(tag_frames(before), stored_id(id)),
    ensures
        tag_frames(after) == tag_frames(before).push(added_frame(id, content)),
{
}

/// A text frame gives way to a new text frame with its identifier: where it
/// is the only frame with that identifier, the new frame takes its place at
/// the end of the tag and every other frame stays.
pub proof fn lemma_text_takes_the_place_of_text(
    before: id3::Tag,
    id: Seq<char>,
    text: Seq<char>,
    at: int,
    after: id3::Tag,
)
    requires
        results_in(before, ActionView::AddFrame { id, content: ContentView::Text(text) }, after),
        0 <= at < tag_frames(before).len(),
        tag_frames(before)[at].id == stored_id(id),
        tag_frames(before)[at].content matches Some(ContentView::Text(_)),
        forall|i: int|
            0 <= i < tag_frames(before).len() && i != at ==> (#[trigger] tag_frames(before)[i]).id
                != stored_id(id),
    ensures
        tag_frames(after) == tag_frames(before).remove(at).push(
            added_frame(id, ContentView::Text(text)),
        ),
{
    let frames = tag_frames(before);
    let frame = added_frame(id, ContentView::Text(text));
    let conflict = crate::codec::tag_conflict(before, frame);
    assert(frames[at].id == frame.id);
    assert(0 <= conflict <= at);
    assert(frames[conflict].id == frame.id);
}

/// Of two text frames that are added one after the other under one
/// identifier, the second replaces the first: a tag that held no frame with
/// the identifier then holds exactly one, with the second text, after all
/// the frames that it held.
pub proof fn lemma_second_text_replaces_first(
    before: id3::Tag,
    id: Seq<char>,
    first: Seq<char>,
    second: Seq<char>,
    middle: id3::Tag,
    after: id3::Tag,
)
    requires
        holds_no(tag_frames(before), stored_id(id)),
        results_in(before, ActionView::AddFrame { id, content: ContentView::Text(first) }, middle),
        results_in(middle, ActionView::AddFrame { id, content: ContentView::Text(second) }, after),
    ensures
        tag_frames(after) == tag_frames(before).push(added_frame(id, ContentView::Text(second))),
        holds_no(tag_frames(after).drop_last(), stored_id(id)),
{
    lemma_new_identifier_is_appended(before, id, ContentView::Text(first), middle);
    let at = tag_frames(before).len() as int;
    assert(tag_frames(middle)[at] == added_frame(id, ContentView::Text(first)));
    lemma_text_takes_the_place_of_text(middle, id, second, at, after);
    assert(tag_frames(middle).remove(at) =~= tag_frames(before));
    assert(tag_frames(after).drop_last() =~= tag_frames(before));
}

/// Pictures of two types stand side by side: added one after the other to a
/// tag without pictures, both are in the tag, in the order in which they
/// came. A removal of the first one's type then takes the first and leaves
/// the second, with every frame that the tag held.
pub proof fn lemma_two_picture_types_stand_side_by_side(
    before: id3::Tag,
    first: ContentView,
    second: ContentView,
    middle: id3::Tag,
    after: id3::Tag,
)
    requires
        first is Picture,
        second is Picture,
        first->Picture_picture_type != second->Picture_picture_type,
        holds_no(tag_frames(before), "APIC"@),
        results_in(before, ActionView::AddFrame { id: "APIC"@, content: first }, middle),
        results_in(middle, ActionView::AddFrame { id: "APIC"@, content: second }, after),
    ensures
        tag_frames(after) == tag_frames(before).push(added_frame("APIC"@, first)).push(
            added_frame("APIC"@, second),
        ),
        frames_after(
            after,
            ActionView::RemovePictures { picture_type: first->Picture_picture_type },
        ) == tag_frames(before).push(added_frame("APIC"@, second)),
{
    let id = "APIC"@;
    lemma_fixed_identifiers_are_valid(Kind::Picture, Seq::<char>::empty());
    assert(added_frame_id(Kind::Picture, Seq::<char>::empty()) == id);
    assert(stored_id(id) == id);
    reveal_strlit("APIC");
    reveal_strlit("WCOM");
    reveal_strlit("WOAR");
    assert(id.len() == 4 && id[0] == 'A');
    lemma_new_identifier_is_appended(before, id, first, middle);
    let held = tag_frames(before);
    let one = added_frame(id, first);
    let two = added_frame(id, second);
    let at = held.len() as int;
    let conflict = crate::codec::tag_conflict(middle, two);
    assert(tag_frames(middle)[at] == one);
    assert(conflict != at);
    assert(!(0 <= conflict < tag_frames(middle).len())) by {
        if 0 <= conflict < at {
            assert(tag_frames(middle)[conflict] == held[conflict]);
        }
    }
    let removed = first->Picture_picture_type;
    let keep = |frame: StoredFrame| survives_picture_type(frame, removed);
    lemma_filter_keeps_all(held, keep);
    held.lemma_filter_push(one, keep);
    held.push(one).lemma_filter_push(two, keep);
}

/// Whether every action adds a frame.
pub open spec fn are_additions(actions: Seq<ActionView>) -> bool {
    forall|i: int| 0 <= i < actions.len() ==> (#[trigger] actions[i]) is AddFrame
}

/// The frames that the actions add, where every one of them adds a frame.
pub open spec fn additions(actions: Seq<ActionView>) -> Seq<StoredFrame>
    recommends
        are_additions(actions),
{
    Seq::new(
        actions.len(),
        |i: int| added_frame(actions[i]->AddFrame_id, actions[i]->AddFrame_content),
    )
}

/// Whether no two of the frames share a logical target: any two of them
/// have different identifiers, or contents that the codec is sure to tell
/// apart.
pub open spec fn are_told_apart(frames: Seq<StoredFrame>) -> bool {
    forall|i: int, j: int|
        0 <= i < j < frames.len() ==> (#[trigger] frames[i]).id != (#[trigger] frames[j]).id
            || (frames[i].content is Some && frames[j].content is Some && tells_apart(
            frames[j].id,
            frames[i].content.unwrap(),
            frames[j].content.unwrap(),
        ))
}

/// Frames that share no logical target accumulate: added to an empty tag,
/// they are the frames of the tag, in the order in which they came.
pub proof fn lemma_told_apart_frames_accumulate(
    before: id3::Tag,
    actions: Seq<ActionView>,
    after: id3::Tag,
)
    requires
        tag_frames(before).len() == 0,
        are_additions(actions),
        are_told_apart(additions(actions)),
        leads_to(before, actions, after),
    ensures
        tag_frames(after) == additions(actions),
    decreases actions.len(),
{
    if actions.len() == 0 {
        assert(tag_frames(after) =~= additions(actions));
    } else {
        let earlier = actions.drop_last();
        let middle = choose|middle: id3::Tag|
            leads_to(before, earlier, middle) && #[trigger] results_in(
                middle,
                actions.last(),
                after,
            );
        assert(additions(earlier) =~= additions(actions).drop_last());
        assert(are_told_apart(additions(earlier))) by {
            assert forall|i: int, j: int| 0 <= i < j < additions(earlier).len() implies (
            #[trigger] additions(earlier)[i]).id != (#[trigger] additions(earlier)[j]).id || (
            additions(earlier)[i].content is Some && additions(earlier)[j].content is Some
                && tells_apart(
                additions(earlier)[j].id,
                additions(earlier)[i].content.unwrap(),
                additions(earlier)[j].content.unwrap(),
            )) by {
                assert(additions(earlier)[i] == additions(actions)[i]);
                assert(additions(earlier)[j] == additions(actions)[j]);
            }
        }
        lemma_told_apart_frames_accumulate(before, earlier, middle);
        let held = tag_frames(middle);
        let last = actions.len() - 1;
        let frame = additions(actions)[last];
        let conflict = crate::codec::tag_conflict(middle, frame);
        assert(actions.last() == actions[last]);
        assert(!(0 <= conflict < held.len())) by {
            if 0 <= conflict < held.len() {
                assert(held[conflict] == additions(actions)[conflict]);
                assert(additions(actions)[conflict].id != additions(actions)[last].id || tells_apart(
                    frame.id,
                    held[conflict].content.unwrap(),
                    frame.content.unwrap(),
                ));
            }
        }
        assert(tag_frames(after) =~= additions(actions));
    }
}

/// The frame that the record of `frame` adds: one with the content that
/// comes back from the record, under the identifier that the kind adds
/// under.
pub open spec fn rebuilt(frame: StoredFrame) -> StoredFrame
    recommends
        frame.content is Some,
{
    added_frame(
        added_frame_id(frame.content.unwrap().kind(), frame.id),
        read_back(frame.content.unwrap()),
    )
}

/// The frames that the records of `frames` add, in their order.
pub open spec fn all_rebuilt(frames: Seq<StoredFrame>) -> Seq<StoredFrame> {
    Seq::new(frames.len(), |i: int| rebuilt(frames[i]))
}

/// Whether the record of every frame can be added again: each frame is of a
/// supported kind, and the identifier under which its kind adds is three or
/// four bytes long.
pub open spec fn can_be_added_again(frames: Seq<StoredFrame>) -> bool {
    &&& all_supported(frames)
    &&& forall|i: int|
        0 <= i < frames.len() ==> is_frame_id(
            added_frame_id((#[trigger] frames[i]).content.unwrap().kind(), frames[i].id),
        )
}

/// The records of a tag, given as edits, ask for one addition each: that of
/// the frame's content as it comes back from the record.
pub proof fn lemma_records_plan_additions(frames: Seq<StoredFrame>)
    requires
        can_be_added_again(frames),
    ensures
        all_planned(records_of(frames)),
        are_additions(plans_of(records_of(frames))),
        additions(plans_of(records_of(frames))) == all_rebuilt(frames),
{
    let records = records_of(frames);
    assert forall|i: int| 0 <= i < frames.len() implies planned(#[trigger] records[i])
        == Ok::<ActionView, TagErrorView>(
        ActionView::AddFrame {
            id: added_frame_id(frames[i].content.unwrap().kind(), frames[i].id),
            content: read_back(frames[i].content.unwrap()),
        },
    ) by {
        let content = frames[i].content.unwrap();
        assert(frames[i].content is Some);
        lemma_round_trip(frames[i].id, content);
        Kind::lemma_named_by_own_name(content.kind());
        assert(records[i] == record_of(frames[i].id, content));
    }
    assert(additions(plans_of(records)) =~= all_rebuilt(frames));
}

/// A tag is rebuilt from its own records: where no two of its frames share
/// a logical target, the records of the tag, applied as edits to an empty
/// tag, give a tag with as many frames, in the same order, each with the
/// content of the frame that it came from: the same variant with the same
/// fields. Only a picture whose type has no number of its own comes back
/// as a picture of type `Other`.
pub proof fn lemma_records_rebuild_the_tag(
    frames: Seq<StoredFrame>,
    before: id3::Tag,
    after: id3::Tag,
)
    requires
        can_be_added_again(frames),
        are_told_apart(all_rebuilt(frames)),
        tag_frames(before).len() == 0,
        leads_to(before, plans_of(records_of(frames)), after),
    ensures
        tag_frames(after) == all_rebuilt(frames),
        tag_frames(after).len() == frames.len(),
        forall|i: int|
            0 <= i < frames.len() ==> (#[trigger] tag_frames(after)[i]).content == Some(
                read_back(frames[i].content.unwrap()),
            ),
{
    lemma_records_plan_additions(frames);
    lemma_told_apart_frames_accumulate(before, plans_of(records_of(frames)), after);
}

} // verus!
