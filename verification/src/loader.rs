//! The steps of a call around the reading and the writing of a file: what
//! a read attempt amounts to, and what follows a write attempt.

use crate::codec::{empty_tag, tag_frames, StoredFrame};
use crate::error::{TagError, TagErrorView};
use crate::mapper::{is_generic, records_view, to_generic};
use crate::merge::{all_planned, apply_edits, is_first_refused, leads_to, planned, plans_of, ActionView};
use crate::record::GenericRecord;
use vstd::prelude::*;

verus! {

/// Whether `tag` is what the read attempt `outcome` amounts to: the tag that
/// was read; an empty tag where the file holds none; a failure for every
/// other error, with the codec's description of it.
pub open spec fn is_loaded(
    outcome: Result<id3::Tag, id3::Error>,
    tag: Result<id3::Tag, TagError>,
) -> bool {
    match outcome {
        Ok(read) => tag == Ok::<id3::Tag, TagError>(read),
        Err(error) => if error.kind is NoTag {
            tag matches Ok(empty) && tag_frames(empty) == Seq::<StoredFrame>::empty()
        } else {
            tag matches Err(failure) && failure@ == (TagErrorView::ReadFailure {
                description: error.description@,
            })
        },
    }
}

/// The tag to work on after a read attempt. A file without a tag is no
/// failure: it gives an empty tag. Any other error of the read is one.
pub fn load(outcome: Result<id3::Tag, id3::Error>) -> (tag: Result<id3::Tag, TagError>)
    ensures
        is_loaded(outcome, tag),
{
    match outcome {
        Ok(read) => Ok(read),
        Err(error) => match error.kind {
            id3::ErrorKind::NoTag => Ok(empty_tag()),
            _ => Err(TagError::ReadFailure { description: error.description }),
        },
    }
}

/// The records of the tag that a read attempt gave. A file without a tag
/// gives no record, and no failure.
pub fn load_tag(outcome: Result<id3::Tag, id3::Error>) -> (records: Result<
    Vec<GenericRecord>,
    TagError,
>)
    ensures
        match outcome {
            Ok(tag) => is_generic(tag_frames(tag), records),
            Err(error) => if error.kind is NoTag {
                records matches Ok(held) && held@.len() == 0
            } else {
                records matches Err(failure) && failure@ == (TagErrorView::ReadFailure {
                    description: error.description@,
                })
            },
        },
{
    match load(outcome) {
        Ok(tag) => {
            let records = to_generic(&tag);
            proof {
                if records is Ok {
                    assert(records_view(records->Ok_0@).len() == records->Ok_0@.len());
                }
            }
            records
        },
        Err(failure) => Err(failure),
    }
}

/// Whether the read attempt `outcome` failed for another reason than the
/// absence of a tag.
pub open spec fn is_read_failure(outcome: Result<id3::Tag, id3::Error>) -> bool {
    outcome matches Err(error) && !(error.kind is NoTag)
}

/// The tag to write after a read attempt and a batch of edits: the tag that
/// the read gave, with the edits applied in their order. The read comes
/// first: where it failed, the call fails with the read failure, whatever
/// the edits are. Otherwise it fails where one of the edits cannot be
/// carried out, with the error of the first such edit.
pub fn update_tag(outcome: Result<id3::Tag, id3::Error>, edits: &Vec<GenericRecord>) -> (tag:
    Result<id3::Tag, TagError>)
    ensures
        tag is Ok <==> !is_read_failure(outcome) && all_planned(records_view(edits@)),
        tag matches Ok(edited) ==> exists|loaded: id3::Tag|
            #[trigger] is_loaded(outcome, Ok(loaded)) && leads_to(
                loaded,
                plans_of(records_view(edits@)),
                edited,
            ),
        tag matches Err(failure) ==> if is_read_failure(outcome) {
            failure@ == (TagErrorView::ReadFailure { description: outcome->Err_0.description@ })
        } else {
            exists|at: int|
                is_first_refused(records_view(edits@), at) && planned(
                    #[trigger] records_view(edits@)[at],
                ) == Err::<ActionView, TagErrorView>(failure@)
        },
{
    match load(outcome) {
        Ok(loaded) => {
            let mut tag = loaded;
            match apply_edits(&mut tag, edits) {
                Ok(()) => {
                    proof {
                        assert(is_loaded(outcome, Ok(loaded)));
                    }
                    Ok(tag)
                },
                Err(failure) => Err(failure),
            }
        },
        Err(failure) => Err(failure),
    }
}

/// The version of the tag format in which a tag is written, whatever the
/// version in which it was read.
pub fn target_version() -> (version: id3::Version)
    ensures
        version == id3::Version::Id3v24,
{
    id3::Version::Id3v24
}

/// The records to hand back after a write attempt: those of the tag as it
/// was written. A failed write is a failure of the call, with the codec's
/// description of it.
pub fn written(tag: &id3::Tag, outcome: Result<(), id3::Error>) -> (records: Result<
    Vec<GenericRecord>,
    TagError,
>)
    ensures
        match outcome {
            Ok(_) => is_generic(tag_frames(*tag), records),
            Err(error) => records matches Err(failure) && failure@ == (
            TagErrorView::WriteFailure { description: error.description@ }),
        },
{
    match outcome {
        Ok(()) => to_generic(tag),
        Err(error) => Err(TagError::WriteFailure { description: error.description }),
    }
}

} // verus!
