use id3::{ErrorKind, Frame, Tag, TagLike, Version};
use tag_frames::error::TagError;
use tag_frames::loader::{load, load_tag, target_version, update_tag, written};
use tag_frames::record::{GenericRecord, Payload};

fn no_tag() -> id3::Error {
    id3::Error::new(ErrorKind::NoTag, "the file holds no tag")
}

fn text_edit(id: &str, text: &str) -> GenericRecord {
    GenericRecord {
        kind: "text".to_string(),
        id: id.to_string(),
        payload: Payload::Scalar(text.to_string()),
        remove: false,
    }
}

#[test]
fn a_file_without_a_tag_gives_an_empty_sequence() {
    assert_eq!(load_tag(Err(no_tag())), Ok(vec![]));
}

#[test]
fn a_file_without_a_tag_gives_an_empty_tag() {
    let tag = load(Err(no_tag())).unwrap();
    assert_eq!(tag.frames().count(), 0);
}

#[test]
fn a_tag_that_was_read_is_handed_on() {
    let mut read = Tag::new();
    read.add_frame(Frame::text("TIT2", "Song"));
    let tag = load(Ok(read.clone())).unwrap();
    assert_eq!(tag, read);
    let seen = load_tag(Ok(read)).unwrap();
    assert_eq!(seen, vec![text_edit("TIT2", "Song")]);
}

#[test]
fn any_other_read_error_is_a_failure() {
    let parsing = id3::Error::new(ErrorKind::Parsing, "frame 12 could not be decoded");
    assert_eq!(
        load(Err(parsing)),
        Err(TagError::ReadFailure { description: "frame 12 could not be decoded".to_string() })
    );
    let gone = id3::Error::from(std::io::Error::new(std::io::ErrorKind::NotFound, "gone"));
    assert_eq!(load_tag(Err(gone)), Err(TagError::ReadFailure { description: "".to_string() }));
    let input = id3::Error::new(ErrorKind::InvalidInput, "bad");
    assert_eq!(
        update_tag(Err(input), &vec![]).err(),
        Some(TagError::ReadFailure { description: "bad".to_string() })
    );
}

#[test]
fn a_partly_read_tag_is_not_used() {
    let mut partial = Tag::new();
    partial.add_frame(Frame::text("TIT2", "Song"));
    let mut parsing = id3::Error::new(ErrorKind::Parsing, "cut short");
    parsing.partial_tag = Some(partial);
    assert_eq!(
        load_tag(Err(parsing)),
        Err(TagError::ReadFailure { description: "cut short".to_string() })
    );
}

#[test]
fn edits_are_applied_to_the_tag_that_was_read() {
    let mut read = Tag::new();
    read.add_frame(Frame::text("TIT2", "Old"));
    let edited = update_tag(Ok(read), &vec![text_edit("TIT2", "New"), text_edit("TALB", "Album")])
        .unwrap();
    let seen: Vec<(&str, Option<&str>)> =
        edited.frames().map(|frame| (frame.id(), frame.content().text())).collect();
    assert_eq!(seen, vec![("TIT2", Some("New")), ("TALB", Some("Album"))]);
}

#[test]
fn edits_start_from_an_empty_tag_where_the_file_has_none() {
    let edited = update_tag(Err(no_tag()), &vec![text_edit("TIT2", "Song")]).unwrap();
    assert_eq!(written(&edited, Ok(())), Ok(vec![text_edit("TIT2", "Song")]));
}

#[test]
fn an_edit_that_cannot_be_carried_out_fails_the_update() {
    let bad = GenericRecord {
        kind: "chapter".to_string(),
        id: "CHAP".to_string(),
        payload: Payload::Scalar("".to_string()),
        remove: false,
    };
    assert_eq!(
        update_tag(Ok(Tag::new()), &vec![text_edit("TIT2", "Song"), bad]).err(),
        Some(TagError::UnsupportedKind { kind: "chapter".to_string() })
    );
}

#[test]
fn a_failed_write_is_a_failure() {
    let mut tag = Tag::new();
    tag.add_frame(Frame::text("TIT2", "Song"));
    let denied = id3::Error::new(ErrorKind::InvalidInput, "cannot be written");
    assert_eq!(
        written(&tag, Err(denied)),
        Err(TagError::WriteFailure { description: "cannot be written".to_string() })
    );
}

#[test]
fn after_a_write_the_records_are_read_off_the_tag() {
    let mut tag = Tag::new();
    tag.add_frame(Frame::text("TIT2", "Song"));
    tag.add_frame(Frame::link("WOAF", "https://example.org"));
    let seen = written(&tag, Ok(())).unwrap();
    assert_eq!(seen.len(), 2);
    assert_eq!(seen[0], text_edit("TIT2", "Song"));
    assert_eq!(seen[1].kind, "link");
}

#[test]
fn unsupported_content_fails_after_a_write_too() {
    let mut tag = Tag::new();
    tag.add_frame(id3::frame::Popularimeter { user: "u".to_string(), rating: 1, counter: 1 });
    assert_eq!(
        written(&tag, Ok(())),
        Err(TagError::UnsupportedContent { id: "POPM".to_string() })
    );
}

#[test]
fn tags_are_written_in_one_version() {
    assert_eq!(target_version(), Version::Id3v24);
}

#[test]
fn a_written_tag_reads_back_as_the_same_records() {
    let edits = vec![text_edit("TIT2", "Song"), text_edit("TALB", "Album")];
    let tag = update_tag(Err(no_tag()), &edits).unwrap();
    let mut bytes: Vec<u8> = Vec::new();
    let outcome = tag.write_to(&mut bytes, target_version());
    let after_write = written(&tag, outcome).unwrap();
    let read = Tag::read_from2(std::io::Cursor::new(bytes.clone()));
    assert_eq!(load_tag(read), Ok(after_write.clone()));
    let again = update_tag(Tag::read_from2(std::io::Cursor::new(bytes)), &vec![]).unwrap();
    assert_eq!(written(&again, Ok(())), Ok(after_write));
}

#[test]
fn a_failed_read_comes_before_a_refused_edit() {
    let bad = GenericRecord {
        kind: "chapter".to_string(),
        id: "CHAP".to_string(),
        payload: Payload::Scalar("".to_string()),
        remove: false,
    };
    let parsing = id3::Error::new(ErrorKind::Parsing, "cut short");
    assert_eq!(
        update_tag(Err(parsing), &vec![bad]).err(),
        Some(TagError::ReadFailure { description: "cut short".to_string() })
    );
}

#[test]
fn a_tag_is_rebuilt_from_its_own_records() {
    let mut tag = Tag::new();
    tag.add_frame(Frame::text("TIT2", "Song"));
    tag.add_frame(Frame::link("WOAF", "https://example.org"));
    tag.add_frame(id3::frame::ExtendedText {
        description: "mood".to_string(),
        value: "calm".to_string(),
    });
    tag.add_frame(id3::frame::ExtendedText {
        description: "tempo".to_string(),
        value: "slow".to_string(),
    });
    tag.add_frame(id3::frame::Comment {
        lang: "eng".to_string(),
        description: "".to_string(),
        text: "first".to_string(),
    });
    tag.add_frame(id3::frame::Comment {
        lang: "deu".to_string(),
        description: "".to_string(),
        text: "erste".to_string(),
    });
    tag.add_frame(id3::frame::Picture {
        mime_type: "image/png".to_string(),
        picture_type: id3::frame::PictureType::CoverFront,
        description: "front".to_string(),
        data: vec![1, 2, 3],
    });
    tag.add_frame(id3::frame::Picture {
        mime_type: "image/png".to_string(),
        picture_type: id3::frame::PictureType::CoverBack,
        description: "back".to_string(),
        data: vec![4, 5],
    });
    tag.add_frame(id3::frame::EncapsulatedObject {
        mime_type: "application/json".to_string(),
        filename: "a.json".to_string(),
        description: "settings".to_string(),
        data: vec![b'{', b'}'],
    });
    let records = load_tag(Ok(tag.clone())).unwrap();
    let rebuilt = update_tag(Err(no_tag()), &records).unwrap();
    let held: Vec<&Frame> = tag.frames().collect();
    let made: Vec<&Frame> = rebuilt.frames().collect();
    assert_eq!(made.len(), held.len());
    for (made, held) in made.iter().zip(held.iter()) {
        assert_eq!(made.id(), held.id());
        assert_eq!(made.content(), held.content());
    }
    assert_eq!(written(&rebuilt, Ok(())), Ok(records));
}
