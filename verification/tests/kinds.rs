use tag_frames::content::{FrameContent, Kind};
use tag_frames::text::{byte_len, same_text};

#[test]
fn every_kind_has_its_name() {
    assert_eq!(Kind::Text.as_str(), "text");
    assert_eq!(Kind::ExtendedText.as_str(), "extended text");
    assert_eq!(Kind::Link.as_str(), "link");
    assert_eq!(Kind::ExtendedLink.as_str(), "extended link");
    assert_eq!(Kind::Comment.as_str(), "comment");
    assert_eq!(Kind::Lyrics.as_str(), "lyrics");
    assert_eq!(Kind::Picture.as_str(), "picture");
    assert_eq!(Kind::EncapsulatedObject.as_str(), "encapsulated object");
    assert_eq!(Kind::Unknown.as_str(), "unknown");
}

#[test]
fn every_name_is_parsed_to_its_kind() {
    let kinds = [
        Kind::Text,
        Kind::ExtendedText,
        Kind::Link,
        Kind::ExtendedLink,
        Kind::Comment,
        Kind::Lyrics,
        Kind::Picture,
        Kind::EncapsulatedObject,
        Kind::Unknown,
    ];
    for kind in kinds {
        assert_eq!(Kind::parse(kind.as_str()), Some(kind));
    }
}

#[test]
fn other_strings_name_no_kind() {
    assert_eq!(Kind::parse(""), None);
    assert_eq!(Kind::parse("Text"), None);
    assert_eq!(Kind::parse("text "), None);
    assert_eq!(Kind::parse("rating"), None);
    assert_eq!(Kind::parse("extended  text"), None);
}

#[test]
fn content_knows_its_kind() {
    assert_eq!(FrameContent::Text("a".to_string()).kind(), Kind::Text);
    assert_eq!(FrameContent::Link("a".to_string()).kind(), Kind::Link);
    assert_eq!(FrameContent::Unknown { data: vec![1] }.kind(), Kind::Unknown);
    let comment = FrameContent::Comment {
        lang: "eng".to_string(),
        description: "d".to_string(),
        text: "t".to_string(),
    };
    assert_eq!(comment.kind(), Kind::Comment);
    let lyrics = FrameContent::Lyrics {
        lang: "eng".to_string(),
        description: "d".to_string(),
        text: "t".to_string(),
    };
    assert_eq!(lyrics.kind(), Kind::Lyrics);
}

#[test]
fn a_copy_of_content_is_equal_to_it() {
    let picture = FrameContent::Picture {
        mime_type: "image/png".to_string(),
        picture_type: id3::frame::PictureType::Artist,
        description: "photo".to_string(),
        data: vec![0, 1, 2, 255],
    };
    assert_eq!(picture.clone(), picture);
}

#[test]
fn texts_are_compared_by_their_characters() {
    assert!(same_text("picture", "picture"));
    assert!(same_text("", ""));
    assert!(!same_text("picture", "pictures"));
    assert!(!same_text("picture", "picturE"));
    assert!(!same_text("é", "e"));
}

#[test]
fn length_is_counted_in_bytes() {
    assert_eq!(byte_len(""), 0);
    assert_eq!(byte_len("TIT2"), 4);
    assert_eq!(byte_len("é12"), 4);
    assert_eq!(byte_len("日本"), 6);
}
