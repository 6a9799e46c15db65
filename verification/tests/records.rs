use id3::frame::PictureType;
use tag_frames::content::FrameContent;
use tag_frames::error::{Field, TagError};
use tag_frames::record::{
    frame_record, payload_content, record_to_content, Fields, GenericRecord, Payload,
};
use tag_frames::content::Kind;

fn record(kind: &str, id: &str, payload: Payload) -> GenericRecord {
    GenericRecord { kind: kind.to_string(), id: id.to_string(), payload, remove: false }
}

fn samples() -> Vec<FrameContent> {
    vec![
        FrameContent::Text("Song A".to_string()),
        FrameContent::ExtendedText { description: "mood".to_string(), value: "calm".to_string() },
        FrameContent::Link("https://example.org".to_string()),
        FrameContent::ExtendedLink {
            description: "shop".to_string(),
            link: "https://example.org/shop".to_string(),
        },
        FrameContent::Comment {
            lang: "eng".to_string(),
            description: "note".to_string(),
            text: "first take".to_string(),
        },
        FrameContent::Lyrics {
            lang: "deu".to_string(),
            description: "".to_string(),
            text: "la la".to_string(),
        },
        FrameContent::Picture {
            mime_type: "image/jpeg".to_string(),
            picture_type: PictureType::CoverFront,
            description: "cover".to_string(),
            data: vec![0xff, 0xd8, 0x00, 0x01],
        },
        FrameContent::EncapsulatedObject {
            mime_type: "application/json".to_string(),
            filename: "a.json".to_string(),
            description: "settings".to_string(),
            data: vec![b'{', b'}'],
        },
        FrameContent::Unknown { data: vec![9, 8, 7] },
    ]
}

#[test]
fn a_text_frame_is_seen_as_a_plain_string() {
    let seen = frame_record("TIT2".to_string(), FrameContent::Text("Song A".to_string()));
    assert_eq!(seen.kind, "text");
    assert_eq!(seen.id, "TIT2");
    assert_eq!(seen.payload, Payload::Scalar("Song A".to_string()));
    assert!(!seen.remove);
}

#[test]
fn a_link_frame_is_seen_as_a_plain_string() {
    let seen = frame_record("WOAF".to_string(), FrameContent::Link("https://a.b".to_string()));
    assert_eq!(seen.kind, "link");
    assert_eq!(seen.payload, Payload::Scalar("https://a.b".to_string()));
}

#[test]
fn a_picture_frame_is_seen_with_its_four_fields() {
    let seen = frame_record(
        "APIC".to_string(),
        FrameContent::Picture {
            mime_type: "image/png".to_string(),
            picture_type: PictureType::CoverBack,
            description: "back".to_string(),
            data: vec![1, 2, 3],
        },
    );
    let mut fields = Fields::new();
    fields.mime_type = Some("image/png".to_string());
    fields.picture_type = Some(4);
    fields.description = Some("back".to_string());
    fields.data = Some(vec![1, 2, 3]);
    assert_eq!(seen.kind, "picture");
    assert_eq!(seen.id, "APIC");
    assert_eq!(seen.payload, Payload::Record(fields));
    assert!(!seen.remove);
}

#[test]
fn a_picture_without_a_named_type_is_seen_under_the_catch_all() {
    let seen = frame_record(
        "APIC".to_string(),
        FrameContent::Picture {
            mime_type: "image/png".to_string(),
            picture_type: PictureType::Undefined(42),
            description: "".to_string(),
            data: vec![],
        },
    );
    match seen.payload {
        Payload::Record(fields) => assert_eq!(fields.picture_type, Some(20)),
        Payload::Scalar(_) => panic!("a picture has a structured payload"),
    }
}

#[test]
fn an_unknown_frame_is_seen_with_its_data_alone() {
    let seen = frame_record("XXXX".to_string(), FrameContent::Unknown { data: vec![5, 6] });
    let mut fields = Fields::new();
    fields.data = Some(vec![5, 6]);
    assert_eq!(seen.kind, "unknown");
    assert_eq!(seen.payload, Payload::Record(fields));
}

#[test]
fn an_extended_text_frame_is_seen_with_value_and_description() {
    let seen = frame_record(
        "TXXX".to_string(),
        FrameContent::ExtendedText { description: "mood".to_string(), value: "calm".to_string() },
    );
    let mut fields = Fields::new();
    fields.value = Some("calm".to_string());
    fields.description = Some("mood".to_string());
    assert_eq!(seen.kind, "extended text");
    assert_eq!(seen.payload, Payload::Record(fields));
}

#[test]
fn every_content_comes_back_from_its_record() {
    for content in samples() {
        let seen = frame_record("ABCD".to_string(), content.clone());
        assert_eq!(record_to_content(&seen), Ok(content));
    }
}

#[test]
fn a_picture_type_without_a_name_does_not_come_back() {
    let content = FrameContent::Picture {
        mime_type: "image/png".to_string(),
        picture_type: PictureType::Undefined(21),
        description: "".to_string(),
        data: vec![1],
    };
    let seen = frame_record("APIC".to_string(), content);
    let back = record_to_content(&seen);
    assert_eq!(
        back,
        Ok(FrameContent::Picture {
            mime_type: "image/png".to_string(),
            picture_type: PictureType::Other,
            description: "".to_string(),
            data: vec![1],
        })
    );
}

#[test]
fn a_publisher_logo_comes_back_as_other() {
    let content = FrameContent::Picture {
        mime_type: "image/png".to_string(),
        picture_type: PictureType::PublisherLogo,
        description: "logo".to_string(),
        data: vec![1, 2],
    };
    let seen = frame_record("APIC".to_string(), content);
    match &seen.payload {
        Payload::Record(fields) => assert_eq!(fields.picture_type, Some(20)),
        Payload::Scalar(_) => panic!("a picture has a structured payload"),
    }
    assert_eq!(
        record_to_content(&seen),
        Ok(FrameContent::Picture {
            mime_type: "image/png".to_string(),
            picture_type: PictureType::Other,
            description: "logo".to_string(),
            data: vec![1, 2],
        })
    );
}

#[test]
fn a_kind_outside_the_set_is_refused() {
    let asked = record("rating", "POPM", Payload::Scalar("5".to_string()));
    assert_eq!(
        record_to_content(&asked),
        Err(TagError::UnsupportedKind { kind: "rating".to_string() })
    );
}

#[test]
fn a_text_record_needs_a_plain_string() {
    let asked = record("text", "TIT2", Payload::Record(Fields::new()));
    assert_eq!(record_to_content(&asked), Err(TagError::MissingField { field: Field::Scalar }));
}

#[test]
fn a_structured_record_needs_a_structured_payload() {
    let asked = record("comment", "COMM", Payload::Scalar("hello".to_string()));
    assert_eq!(record_to_content(&asked), Err(TagError::MissingField { field: Field::Lang }));
}

#[test]
fn a_picture_record_without_its_type_is_refused() {
    let mut fields = Fields::new();
    fields.mime_type = Some("image/png".to_string());
    fields.description = Some("".to_string());
    fields.data = Some(vec![]);
    let asked = record("picture", "APIC", Payload::Record(fields));
    assert_eq!(
        record_to_content(&asked),
        Err(TagError::MissingField { field: Field::PictureType })
    );
}

#[test]
fn the_first_missing_field_is_named() {
    let empty = Payload::Record(Fields::new());
    let first = |kind: Kind| match payload_content(&empty, kind) {
        Err(TagError::MissingField { field }) => field,
        other => panic!("expected a missing field, got {:?}", other),
    };
    assert_eq!(first(Kind::Text), Field::Scalar);
    assert_eq!(first(Kind::Link), Field::Scalar);
    assert_eq!(first(Kind::ExtendedText), Field::Description);
    assert_eq!(first(Kind::ExtendedLink), Field::Description);
    assert_eq!(first(Kind::Comment), Field::Lang);
    assert_eq!(first(Kind::Lyrics), Field::Lang);
    assert_eq!(first(Kind::Picture), Field::MimeType);
    assert_eq!(first(Kind::EncapsulatedObject), Field::MimeType);
    assert_eq!(first(Kind::Unknown), Field::Data);
}

#[test]
fn later_missing_fields_are_named_in_their_order() {
    let mut fields = Fields::new();
    fields.mime_type = Some("a/b".to_string());
    let step = |fields: &Fields, kind: Kind| match payload_content(
        &Payload::Record(fields.clone()),
        kind,
    ) {
        Err(TagError::MissingField { field }) => Some(field),
        Ok(_) => None,
        other => panic!("unexpected {:?}", other),
    };
    assert_eq!(step(&fields, Kind::EncapsulatedObject), Some(Field::Filename));
    fields.filename = Some("f".to_string());
    assert_eq!(step(&fields, Kind::EncapsulatedObject), Some(Field::Description));
    fields.description = Some("d".to_string());
    assert_eq!(step(&fields, Kind::EncapsulatedObject), Some(Field::Data));
    assert_eq!(step(&fields, Kind::Picture), Some(Field::PictureType));
    fields.data = Some(vec![1]);
    assert_eq!(step(&fields, Kind::EncapsulatedObject), None);
    fields.picture_type = Some(7);
    assert_eq!(step(&fields, Kind::Picture), None);
    assert_eq!(step(&fields, Kind::Comment), Some(Field::Lang));
    fields.lang = Some("eng".to_string());
    assert_eq!(step(&fields, Kind::Comment), Some(Field::Text));
    assert_eq!(step(&fields, Kind::ExtendedText), Some(Field::Value));
    assert_eq!(step(&fields, Kind::ExtendedLink), Some(Field::Link));
}

#[test]
fn fields_that_a_kind_does_not_ask_for_are_left_aside() {
    let mut fields = Fields::new();
    fields.data = Some(vec![1, 2]);
    fields.filename = Some("ignored".to_string());
    let asked = record("unknown", "ZZZZ", Payload::Record(fields));
    assert_eq!(record_to_content(&asked), Ok(FrameContent::Unknown { data: vec![1, 2] }));
}

#[test]
fn a_picture_number_above_twenty_means_other() {
    let mut fields = Fields::new();
    fields.mime_type = Some("image/png".to_string());
    fields.picture_type = Some(200);
    fields.description = Some("".to_string());
    fields.data = Some(vec![]);
    let asked = record("picture", "APIC", Payload::Record(fields));
    match record_to_content(&asked) {
        Ok(FrameContent::Picture { picture_type, .. }) => {
            assert_eq!(picture_type, PictureType::Other)
        },
        other => panic!("unexpected {:?}", other),
    }
}

#[test]
fn payload_parts_are_found_by_their_field() {
    let mut fields = Fields::new();
    fields.lang = Some("eng".to_string());
    fields.picture_type = Some(3);
    let structured = Payload::Record(fields);
    assert_eq!(structured.text(Field::Lang), Some(&"eng".to_string()));
    assert_eq!(structured.text(Field::Text), None);
    assert_eq!(structured.text(Field::Scalar), None);
    assert_eq!(structured.picture_type(), Some(3));
    assert_eq!(structured.data(), None);
    let plain = Payload::Scalar("x".to_string());
    assert_eq!(plain.text(Field::Scalar), Some(&"x".to_string()));
    assert_eq!(plain.text(Field::Lang), None);
    assert_eq!(plain.picture_type(), None);
    assert_eq!(plain.require_data(), Err(TagError::MissingField { field: Field::Data }));
    assert_eq!(plain.require_text(Field::Scalar), Ok("x".to_string()));
}
