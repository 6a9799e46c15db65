//! The closed set of frame contents that the library reads and writes, and
//! the names under which a host sees them.

use crate::text::same_text;
use id3::frame::PictureType;
use vstd::prelude::*;

verus! {

/// The number under which a host sees a picture type, from 0 to 20. `Other`
/// is 0 and the types from `Icon` to `BandLogo` are 1 to 19. The number 20
/// is the catch-all: a host sees it for every type without a number of its
/// own, which are `PublisherLogo` and the types that the codec has no name
/// for.
pub open spec fn picture_code(picture_type: PictureType) -> u8 {
    match picture_type {
        PictureType::Other => 0,
        PictureType::Icon => 1,
        PictureType::OtherIcon => 2,
        PictureType::CoverFront => 3,
        PictureType::CoverBack => 4,
        PictureType::Leaflet => 5,
        PictureType::Media => 6,
        PictureType::LeadArtist => 7,
        PictureType::Artist => 8,
        PictureType::Conductor => 9,
        PictureType::Band => 10,
        PictureType::Composer => 11,
        PictureType::Lyricist => 12,
        PictureType::RecordingLocation => 13,
        PictureType::DuringRecording => 14,
        PictureType::DuringPerformance => 15,
        PictureType::ScreenCapture => 16,
        PictureType::BrightFish => 17,
        PictureType::Illustration => 18,
        PictureType::BandLogo => 19,
        PictureType::PublisherLogo => 20,
        PictureType::Undefined(_) => 20,
    }
}

/// Whether `picture_type` has a number of its own among the numbers that a
/// host uses: every type but `PublisherLogo` and the types without a name.
pub open spec fn has_own_number(picture_type: PictureType) -> bool {
    picture_type !is Undefined && picture_type !is PublisherLogo
}

/// Whether `picture_type` is what a host means by `code`: the type with that
/// number for 1 to 19, and `Other` for 0, for the catch-all 20 and for every
/// number above it.
pub open spec fn is_picture_type_of(picture_type: PictureType, code: u8) -> bool {
    &&& has_own_number(picture_type)
    &&& picture_code(picture_type) == (if code <= 19 {
        code
    } else {
        0
    })
}

/// The picture type that a host means by `code`.
pub open spec fn picture_type_of(code: u8) -> PictureType {
    choose|picture_type: PictureType| is_picture_type_of(picture_type, code)
}

/// Two picture types with the same number of their own are the same type.
pub proof fn lemma_numbered_picture_types_differ(a: PictureType, b: PictureType)
    requires
        has_own_number(a),
        has_own_number(b),
        picture_code(a) == picture_code(b),
    ensures
        a == b,
{
}

/// Every number has its picture type: one with a number of its own.
pub proof fn lemma_every_code_has_its_type(code: u8)
    ensures
        is_picture_type_of(picture_type_of(code), code),
{
    if code == 1 {
        assert(is_picture_type_of(PictureType::Icon, code));
    } else if code == 2 {
        assert(is_picture_type_of(PictureType::OtherIcon, code));
    } else if code == 3 {
        assert(is_picture_type_of(PictureType::CoverFront, code));
    } else if code == 4 {
        assert(is_picture_type_of(PictureType::CoverBack, code));
    } else if code == 5 {
        assert(is_picture_type_of(PictureType::Leaflet, code));
    } else if code == 6 {
        assert(is_picture_type_of(PictureType::Media, code));
    } else if code == 7 {
        assert(is_picture_type_of(PictureType::LeadArtist, code));
    } else if code == 8 {
        assert(is_picture_type_of(PictureType::Artist, code));
    } else if code == 9 {
        assert(is_picture_type_of(PictureType::Conductor, code));
    } else if code == 10 {
        assert(is_picture_type_of(PictureType::Band, code));
    } else if code == 11 {
        assert(is_picture_type_of(PictureType::Composer, code));
    } else if code == 12 {
        assert(is_picture_type_of(PictureType::Lyricist, code));
    } else if code == 13 {
        assert(is_picture_type_of(PictureType::RecordingLocation, code));
    } else if code == 14 {
        assert(is_picture_type_of(PictureType::DuringRecording, code));
    } else if code == 15 {
        assert(is_picture_type_of(PictureType::DuringPerformance, code));
    } else if code == 16 {
        assert(is_picture_type_of(PictureType::ScreenCapture, code));
    } else if code == 17 {
        assert(is_picture_type_of(PictureType::BrightFish, code));
    } else if code == 18 {
        assert(is_picture_type_of(PictureType::Illustration, code));
    } else if code == 19 {
        assert(is_picture_type_of(PictureType::BandLogo, code));
    } else {
        assert(is_picture_type_of(PictureType::Other, code));
    }
}

/// Every picture type is seen under a number from 0 to 20. A type with a
/// number of its own is what a host means by that number; every other type
/// is seen under 20, by which a host means `Other`.
pub proof fn lemma_picture_code_read_back(picture_type: PictureType)
    ensures
        picture_code(picture_type) <= 20,
        has_own_number(picture_type) ==> picture_type_of(picture_code(picture_type))
            == picture_type,
        !has_own_number(picture_type) ==> picture_code(picture_type) == 20 && picture_type_of(
            picture_code(picture_type),
        ) == PictureType::Other,
{
    let code = picture_code(picture_type);
    lemma_every_code_has_its_type(code);
    if has_own_number(picture_type) {
        assert(is_picture_type_of(picture_type, code));
        lemma_numbered_picture_types_differ(picture_type, picture_type_of(code));
    } else {
        lemma_numbered_picture_types_differ(PictureType::Other, picture_type_of(code));
    }
}

/// The number of a picture type, as a host sees it.
pub fn picture_type_to_u8(picture_type: PictureType) -> (code: u8)
    ensures
        code == picture_code(picture_type),
        code <= 20,
{
    match picture_type {
        PictureType::Other => 0,
        PictureType::Icon => 1,
        PictureType::OtherIcon => 2,
        PictureType::CoverFront => 3,
        PictureType::CoverBack => 4,
        PictureType::Leaflet => 5,
        PictureType::Media => 6,
        PictureType::LeadArtist => 7,
        PictureType::Artist => 8,
        PictureType::Conductor => 9,
        PictureType::Band => 10,
        PictureType::Composer => 11,
        PictureType::Lyricist => 12,
        PictureType::RecordingLocation => 13,
        PictureType::DuringRecording => 14,
        PictureType::DuringPerformance => 15,
        PictureType::ScreenCapture => 16,
        PictureType::BrightFish => 17,
        PictureType::Illustration => 18,
        PictureType::BandLogo => 19,
        PictureType::PublisherLogo => 20,
        PictureType::Undefined(_) => 20,
    }
}

/// The picture type for a number that a host supplied: the type with that
/// number for 1 to 19, and `Other` for 0, for the catch-all 20 and for every
/// number above it.
pub fn u8_to_picture_type(code: u8) -> (picture_type: PictureType)
    ensures
        is_picture_type_of(picture_type, code),
        picture_type == picture_type_of(code),
{
    let picture_type = match code {
        1 => PictureType::Icon,
        2 => PictureType::OtherIcon,
        3 => PictureType::CoverFront,
        4 => PictureType::CoverBack,
        5 => PictureType::Leaflet,
        6 => PictureType::Media,
        7 => PictureType::LeadArtist,
        8 => PictureType::Artist,
        9 => PictureType::Conductor,
        10 => PictureType::Band,
        11 => PictureType::Composer,
        12 => PictureType::Lyricist,
        13 => PictureType::RecordingLocation,
        14 => PictureType::DuringRecording,
        15 => PictureType::DuringPerformance,
        16 => PictureType::ScreenCapture,
        17 => PictureType::BrightFish,
        18 => PictureType::Illustration,
        19 => PictureType::BandLogo,
        _ => PictureType::Other,
    };
    proof {
        assert(is_picture_type_of(picture_type, code));
        lemma_numbered_picture_types_differ(picture_type, picture_type_of(code));
    }
    picture_type
}

/// The content of a frame: one variant for each kind of content that the
/// library reads and writes.
#[derive(Debug, PartialEq, Eq)]
pub enum FrameContent {
    Text(String),
    ExtendedText { description: String, value: String },
    Link(String),
    ExtendedLink { description: String, link: String },
    Comment { lang: String, description: String, text: String },
    Lyrics { lang: String, description: String, text: String },
    Picture { mime_type: String, picture_type: PictureType, description: String, data: Vec<u8> },
    EncapsulatedObject { mime_type: String, filename: String, description: String, data: Vec<u8> },
    Unknown { data: Vec<u8> },
}

/// What a [`FrameContent`] holds, as mathematical values.
pub enum ContentView {
    Text(Seq<char>),
    ExtendedText { description: Seq<char>, value: Seq<char> },
    Link(Seq<char>),
    ExtendedLink { description: Seq<char>, link: Seq<char> },
    Comment { lang: Seq<char>, description: Seq<char>, text: Seq<char> },
    Lyrics { lang: Seq<char>, description: Seq<char>, text: Seq<char> },
    Picture {
        mime_type: Seq<char>,
        picture_type: PictureType,
        description: Seq<char>,
        data: Seq<u8>,
    },
    EncapsulatedObject {
        mime_type: Seq<char>,
        filename: Seq<char>,
        description: Seq<char>,
        data: Seq<u8>,
    },
    Unknown { data: Seq<u8> },
}

impl View for FrameContent {
    type V = ContentView;

    open spec fn view(&self) -> ContentView {
        match *self {
            FrameContent::Text(text) => ContentView::Text(text@),
            FrameContent::ExtendedText { description, value } => ContentView::ExtendedText {
                description: description@,
                value: value@,
            },
            FrameContent::Link(link) => ContentView::Link(link@),
            FrameContent::ExtendedLink { description, link } => ContentView::ExtendedLink {
                description: description@,
                link: link@,
            },
            FrameContent::Comment { lang, description, text } => ContentView::Comment {
                lang: lang@,
                description: description@,
                text: text@,
            },
            FrameContent::Lyrics { lang, description, text } => ContentView::Lyrics {
                lang: lang@,
                description: description@,
                text: text@,
            },
            FrameContent::Picture { mime_type, picture_type, description, data } => ContentView::Picture {
                mime_type: mime_type@,
                picture_type,
                description: description@,
                data: data@,
            },
            FrameContent::EncapsulatedObject {
                mime_type,
                filename,
                description,
                data,
            } => ContentView::EncapsulatedObject {
                mime_type: mime_type@,
                filename: filename@,
                description: description@,
                data: data@,
            },
            FrameContent::Unknown { data } => ContentView::Unknown { data: data@ },
        }
    }
}

impl Clone for FrameContent {
    /// A copy that holds the same values.
    fn clone(&self) -> (copy: FrameContent)
        ensures
            copy@ == self@,
    {
        match self {
            FrameContent::Text(text) => FrameContent::Text(text.clone()),
            FrameContent::ExtendedText { description, value } => FrameContent::ExtendedText {
                description: description.clone(),
                value: value.clone(),
            },
            FrameContent::Link(link) => FrameContent::Link(link.clone()),
            FrameContent::ExtendedLink { description, link } => FrameContent::ExtendedLink {
                description: description.clone(),
                link: link.clone(),
            },
            FrameContent::Comment { lang, description, text } => FrameContent::Comment {
                lang: lang.clone(),
                description: description.clone(),
                text: text.clone(),
            },
            FrameContent::Lyrics { lang, description, text } => FrameContent::Lyrics {
                lang: lang.clone(),
                description: description.clone(),
                text: text.clone(),
            },
            FrameContent::Picture {
                mime_type,
                picture_type,
                description,
                data,
            } => FrameContent::Picture {
                mime_type: mime_type.clone(),
                picture_type: *picture_type,
                description: description.clone(),
                data: data.clone(),
            },
            FrameContent::EncapsulatedObject {
                mime_type,
                filename,
                description,
                data,
            } => FrameContent::EncapsulatedObject {
                mime_type: mime_type.clone(),
                filename: filename.clone(),
                description: description.clone(),
                data: data.clone(),
            },
            FrameContent::Unknown { data } => FrameContent::Unknown { data: data.clone() },
        }
    }
}

/// The kinds of content, one for each variant of [`FrameContent`].
#[derive(Clone, Copy, Debug, PartialEq, Eq, Structural)]
pub enum Kind {
    Text,
    ExtendedText,
    Link,
    ExtendedLink,
    Comment,
    Lyrics,
    Picture,
    EncapsulatedObject,
    Unknown,
}

impl ContentView {
    /// The kind of this content.
    pub open spec fn kind(self) -> Kind {
        match self {
            ContentView::Text(_) => Kind::Text,
            ContentView::ExtendedText { .. } => Kind::ExtendedText,
            ContentView::Link(_) => Kind::Link,
            ContentView::ExtendedLink { .. } => Kind::ExtendedLink,
            ContentView::Comment { .. } => Kind::Comment,
            ContentView::Lyrics { .. } => Kind::Lyrics,
            ContentView::Picture { .. } => Kind::Picture,
            ContentView::EncapsulatedObject { .. } => Kind::EncapsulatedObject,
            ContentView::Unknown { .. } => Kind::Unknown,
        }
    }
}

impl FrameContent {
    /// The kind of this content.
    pub fn kind(&self) -> (kind: Kind)
        ensures
            kind == self@.kind(),
    {
        match self {
            FrameContent::Text(_) => Kind::Text,
            FrameContent::ExtendedText { .. } => Kind::ExtendedText,
            FrameContent::Link(_) => Kind::Link,
            FrameContent::ExtendedLink { .. } => Kind::ExtendedLink,
            FrameContent::Comment { .. } => Kind::Comment,
            FrameContent::Lyrics { .. } => Kind::Lyrics,
            FrameContent::Picture { .. } => Kind::Picture,
            FrameContent::EncapsulatedObject { .. } => Kind::EncapsulatedObject,
            FrameContent::Unknown { .. } => Kind::Unknown,
        }
    }
}

impl Kind {
    /// The string under which a host names this kind.
    pub open spec fn name(self) -> Seq<char> {
        match self {
            Kind::Text => "text"@,
            Kind::ExtendedText => "extended text"@,
            Kind::Link => "link"@,
            Kind::ExtendedLink => "extended link"@,
            Kind::Comment => "comment"@,
            Kind::Lyrics => "lyrics"@,
            Kind::Picture => "picture"@,
            Kind::EncapsulatedObject => "encapsulated object"@,
            Kind::Unknown => "unknown"@,
        }
    }

    /// The kind that `name` names, if it names one.
    pub open spec fn named(name: Seq<char>) -> Option<Kind> {
        if exists|kind: Kind| kind.name() == name {
            Some(choose|kind: Kind| kind.name() == name)
        } else {
            None
        }
    }

    /// No two kinds share a name.
    pub proof fn lemma_names_differ(a: Kind, b: Kind)
        requires
            a.name() == b.name(),
        ensures
            a == b,
    {
        reveal_strlit("text");
        reveal_strlit("extended text");
        reveal_strlit("link");
        reveal_strlit("extended link");
        reveal_strlit("comment");
        reveal_strlit("lyrics");
        reveal_strlit("picture");
        reveal_strlit("encapsulated object");
        reveal_strlit("unknown");
        assert("text"@.len() == 4 && "text"@[0] == 't');
        assert("extended text"@.len() == 13 && "extended text"@[9] == 't');
        assert("link"@.len() == 4 && "link"@[0] == 'l');
        assert("extended link"@.len() == 13 && "extended link"@[9] == 'l');
        assert("comment"@.len() == 7 && "comment"@[0] == 'c');
        assert("lyrics"@.len() == 6);
        assert("picture"@.len() == 7 && "picture"@[0] == 'p');
        assert("encapsulated object"@.len() == 19);
        assert("unknown"@.len() == 7 && "unknown"@[0] == 'u');
    }

    /// A kind is the one that its own name names.
    pub proof fn lemma_named_by_own_name(kind: Kind)
        ensures
            Kind::named(kind.name()) == Some(kind),
    {
        let found = choose|other: Kind| other.name() == kind.name();
        Kind::lemma_names_differ(found, kind);
    }

    /// The string under which a host names this kind.
    pub fn as_str(self) -> (name: &'static str)
        ensures
            name@ == self.name(),
    {
        match self {
            Kind::Text => "text",
            Kind::ExtendedText => "extended text",
            Kind::Link => "link",
            Kind::ExtendedLink => "extended link",
            Kind::Comment => "comment",
            Kind::Lyrics => "lyrics",
            Kind::Picture => "picture",
            Kind::EncapsulatedObject => "encapsulated object",
            Kind::Unknown => "unknown",
        }
    }

    /// The kind that `name` names: `None` for a string outside the nine
    /// names.
    pub fn parse(name: &str) -> (kind: Option<Kind>)
        ensures
            kind == Kind::named(name@),
    {
        let kind = if same_text(name, "text") {
            Some(Kind::Text)
        } else if same_text(name, "extended text") {
            Some(Kind::ExtendedText)
        } else if same_text(name, "link") {
            Some(Kind::Link)
        } else if same_text(name, "extended link") {
            Some(Kind::ExtendedLink)
        } else if same_text(name, "comment") {
            Some(Kind::Comment)
        } else if same_text(name, "lyrics") {
            Some(Kind::Lyrics)
        } else if same_text(name, "picture") {
            Some(Kind::Picture)
        } else if same_text(name, "encapsulated object") {
            Some(Kind::EncapsulatedObject)
        } else if same_text(name, "unknown") {
            Some(Kind::Unknown)
        } else {
            None
        };
        proof {
            match kind {
                Some(found) => {
                    assert(found.name() == name@);
                    Kind::lemma_named_by_own_name(found);
                },
                None => {
                    assert forall|other: Kind| other.name() != name@ by {
                    }
                },
            }
        }
        kind
    }
}

} // verus!
