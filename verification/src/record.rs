//! The record under which a host sees a frame, and the way from records to
//! frame contents and back.

use crate::content::{
    has_own_number, lemma_picture_code_read_back, picture_code, picture_type_of,
    picture_type_to_u8, u8_to_picture_type, ContentView, FrameContent, Kind,
};
use crate::error::{Field, TagError, TagErrorView};
use id3::frame::PictureType;
use vstd::prelude::*;

verus! {

/// The named parts of a structured payload. A part that the host left out
/// is `None`.
#[derive(Debug, PartialEq, Eq)]
pub struct Fields {
    pub value: Option<String>,
    pub description: Option<String>,
    pub link: Option<String>,
    pub lang: Option<String>,
    pub text: Option<String>,
    pub mime_type: Option<String>,
    pub filename: Option<String>,
    pub picture_type: Option<u8>,
    pub data: Option<Vec<u8>>,
}

/// What a record carries besides its kind and identifier: a plain string, or
/// a structured value.
#[derive(Debug, PartialEq, Eq)]
pub enum Payload {
    Scalar(String),
    Record(Fields),
}

/// A frame as a host sees it, and an edit as a host requests it.
#[derive(Debug, PartialEq, Eq)]
pub struct GenericRecord {
    pub kind: String,
    pub id: String,
    pub payload: Payload,
    pub remove: bool,
}

/// What a [`Fields`] holds, as mathematical values.
pub struct FieldsView {
    pub value: Option<Seq<char>>,
    pub description: Option<Seq<char>>,
    pub link: Option<Seq<char>>,
    pub lang: Option<Seq<char>>,
    pub text: Option<Seq<char>>,
    pub mime_type: Option<Seq<char>>,
    pub filename: Option<Seq<char>>,
    pub picture_type: Option<u8>,
    pub data: Option<Seq<u8>>,
}

/// What a [`Payload`] holds, as mathematical values.
pub enum PayloadView {
    Scalar(Seq<char>),
    Record(FieldsView),
}

/// What a [`GenericRecord`] holds, as mathematical values.
pub struct RecordView {
    pub kind: Seq<char>,
    pub id: Seq<char>,
    pub payload: PayloadView,
    pub remove: bool,
}

/// The characters of an optional string.
pub open spec fn text_view(text: Option<String>) -> Option<Seq<char>> {
    match text {
        Some(text) => Some(text@),
        None => None,
    }
}

/// The characters of an optional borrowed string.
pub open spec fn text_view_of(text: Option<&String>) -> Option<Seq<char>> {
    match text {
        Some(text) => Some(text@),
        None => None,
    }
}

/// The bytes of an optional buffer.
pub open spec fn bytes_view(bytes: Option<Vec<u8>>) -> Option<Seq<u8>> {
    match bytes {
        Some(bytes) => Some(bytes@),
        None => None,
    }
}

impl View for Fields {
    type V = FieldsView;

    open spec fn view(&self) -> FieldsView {
        FieldsView {
            value: text_view(self.value),
            description: text_view(self.description),
            link: text_view(self.link),
            lang: text_view(self.lang),
            text: text_view(self.text),
            mime_type: text_view(self.mime_type),
            filename: text_view(self.filename),
            picture_type: self.picture_type,
            data: bytes_view(self.data),
        }
    }
}

impl View for Payload {
    type V = PayloadView;

    open spec fn view(&self) -> PayloadView {
        match *self {
            Payload::Scalar(text) => PayloadView::Scalar(text@),
            Payload::Record(fields) => PayloadView::Record(fields@),
        }
    }
}

impl View for GenericRecord {
    type V = RecordView;

    open spec fn view(&self) -> RecordView {
        RecordView { kind: self.kind@, id: self.id@, payload: self.payload@, remove: self.remove }
    }
}

/// A copy of an optional string.
fn copy_text(text: &Option<String>) -> (copy: Option<String>)
    ensures
        text_view(copy) == text_view(*text),
{
    match text {
        Some(text) => Some(text.clone()),
        None => None,
    }
}

/// A copy of an optional buffer.
fn copy_bytes(bytes: &Option<Vec<u8>>) -> (copy: Option<Vec<u8>>)
    ensures
        bytes_view(copy) == bytes_view(*bytes),
{
    match bytes {
        Some(bytes) => Some(bytes.clone()),
        None => None,
    }
}

impl Clone for Fields {
    /// A copy that holds the same values.
    fn clone(&self) -> (copy: Fields)
        ensures
            copy@ == self@,
    {
        Fields {
            value: copy_text(&self.value),
            description: copy_text(&self.description),
            link: copy_text(&self.link),
            lang: copy_text(&self.lang),
            text: copy_text(&self.text),
            mime_type: copy_text(&self.mime_type),
            filename: copy_text(&self.filename),
            picture_type: self.picture_type,
            data: copy_bytes(&self.data),
        }
    }
}

impl Clone for Payload {
    /// A copy that holds the same values.
    fn clone(&self) -> (copy: Payload)
        ensures
            copy@ == self@,
    {
        match self {
            Payload::Scalar(text) => Payload::Scalar(text.clone()),
            Payload::Record(fields) => Payload::Record(fields.clone()),
        }
    }
}

impl Clone for GenericRecord {
    /// A copy that holds the same values.
    fn clone(&self) -> (copy: GenericRecord)
        ensures
            copy@ == self@,
    {
        GenericRecord {
            kind: self.kind.clone(),
            id: self.id.clone(),
            payload: self.payload.clone(),
            remove: self.remove,
        }
    }
}

impl FieldsView {
    /// A structured value without any part.
    pub open spec fn empty() -> FieldsView {
        FieldsView {
            value: None,
            description: None,
            link: None,
            lang: None,
            text: None,
            mime_type: None,
            filename: None,
            picture_type: None,
            data: None,
        }
    }
}

impl PayloadView {
    /// The string that the payload holds under `field`, if it holds one.
    pub open spec fn text(self, field: Field) -> Option<Seq<char>> {
        match self {
            PayloadView::Scalar(text) => if field == Field::Scalar {
                Some(text)
            } else {
                None
            },
            PayloadView::Record(fields) => match field {
                Field::Value => fields.value,
                Field::Description => fields.description,
                Field::Link => fields.link,
                Field::Lang => fields.lang,
                Field::Text => fields.text,
                Field::MimeType => fields.mime_type,
                Field::Filename => fields.filename,
                _ => None,
            },
        }
    }

    /// The number of the picture type that the payload holds, if it holds
    /// one.
    pub open spec fn picture_type(self) -> Option<u8> {
        match self {
            PayloadView::Scalar(_) => None,
            PayloadView::Record(fields) => fields.picture_type,
        }
    }

    /// The binary data that the payload holds, if it holds any.
    pub open spec fn data(self) -> Option<Seq<u8>> {
        match self {
            PayloadView::Scalar(_) => None,
            PayloadView::Record(fields) => fields.data,
        }
    }

    /// Whether the payload holds `field`.
    pub open spec fn has(self, field: Field) -> bool {
        match field {
            Field::PictureType => self.picture_type() is Some,
            Field::Data => self.data() is Some,
            _ => self.text(field) is Some,
        }
    }

    /// `field` if the payload lacks it, and `later` otherwise.
    pub open spec fn lacks(self, field: Field, later: Option<Field>) -> Option<Field> {
        if self.has(field) {
            later
        } else {
            Some(field)
        }
    }

    /// The first field that content of `kind` requires and the payload
    /// lacks, in the order in which the fields are asked for.
    pub open spec fn missing(self, kind: Kind) -> Option<Field> {
        match kind {
            Kind::Text | Kind::Link => self.lacks(Field::Scalar, None),
            Kind::ExtendedText => self.lacks(Field::Description, self.lacks(Field::Value, None)),
            Kind::ExtendedLink => self.lacks(Field::Description, self.lacks(Field::Link, None)),
            Kind::Comment | Kind::Lyrics => self.lacks(
                Field::Lang,
                self.lacks(Field::Description, self.lacks(Field::Text, None)),
            ),
            Kind::Picture => self.lacks(
                Field::MimeType,
                self.lacks(
                    Field::PictureType,
                    self.lacks(Field::Description, self.lacks(Field::Data, None)),
                ),
            ),
            Kind::EncapsulatedObject => self.lacks(
                Field::MimeType,
                self.lacks(
                    Field::Filename,
                    self.lacks(Field::Description, self.lacks(Field::Data, None)),
                ),
            ),
            Kind::Unknown => self.lacks(Field::Data, None),
        }
    }

    /// The content of `kind` that the payload describes, where it lacks no
    /// field that `kind` requires.
    pub open spec fn content(self, kind: Kind) -> ContentView
        recommends
            self.missing(kind) is None,
    {
        match kind {
            Kind::Text => ContentView::Text(self.text(Field::Scalar).unwrap()),
            Kind::ExtendedText => ContentView::ExtendedText {
                description: self.text(Field::Description).unwrap(),
                value: self.text(Field::Value).unwrap(),
            },
            Kind::Link => ContentView::Link(self.text(Field::Scalar).unwrap()),
            Kind::ExtendedLink => ContentView::ExtendedLink {
                description: self.text(Field::Description).unwrap(),
                link: self.text(Field::Link).unwrap(),
            },
            Kind::Comment => ContentView::Comment {
                lang: self.text(Field::Lang).unwrap(),
                description: self.text(Field::Description).unwrap(),
                text: self.text(Field::Text).unwrap(),
            },
            Kind::Lyrics => ContentView::Lyrics {
                lang: self.text(Field::Lang).unwrap(),
                description: self.text(Field::Description).unwrap(),
                text: self.text(Field::Text).unwrap(),
            },
            Kind::Picture => ContentView::Picture {
                mime_type: self.text(Field::MimeType).unwrap(),
                picture_type: picture_type_of(self.picture_type().unwrap()),
                description: self.text(Field::Description).unwrap(),
                data: self.data().unwrap(),
            },
            Kind::EncapsulatedObject => ContentView::EncapsulatedObject {
                mime_type: self.text(Field::MimeType).unwrap(),
                filename: self.text(Field::Filename).unwrap(),
                description: self.text(Field::Description).unwrap(),
                data: self.data().unwrap(),
            },
            Kind::Unknown => ContentView::Unknown { data: self.data().unwrap() },
        }
    }
}

/// The payload under which a host sees `content`: a plain string for text
/// and link, a structured value with exactly the content's fields otherwise.
pub open spec fn payload_of(content: ContentView) -> PayloadView {
    match content {
        ContentView::Text(text) => PayloadView::Scalar(text),
        ContentView::ExtendedText { description, value } => PayloadView::Record(
            FieldsView { value: Some(value), description: Some(description), ..FieldsView::empty() },
        ),
        ContentView::Link(link) => PayloadView::Scalar(link),
        ContentView::ExtendedLink { description, link } => PayloadView::Record(
            FieldsView { description: Some(description), link: Some(link), ..FieldsView::empty() },
        ),
        ContentView::Comment { lang, description, text } | ContentView::Lyrics {
            lang,
            description,
            text,
        } => PayloadView::Record(
            FieldsView {
                lang: Some(lang),
                description: Some(description),
                text: Some(text),
                ..FieldsView::empty()
            },
        ),
        ContentView::Picture { mime_type, picture_type, description, data } => PayloadView::Record(
            FieldsView {
                mime_type: Some(mime_type),
                picture_type: Some(picture_code(picture_type)),
                description: Some(description),
                data: Some(data),
                ..FieldsView::empty()
            },
        ),
        ContentView::EncapsulatedObject {
            mime_type,
            filename,
            description,
            data,
        } => PayloadView::Record(
            FieldsView {
                mime_type: Some(mime_type),
                filename: Some(filename),
                description: Some(description),
                data: Some(data),
                ..FieldsView::empty()
            },
        ),
        ContentView::Unknown { data } => PayloadView::Record(
            FieldsView { data: Some(data), ..FieldsView::empty() },
        ),
    }
}

/// The record under which a host sees the frame with identifier `id` and
/// content `content`. It never asks for a removal.
pub open spec fn record_of(id: Seq<char>, content: ContentView) -> RecordView {
    RecordView { kind: content.kind().name(), id, payload: payload_of(content), remove: false }
}

/// The content that `record` describes: that of the kind that it names, made
/// of the fields of its payload. A kind outside the supported set is an
/// error, and so is a payload that lacks a field of the kind.
pub open spec fn record_content(record: RecordView) -> Result<ContentView, TagErrorView> {
    match Kind::named(record.kind) {
        None => Err(TagErrorView::UnsupportedKind { kind: record.kind }),
        Some(kind) => match record.payload.missing(kind) {
            Some(field) => Err(TagErrorView::MissingField { field }),
            None => Ok(record.payload.content(kind)),
        },
    }
}

/// The content of a result, as mathematical values.
pub open spec fn content_result_view(result: Result<FrameContent, TagError>) -> Result<
    ContentView,
    TagErrorView,
> {
    match result {
        Ok(content) => Ok(content@),
        Err(error) => Err(error@),
    }
}

impl Fields {
    /// A structured value without any part.
    pub fn new() -> (fields: Fields)
        ensures
            fields@ == FieldsView::empty(),
    {
        Fields {
            value: None,
            description: None,
            link: None,
            lang: None,
            text: None,
            mime_type: None,
            filename: None,
            picture_type: None,
            data: None,
        }
    }
}

impl Payload {
    /// The string that the payload holds under `field`, if it holds one.
    pub fn text(&self, field: Field) -> (text: Option<&String>)
        ensures
            text_view_of(text) == self@.text(field),
    {
        match self {
            Payload::Scalar(text) => match field {
                Field::Scalar => Some(text),
                _ => None,
            },
            Payload::Record(fields) => match field {
                Field::Value => fields.value.as_ref(),
                Field::Description => fields.description.as_ref(),
                Field::Link => fields.link.as_ref(),
                Field::Lang => fields.lang.as_ref(),
                Field::Text => fields.text.as_ref(),
                Field::MimeType => fields.mime_type.as_ref(),
                Field::Filename => fields.filename.as_ref(),
                _ => None,
            },
        }
    }

    /// The number of the picture type that the payload holds, if it holds
    /// one.
    pub fn picture_type(&self) -> (code: Option<u8>)
        ensures
            code == self@.picture_type(),
    {
        match self {
            Payload::Scalar(_) => None,
            Payload::Record(fields) => fields.picture_type,
        }
    }

    /// The binary data that the payload holds, if it holds any.
    pub fn data(&self) -> (data: Option<&Vec<u8>>)
        ensures
            data is Some == self@.data() is Some,
            data matches Some(bytes) ==> self@.data() == Some(bytes@),
    {
        match self {
            Payload::Scalar(_) => None,
            Payload::Record(fields) => fields.data.as_ref(),
        }
    }

    /// A copy of the string under `field`, or the error that names `field`
    /// as missing.
    pub fn require_text(&self, field: Field) -> (text: Result<String, TagError>)
        ensures
            match self@.text(field) {
                Some(held) => text matches Ok(copy) && copy@ == held,
                None => text matches Err(error) && error@ == (TagErrorView::MissingField { field }),
            },
    {
        match self.text(field) {
            Some(text) => Ok(text.clone()),
            None => Err(TagError::MissingField { field }),
        }
    }

    /// The number of the picture type, or the error that names it as
    /// missing.
    pub fn require_picture_type(&self) -> (code: Result<u8, TagError>)
        ensures
            match self@.picture_type() {
                Some(held) => code == Ok::<u8, TagError>(held),
                None => code matches Err(error) && error@ == (TagErrorView::MissingField {
                    field: Field::PictureType,
                }),
            },
    {
        match self.picture_type() {
            Some(code) => Ok(code),
            None => Err(TagError::MissingField { field: Field::PictureType }),
        }
    }

    /// A copy of the binary data, or the error that names it as missing.
    pub fn require_data(&self) -> (data: Result<Vec<u8>, TagError>)
        ensures
            match self@.data() {
                Some(held) => data matches Ok(copy) && copy@ == held,
                None => data matches Err(error) && error@ == (TagErrorView::MissingField {
                    field: Field::Data,
                }),
            },
    {
        match self.data() {
            Some(data) => Ok(data.clone()),
            None => Err(TagError::MissingField { field: Field::Data }),
        }
    }
}

/// The record under which a host sees the frame with identifier `id` and
/// content `content`.
pub fn frame_record(id: String, content: FrameContent) -> (record: GenericRecord)
    ensures
        record@ == record_of(id@, content@),
{
    let kind = content.kind().as_str().to_owned();
    let payload = match content {
        FrameContent::Text(text) => Payload::Scalar(text),
        FrameContent::ExtendedText { description, value } => {
            let mut fields = Fields::new();
            fields.value = Some(value);
            fields.description = Some(description);
            Payload::Record(fields)
        },
        FrameContent::Link(link) => Payload::Scalar(link),
        FrameContent::ExtendedLink { description, link } => {
            let mut fields = Fields::new();
            fields.description = Some(description);
            fields.link = Some(link);
            Payload::Record(fields)
        },
        FrameContent::Comment { lang, description, text } => {
            let mut fields = Fields::new();
            fields.lang = Some(lang);
            fields.description = Some(description);
            fields.text = Some(text);
            Payload::Record(fields)
        },
        FrameContent::Lyrics { lang, description, text } => {
            let mut fields = Fields::new();
            fields.lang = Some(lang);
            fields.description = Some(description);
            fields.text = Some(text);
            Payload::Record(fields)
        },
        FrameContent::Picture { mime_type, picture_type, description, data } => {
            let mut fields = Fields::new();
            fields.mime_type = Some(mime_type);
            fields.picture_type = Some(picture_type_to_u8(picture_type));
            fields.description = Some(description);
            fields.data = Some(data);
            Payload::Record(fields)
        },
        FrameContent::EncapsulatedObject { mime_type, filename, description, data } => {
            let mut fields = Fields::new();
            fields.mime_type = Some(mime_type);
            fields.filename = Some(filename);
            fields.description = Some(description);
            fields.data = Some(data);
            Payload::Record(fields)
        },
        FrameContent::Unknown { data } => {
            let mut fields = Fields::new();
            fields.data = Some(data);
            Payload::Record(fields)
        },
    };
    GenericRecord { kind, id, payload, remove: false }
}

/// The content of `kind` that `payload` describes, or the error that names
/// the first field that `kind` requires and `payload` lacks.
pub fn payload_content(payload: &Payload, kind: Kind) -> (content: Result<FrameContent, TagError>)
    ensures
        content_result_view(content) == match payload@.missing(kind) {
            Some(field) => Err::<ContentView, TagErrorView>(TagErrorView::MissingField { field }),
            None => Ok(payload@.content(kind)),
        },
{
    match kind {
        Kind::Text => Ok(FrameContent::Text(payload.require_text(Field::Scalar)?)),
        Kind::ExtendedText => {
            let description = payload.require_text(Field::Description)?;
            let value = payload.require_text(Field::Value)?;
            Ok(FrameContent::ExtendedText { description, value })
        },
        Kind::Link => Ok(FrameContent::Link(payload.require_text(Field::Scalar)?)),
        Kind::ExtendedLink => {
            let description = payload.require_text(Field::Description)?;
            let link = payload.require_text(Field::Link)?;
            Ok(FrameContent::ExtendedLink { description, link })
        },
        Kind::Comment => {
            let lang = payload.require_text(Field::Lang)?;
            let description = payload.require_text(Field::Description)?;
            let text = payload.require_text(Field::Text)?;
            Ok(FrameContent::Comment { lang, description, text })
        },
        Kind::Lyrics => {
            let lang = payload.require_text(Field::Lang)?;
            let description = payload.require_text(Field::Description)?;
            let text = payload.require_text(Field::Text)?;
            Ok(FrameContent::Lyrics { lang, description, text })
        },
        Kind::Picture => {
            let mime_type = payload.require_text(Field::MimeType)?;
            let picture_type = u8_to_picture_type(payload.require_picture_type()?);
            let description = payload.require_text(Field::Description)?;
            let data = payload.require_data()?;
            Ok(FrameContent::Picture { mime_type, picture_type, description, data })
        },
        Kind::EncapsulatedObject => {
            let mime_type = payload.require_text(Field::MimeType)?;
            let filename = payload.require_text(Field::Filename)?;
            let description = payload.require_text(Field::Description)?;
            let data = payload.require_data()?;
            Ok(FrameContent::EncapsulatedObject { mime_type, filename, description, data })
        },
        Kind::Unknown => Ok(FrameContent::Unknown { data: payload.require_data()? }),
    }
}

/// The content that `record` describes. Fails with `UnsupportedKind` where
/// the record's kind is none of the nine names, and with `MissingField`
/// where its payload lacks a field of the kind.
pub fn record_to_content(record: &GenericRecord) -> (content: Result<FrameContent, TagError>)
    ensures
        content_result_view(content) == record_content(record@),
{
    match Kind::parse(record.kind.as_str()) {
        None => Err(TagError::UnsupportedKind { kind: record.kind.clone() }),
        Some(kind) => payload_content(&record.payload, kind),
    }
}

/// What comes of `content` when its record is read back as content: the
/// content itself, but for a picture whose type has no number of its own,
/// which comes back as a picture of type `Other` with the same MIME type,
/// description and data.
pub open spec fn read_back(content: ContentView) -> ContentView {
    match content {
        ContentView::Picture {
            mime_type,
            picture_type,
            description,
            data,
        } => ContentView::Picture {
            mime_type,
            picture_type: if has_own_number(picture_type) {
                picture_type
            } else {
                PictureType::Other
            },
            description,
            data,
        },
        _ => content,
    }
}

/// Reading a content's record back gives the content again: the same
/// variant with the same fields. A picture keeps its type where the type
/// has a number of its own; a picture of type `PublisherLogo`, or of a type
/// without a name, is seen under the catch-all number and comes back as a
/// picture of type `Other`.
pub proof fn lemma_round_trip(id: Seq<char>, content: ContentView)
    ensures
        record_content(record_of(id, content)) == Ok::<ContentView, TagErrorView>(
            read_back(content),
        ),
        !(content matches ContentView::Picture { picture_type, .. } && !has_own_number(
            picture_type,
        )) ==> read_back(content) == content,
{
    Kind::lemma_named_by_own_name(content.kind());
    if let ContentView::Picture { picture_type, .. } = content {
        lemma_picture_code_read_back(picture_type);
    }
}

} // verus!
