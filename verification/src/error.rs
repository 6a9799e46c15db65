//! The failures that the library reports.

use vstd::prelude::*;
use vstd::string::StringExecFns;

verus! {

/// A part of a record's payload.
#[derive(Clone, Copy, Debug, PartialEq, Eq, Structural)]
pub enum Field {
    /// The payload itself, where it is a plain string.
    Scalar,
    Value,
    Description,
    Link,
    Lang,
    Text,
    MimeType,
    Filename,
    PictureType,
    Data,
}

/// Why a call was given up. Every failure ends the call: nothing is
/// returned in part.
#[derive(Debug, PartialEq, Eq)]
pub enum TagError {
    /// A frame of the tag holds content outside the supported set.
    UnsupportedContent { id: String },
    /// A record names a kind outside the supported set.
    UnsupportedKind { kind: String },
    /// A record's payload lacks a field that its kind requires.
    MissingField { field: Field },
    /// A record asks for a frame whose identifier is not three or four
    /// bytes long.
    InvalidFrameId { id: String },
    /// The tag could not be read, for another reason than its absence.
    ReadFailure { description: String },
    /// The tag could not be written.
    WriteFailure { description: String },
}

/// What a [`TagError`] holds, as mathematical values.
pub enum TagErrorView {
    UnsupportedContent { id: Seq<char> },
    UnsupportedKind { kind: Seq<char> },
    MissingField { field: Field },
    InvalidFrameId { id: Seq<char> },
    ReadFailure { description: Seq<char> },
    WriteFailure { description: Seq<char> },
}

impl View for TagError {
    type V = TagErrorView;

    open spec fn view(&self) -> TagErrorView {
        match *self {
            TagError::UnsupportedContent { id } => TagErrorView::UnsupportedContent { id: id@ },
            TagError::UnsupportedKind { kind } => TagErrorView::UnsupportedKind { kind: kind@ },
            TagError::MissingField { field } => TagErrorView::MissingField { field },
            TagError::InvalidFrameId { id } => TagErrorView::InvalidFrameId { id: id@ },
            TagError::ReadFailure { description } => TagErrorView::ReadFailure {
                description: description@,
            },
            TagError::WriteFailure { description } => TagErrorView::WriteFailure {
                description: description@,
            },
        }
    }
}

impl Clone for TagError {
    /// A copy that holds the same values.
    fn clone(&self) -> (copy: TagError)
        ensures
            copy@ == self@,
    {
        match self {
            TagError::UnsupportedContent { id } => TagError::UnsupportedContent { id: id.clone() },
            TagError::UnsupportedKind { kind } => TagError::UnsupportedKind { kind: kind.clone() },
            TagError::MissingField { field } => TagError::MissingField { field: *field },
            TagError::InvalidFrameId { id } => TagError::InvalidFrameId { id: id.clone() },
            TagError::ReadFailure { description } => TagError::ReadFailure {
                description: description.clone(),
            },
            TagError::WriteFailure { description } => TagError::WriteFailure {
                description: description.clone(),
            },
        }
    }
}

impl Field {
    /// The name under which a host gives this part of a payload. The payload
    /// itself has none, and goes by `payload`.
    pub open spec fn name(self) -> Seq<char> {
        match self {
            Field::Scalar => "payload"@,
            Field::Value => "value"@,
            Field::Description => "description"@,
            Field::Link => "link"@,
            Field::Lang => "lang"@,
            Field::Text => "text"@,
            Field::MimeType => "MIMEType"@,
            Field::Filename => "filename"@,
            Field::PictureType => "pictureType"@,
            Field::Data => "data"@,
        }
    }

    /// The name under which a host gives this part of a payload.
    pub fn as_str(self) -> (name: &'static str)
        ensures
            name@ == self.name(),
    {
        match self {
            Field::Scalar => "payload",
            Field::Value => "value",
            Field::Description => "description",
            Field::Link => "link",
            Field::Lang => "lang",
            Field::Text => "text",
            Field::MimeType => "MIMEType",
            Field::Filename => "filename",
            Field::PictureType => "pictureType",
            Field::Data => "data",
        }
    }
}

impl TagErrorView {
    /// The words in which the failure is told to a host.
    pub open spec fn message(self) -> Seq<char> {
        match self {
            TagErrorView::UnsupportedContent { id } => "unsupported content in frame "@ + id,
            TagErrorView::UnsupportedKind { kind } => "unsupported kind of frame: "@ + kind,
            TagErrorView::MissingField { field } => field.name() + " not provided"@,
            TagErrorView::InvalidFrameId { id } => "invalid frame identifier: "@ + id,
            TagErrorView::ReadFailure { description } => "error reading tag: "@ + description,
            TagErrorView::WriteFailure { description } => "failed saving tag: "@ + description,
        }
    }
}

impl TagError {
    /// The words in which the failure is told to a host.
    pub fn message(&self) -> (message: String)
        ensures
            message@ == self@.message(),
    {
        match self {
            TagError::UnsupportedContent { id } => {
                let mut message = "unsupported content in frame ".to_owned();
                message.append(id.as_str());
                message
            },
            TagError::UnsupportedKind { kind } => {
                let mut message = "unsupported kind of frame: ".to_owned();
                message.append(kind.as_str());
                message
            },
            TagError::MissingField { field } => {
                let mut message = field.as_str().to_owned();
                message.append(" not provided");
                message
            },
            TagError::InvalidFrameId { id } => {
                let mut message = "invalid frame identifier: ".to_owned();
                message.append(id.as_str());
                message
            },
            TagError::ReadFailure { description } => {
                let mut message = "error reading tag: ".to_owned();
                message.append(description.as_str());
                message
            },
            TagError::WriteFailure { description } => {
                let mut message = "failed saving tag: ".to_owned();
                message.append(description.as_str());
                message
            },
        }
    }
}

} // verus!
