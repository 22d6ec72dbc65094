//! What the store asks of its shell, what the shell answers, and how things fail.

use crate::config::{Content, ContentView};
use vstd::prelude::*;

verus! {

/// The ways in which loading or saving can fail.
#[derive(Clone, Copy, Debug, PartialEq, Eq, Structural)]
pub enum Failure {
    /// The file exists but could not be opened or read.
    UnreadableFile,
    /// The file's text is not a settings document.
    MalformedFile,
    /// The document was written by a newer program.
    FutureVersion,
    /// The directories above the file could not be created.
    DirectoryCreation,
    /// The document could not be turned into text.
    Serialization,
    /// The text could not be written to the file.
    FileWrite,
}

impl Failure {
    /// Whether a save that was asked of a store leaves the program nothing to
    /// go on with when it fails in this way. A failed write of the file is the
    /// one failure that does not. Before there is a store, every failure ends
    /// things.
    pub open spec fn fatal(self) -> bool {
        self != Failure::FileWrite
    }

    /// Whether the program has to stop when a save fails in this way.
    pub fn is_fatal(&self) -> (yes: bool)
        ensures
            yes == self.fatal(),
    {
        match self {
            Failure::FileWrite => false,
            _ => true,
        }
    }
}

/// One thing that the shell is asked to do. A `path` is always the location of
/// the settings file itself.
#[derive(Debug, PartialEq)]
pub enum Request {
    /// Tell whether anything exists at `path`.
    ProbeFile { path: String },
    /// Read the whole file at `path` as text.
    ReadFile { path: String },
    /// Turn `text` into a document.
    Decode { text: String },
    /// Turn `content` into text.
    Encode { content: Content },
    /// Tell whether the directory that holds `path` exists.
    ProbeParent { path: String },
    /// Create the directory that holds `path`, and every missing one above it.
    CreateParent { path: String },
    /// Write `text` to the file at `path`, in place of what it held.
    WriteFile { path: String, text: String },
}

/// A [`Request`] as mathematical values.
pub enum RequestView {
    ProbeFile { path: Seq<char> },
    ReadFile { path: Seq<char> },
    Decode { text: Seq<char> },
    Encode { content: ContentView },
    ProbeParent { path: Seq<char> },
    CreateParent { path: Seq<char> },
    WriteFile { path: Seq<char>, text: Seq<char> },
}

impl RequestView {
    /// The requests that change what is on disk.
    pub open spec fn mutates(self) -> bool {
        self is CreateParent || self is WriteFile
    }
}

impl View for Request {
    type V = RequestView;

    open spec fn view(&self) -> RequestView {
        match self {
            Request::ProbeFile { path } => RequestView::ProbeFile { path: path@ },
            Request::ReadFile { path } => RequestView::ReadFile { path: path@ },
            Request::Decode { text } => RequestView::Decode { text: text@ },
            Request::Encode { content } => RequestView::Encode { content: content@ },
            Request::ProbeParent { path } => RequestView::ProbeParent { path: path@ },
            Request::CreateParent { path } => RequestView::CreateParent { path: path@ },
            Request::WriteFile { path, text } => RequestView::WriteFile {
                path: path@,
                text: text@,
            },
        }
    }
}

impl Clone for Request {
    fn clone(&self) -> (copy: Request)
        ensures
            copy@ == self@,
    {
        match self {
            Request::ProbeFile { path } => Request::ProbeFile { path: path.clone() },
            Request::ReadFile { path } => Request::ReadFile { path: path.clone() },
            Request::Decode { text } => Request::Decode { text: text.clone() },
            Request::Encode { content } => Request::Encode { content: content.clone() },
            Request::ProbeParent { path } => Request::ProbeParent { path: path.clone() },
            Request::CreateParent { path } => Request::CreateParent { path: path.clone() },
            Request::WriteFile { path, text } => Request::WriteFile {
                path: path.clone(),
                text: text.clone(),
            },
        }
    }
}

impl Request {
    /// Whether carrying out the request changes what is on disk.
    pub fn is_mutation(&self) -> (yes: bool)
        ensures
            yes == self@.mutates(),
    {
        match self {
            Request::CreateParent { .. } => true,
            Request::WriteFile { .. } => true,
            _ => false,
        }
    }
}

/// The shell's answer to a [`Request`].
#[derive(Debug, PartialEq)]
pub enum Reply {
    /// To `ProbeFile` and `ProbeParent`: whether it exists.
    Found(bool),
    /// To `ReadFile`: the text, or `None` if the file could not be read.
    Text(Option<String>),
    /// To `Decode`: the document, or `None` if the text is not one.
    Decoded(Option<Content>),
    /// To `Encode`: the text, or `None` if the document could not be encoded.
    Encoded(Option<String>),
    /// To `CreateParent`: whether the directories are there now.
    Created(bool),
    /// To `WriteFile`: whether the text was written.
    Written(bool),
}

/// A [`Reply`] as mathematical values.
pub enum ReplyView {
    Found(bool),
    Text(Option<Seq<char>>),
    Decoded(Option<ContentView>),
    Encoded(Option<Seq<char>>),
    Created(bool),
    Written(bool),
}

impl ReplyView {
    /// Which answers a request can get. Any other is not meant for it.
    pub open spec fn answers(self, request: RequestView) -> bool {
        match request {
            RequestView::ProbeFile { .. } => self is Found,
            RequestView::ReadFile { .. } => self is Text,
            RequestView::Decode { .. } => self is Decoded,
            RequestView::Encode { .. } => self is Encoded,
            RequestView::ProbeParent { .. } => self is Found,
            RequestView::CreateParent { .. } => self is Created,
            RequestView::WriteFile { .. } => self is Written,
        }
    }
}

impl View for Reply {
    type V = ReplyView;

    open spec fn view(&self) -> ReplyView {
        match self {
            Reply::Found(yes) => ReplyView::Found(*yes),
            Reply::Text(Some(text)) => ReplyView::Text(Some(text@)),
            Reply::Text(None) => ReplyView::Text(None),
            Reply::Decoded(Some(content)) => ReplyView::Decoded(Some(content@)),
            Reply::Decoded(None) => ReplyView::Decoded(None),
            Reply::Encoded(Some(text)) => ReplyView::Encoded(Some(text@)),
            Reply::Encoded(None) => ReplyView::Encoded(None),
            Reply::Created(yes) => ReplyView::Created(*yes),
            Reply::Written(yes) => ReplyView::Written(*yes),
        }
    }
}

impl Clone for Reply {
    fn clone(&self) -> (copy: Reply)
        ensures
            copy@ == self@,
    {
        match self {
            Reply::Found(yes) => Reply::Found(*yes),
            Reply::Text(Some(text)) => Reply::Text(Some(text.clone())),
            Reply::Text(None) => Reply::Text(None),
            Reply::Decoded(Some(content)) => Reply::Decoded(Some(content.clone())),
            Reply::Decoded(None) => Reply::Decoded(None),
            Reply::Encoded(Some(text)) => Reply::Encoded(Some(text.clone())),
            Reply::Encoded(None) => Reply::Encoded(None),
            Reply::Created(yes) => Reply::Created(*yes),
            Reply::Written(yes) => Reply::Written(*yes),
        }
    }
}

impl Reply {
    /// Whether this is an answer that `request` can get.
    pub fn answers(&self, request: &Request) -> (yes: bool)
        ensures
            yes == self@.answers(request@),
    {
        match request {
            Request::ProbeFile { .. } => matches!(self, Reply::Found(_)),
            Request::ReadFile { .. } => matches!(self, Reply::Text(_)),
            Request::Decode { .. } => matches!(self, Reply::Decoded(_)),
            Request::Encode { .. } => matches!(self, Reply::Encoded(_)),
            Request::ProbeParent { .. } => matches!(self, Reply::Found(_)),
            Request::CreateParent { .. } => matches!(self, Reply::Created(_)),
            Request::WriteFile { .. } => matches!(self, Reply::Written(_)),
        }
    }
}

} // verus!
