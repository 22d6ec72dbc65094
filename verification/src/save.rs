//! Saving a document: encode it, make sure the directory is there, write the file.

use crate::config::{Content, ContentView};
use crate::protocol::{Failure, Reply, ReplyView, Request, RequestView};
use vstd::prelude::*;

verus! {

/// A save that is under way. Each state waits for the answer to one request.
#[derive(Debug, PartialEq)]
pub enum Save {
    /// Waiting for the document's text.
    Encoding { path: String, content: Content },
    /// Waiting to learn whether the directory that holds the file exists.
    Probing { path: String, text: String },
    /// Waiting for the directory to be created.
    Creating { path: String, text: String },
    /// Waiting for the file to be written.
    Writing { path: String, text: String },
}

/// A [`Save`] as mathematical values.
pub enum SaveView {
    Encoding { path: Seq<char>, content: ContentView },
    Probing { path: Seq<char>, text: Seq<char> },
    Creating { path: Seq<char>, text: Seq<char> },
    Writing { path: Seq<char>, text: Seq<char> },
}

/// Where a save stands after an answer.
#[derive(Debug, PartialEq)]
pub enum SaveProgress {
    /// More is to be done.
    Pending(Save),
    /// The save is over: the file holds the document, or the save failed.
    Finished(Result<(), Failure>),
}

/// A [`SaveProgress`] as mathematical values.
pub enum SaveProgressView {
    Pending(SaveView),
    Finished(Result<(), Failure>),
}

impl SaveView {
    /// A save of `content` to the file at `path` starts by asking for the text.
    pub open spec fn begin(path: Seq<char>, content: ContentView) -> SaveView {
        SaveView::Encoding { path, content }
    }

    /// The file that is being saved to.
    pub open spec fn path(self) -> Seq<char> {
        match self {
            SaveView::Encoding { path, .. } => path,
            SaveView::Probing { path, .. } => path,
            SaveView::Creating { path, .. } => path,
            SaveView::Writing { path, .. } => path,
        }
    }

    /// The text that will be written, once the document has been encoded.
    pub open spec fn text(self) -> Option<Seq<char>> {
        match self {
            SaveView::Encoding { .. } => None,
            SaveView::Probing { text, .. } => Some(text),
            SaveView::Creating { text, .. } => Some(text),
            SaveView::Writing { text, .. } => Some(text),
        }
    }

    /// What the shell has to do in this state.
    pub open spec fn request(self) -> RequestView {
        match self {
            SaveView::Encoding { content, .. } => RequestView::Encode { content },
            SaveView::Probing { path, .. } => RequestView::ProbeParent { path },
            SaveView::Creating { path, .. } => RequestView::CreateParent { path },
            SaveView::Writing { path, text } => RequestView::WriteFile { path, text },
        }
    }

    /// Where the save stands once the shell has answered.
    ///
    /// The text goes on as the encoder gave it. An existing directory is not
    /// created again. A document without text and a directory that cannot be
    /// created end the save before anything is written; a failed write ends it
    /// as well. An answer that is not meant for the pending request changes
    /// nothing.
    pub open spec fn receive(self, reply: ReplyView) -> SaveProgressView {
        match (self, reply) {
            (SaveView::Encoding { path, .. }, ReplyView::Encoded(Some(text))) => {
                SaveProgressView::Pending(SaveView::Probing { path, text })
            },
            (SaveView::Encoding { .. }, ReplyView::Encoded(None)) => {
                SaveProgressView::Finished(Err(Failure::Serialization))
            },
            (SaveView::Probing { path, text }, ReplyView::Found(true)) => {
                SaveProgressView::Pending(SaveView::Writing { path, text })
            },
            (SaveView::Probing { path, text }, ReplyView::Found(false)) => {
                SaveProgressView::Pending(SaveView::Creating { path, text })
            },
            (SaveView::Creating { path, text }, ReplyView::Created(true)) => {
                SaveProgressView::Pending(SaveView::Writing { path, text })
            },
            (SaveView::Creating { .. }, ReplyView::Created(false)) => {
                SaveProgressView::Finished(Err(Failure::DirectoryCreation))
            },
            (SaveView::Writing { .. }, ReplyView::Written(true)) => {
                SaveProgressView::Finished(Ok(()))
            },
            (SaveView::Writing { .. }, ReplyView::Written(false)) => {
                SaveProgressView::Finished(Err(Failure::FileWrite))
            },
            _ => SaveProgressView::Pending(self),
        }
    }
}

impl SaveProgressView {
    /// The next answer, given to a save that is still under way. A finished save
    /// stays as it is.
    pub open spec fn answered(self, reply: ReplyView) -> SaveProgressView {
        match self {
            SaveProgressView::Pending(save) => save.receive(reply),
            SaveProgressView::Finished(_) => self,
        }
    }

    /// What the shell has to do now, if anything.
    pub open spec fn request(self) -> Option<RequestView> {
        match self {
            SaveProgressView::Pending(save) => Some(save.request()),
            SaveProgressView::Finished(_) => None,
        }
    }

    /// Where things stand after a whole series of answers, given in turn.
    pub open spec fn run(self, replies: Seq<ReplyView>) -> SaveProgressView
        decreases replies.len(),
    {
        if replies.len() == 0 {
            self
        } else {
            self.run(replies.drop_last()).answered(replies.last())
        }
    }
}

impl View for Save {
    type V = SaveView;

    open spec fn view(&self) -> SaveView {
        match self {
            Save::Encoding { path, content } => SaveView::Encoding {
                path: path@,
                content: content@,
            },
            Save::Probing { path, text } => SaveView::Probing { path: path@, text: text@ },
            Save::Creating { path, text } => SaveView::Creating { path: path@, text: text@ },
            Save::Writing { path, text } => SaveView::Writing { path: path@, text: text@ },
        }
    }
}

impl View for SaveProgress {
    type V = SaveProgressView;

    open spec fn view(&self) -> SaveProgressView {
        match self {
            SaveProgress::Pending(save) => SaveProgressView::Pending(save@),
            SaveProgress::Finished(result) => SaveProgressView::Finished(*result),
        }
    }
}

impl Save {
    /// Starts a save of `content` to the file at `path`.
    pub fn begin(path: String, content: Content) -> (save: Save)
        ensures
            save@ == SaveView::begin(path@, content@),
    {
        Save::Encoding { path, content }
    }

    /// What the shell has to do now.
    pub fn request(&self) -> (request: Request)
        ensures
            request@ == self@.request(),
    {
        match self {
            Save::Encoding { content, .. } => Request::Encode { content: content.clone() },
            Save::Probing { path, .. } => Request::ProbeParent { path: path.clone() },
            Save::Creating { path, .. } => Request::CreateParent { path: path.clone() },
            Save::Writing { path, text } => Request::WriteFile {
                path: path.clone(),
                text: text.clone(),
            },
        }
    }

    /// Takes the shell's answer and says where the save stands.
    pub fn receive(self, reply: Reply) -> (progress: SaveProgress)
        ensures
            progress@ == self@.receive(reply@),
    {
        match self {
            Save::Encoding { path, content } => match reply {
                Reply::Encoded(Some(text)) => SaveProgress::Pending(Save::Probing { path, text }),
                Reply::Encoded(None) => SaveProgress::Finished(Err(Failure::Serialization)),
                _ => SaveProgress::Pending(Save::Encoding { path, content }),
            },
            Save::Probing { path, text } => match reply {
                Reply::Found(true) => SaveProgress::Pending(Save::Writing { path, text }),
                Reply::Found(false) => SaveProgress::Pending(Save::Creating { path, text }),
                _ => SaveProgress::Pending(Save::Probing { path, text }),
            },
            Save::Creating { path, text } => match reply {
                Reply::Created(true) => SaveProgress::Pending(Save::Writing { path, text }),
                Reply::Created(false) => SaveProgress::Finished(
                    Err(Failure::DirectoryCreation),
                ),
                _ => SaveProgress::Pending(Save::Creating { path, text }),
            },
            Save::Writing { path, text } => match reply {
                Reply::Written(true) => SaveProgress::Finished(Ok(())),
                Reply::Written(false) => SaveProgress::Finished(Err(Failure::FileWrite)),
                _ => SaveProgress::Pending(Save::Writing { path, text }),
            },
        }
    }
}

} // verus!
