//! Making the store: load the file that is there, or start one with defaults.

use crate::config::{Config, ConfigView, Content, ContentView};
use crate::protocol::{Failure, Reply, ReplyView, Request, RequestView};
use crate::save::{Save, SaveProgress, SaveProgressView, SaveView};
use vstd::prelude::*;

verus! {

/// The making of a store that is under way. Each state waits for the answer to
/// one request.
#[derive(Debug, PartialEq)]
pub enum Startup {
    /// Waiting to learn whether the settings file exists.
    Probing { path: String },
    /// Waiting for the file's text.
    Reading { path: String },
    /// Waiting for the document that the text holds.
    Decoding { path: String, text: String },
    /// No file was found: waiting for the default document to be saved.
    Persisting { path: String, save: Save },
}

/// A [`Startup`] as mathematical values.
pub enum StartupView {
    Probing { path: Seq<char> },
    Reading { path: Seq<char> },
    Decoding { path: Seq<char>, text: Seq<char> },
    Persisting { path: Seq<char>, save: SaveView },
}

/// Where the making of a store stands after an answer.
#[derive(Debug, PartialEq)]
pub enum Progress {
    /// More is to be done.
    Pending(Startup),
    /// The store is there.
    Ready(Config),
    /// There will be no store.
    Failed(Failure),
}

/// A [`Progress`] as mathematical values.
pub enum ProgressView {
    Pending(StartupView),
    Ready(ConfigView),
    Failed(Failure),
}

impl StartupView {
    /// The making of a store for the file at `path` starts by looking for the
    /// file.
    pub open spec fn begin(path: Seq<char>) -> StartupView {
        StartupView::Probing { path }
    }

    /// The states in which an existing file is being loaded.
    pub open spec fn loading(self) -> bool {
        self is Reading || self is Decoding
    }

    /// What the shell has to do in this state.
    pub open spec fn request(self) -> RequestView {
        match self {
            StartupView::Probing { path } => RequestView::ProbeFile { path },
            StartupView::Reading { path } => RequestView::ReadFile { path },
            StartupView::Decoding { text, .. } => RequestView::Decode { text },
            StartupView::Persisting { save, .. } => save.request(),
        }
    }

    /// Where the making of the store stands once the shell has answered.
    ///
    /// A file that exists is read and decoded, and its document is taken
    /// unchanged unless it is of a newer version. A file that cannot be read,
    /// text that is no document and a newer version end it without a store.
    /// Where no file exists the default document is saved, and the store holds
    /// it once the file has been written. A save that fails, in whatever way,
    /// leaves no store: nothing that goes wrong before the store is there can
    /// be gone on after. An answer that is not meant for the pending request
    /// changes nothing.
    pub open spec fn receive(self, reply: ReplyView) -> ProgressView {
        match (self, reply) {
            (StartupView::Probing { path }, ReplyView::Found(true)) => {
                ProgressView::Pending(StartupView::Reading { path })
            },
            (StartupView::Probing { path }, ReplyView::Found(false)) => {
                ProgressView::Pending(
                    StartupView::Persisting {
                        path,
                        save: SaveView::begin(path, ContentView::initial()),
                    },
                )
            },
            (StartupView::Reading { path }, ReplyView::Text(Some(text))) => {
                ProgressView::Pending(StartupView::Decoding { path, text })
            },
            (StartupView::Reading { .. }, ReplyView::Text(None)) => {
                ProgressView::Failed(Failure::UnreadableFile)
            },
            (StartupView::Decoding { path, .. }, ReplyView::Decoded(Some(content))) => {
                if content.supported() {
                    ProgressView::Ready(ConfigView { content, path })
                } else {
                    ProgressView::Failed(Failure::FutureVersion)
                }
            },
            (StartupView::Decoding { .. }, ReplyView::Decoded(None)) => {
                ProgressView::Failed(Failure::MalformedFile)
            },
            (StartupView::Persisting { path, save }, _) => {
                match save.receive(reply) {
                    SaveProgressView::Pending(next) => {
                        ProgressView::Pending(StartupView::Persisting { path, save: next })
                    },
                    SaveProgressView::Finished(Err(failure)) => ProgressView::Failed(failure),
                    SaveProgressView::Finished(Ok(())) => {
                        ProgressView::Ready(ConfigView { content: ContentView::initial(), path })
                    },
                }
            },
            _ => ProgressView::Pending(self),
        }
    }
}

impl ProgressView {
    /// The next answer, given to a startup that is still under way. One that is
    /// over stays as it is.
    pub open spec fn answered(self, reply: ReplyView) -> ProgressView {
        match self {
            ProgressView::Pending(startup) => startup.receive(reply),
            _ => self,
        }
    }

    /// What the shell has to do now, if anything.
    pub open spec fn request(self) -> Option<RequestView> {
        match self {
            ProgressView::Pending(startup) => Some(startup.request()),
            _ => None,
        }
    }

    /// Where things stand after a whole series of answers, given in turn.
    pub open spec fn run(self, replies: Seq<ReplyView>) -> ProgressView
        decreases replies.len(),
    {
        if replies.len() == 0 {
            self
        } else {
            self.run(replies.drop_last()).answered(replies.last())
        }
    }
}

impl View for Startup {
    type V = StartupView;

    open spec fn view(&self) -> StartupView {
        match self {
            Startup::Probing { path } => StartupView::Probing { path: path@ },
            Startup::Reading { path } => StartupView::Reading { path: path@ },
            Startup::Decoding { path, text } => StartupView::Decoding {
                path: path@,
                text: text@,
            },
            Startup::Persisting { path, save } => StartupView::Persisting {
                path: path@,
                save: save@,
            },
        }
    }
}

impl View for Progress {
    type V = ProgressView;

    open spec fn view(&self) -> ProgressView {
        match self {
            Progress::Pending(startup) => ProgressView::Pending(startup@),
            Progress::Ready(config) => ProgressView::Ready(config@),
            Progress::Failed(failure) => ProgressView::Failed(*failure),
        }
    }
}

impl Startup {
    /// What the shell has to do now.
    pub fn request(&self) -> (request: Request)
        ensures
            request@ == self@.request(),
    {
        match self {
            Startup::Probing { path } => Request::ProbeFile { path: path.clone() },
            Startup::Reading { path } => Request::ReadFile { path: path.clone() },
            Startup::Decoding { text, .. } => Request::Decode { text: text.clone() },
            Startup::Persisting { save, .. } => save.request(),
        }
    }

    /// Takes the shell's answer and says where the making of the store stands.
    pub fn receive(self, reply: Reply) -> (progress: Progress)
        ensures
            progress@ == self@.receive(reply@),
    {
        match self {
            Startup::Probing { path } => match reply {
                Reply::Found(true) => Progress::Pending(Startup::Reading { path }),
                Reply::Found(false) => {
                    let save = Save::begin(path.clone(), Content::default());
                    Progress::Pending(Startup::Persisting { path, save })
                },
                _ => Progress::Pending(Startup::Probing { path }),
            },
            Startup::Reading { path } => match reply {
                Reply::Text(Some(text)) => Progress::Pending(Startup::Decoding { path, text }),
                Reply::Text(None) => Progress::Failed(Failure::UnreadableFile),
                _ => Progress::Pending(Startup::Reading { path }),
            },
            Startup::Decoding { path, text } => match reply {
                Reply::Decoded(Some(content)) => match Config::accept(path, content) {
                    Ok(config) => Progress::Ready(config),
                    Err(failure) => Progress::Failed(failure),
                },
                Reply::Decoded(None) => Progress::Failed(Failure::MalformedFile),
                _ => Progress::Pending(Startup::Decoding { path, text }),
            },
            Startup::Persisting { path, save } => match save.receive(reply) {
                SaveProgress::Pending(next) => Progress::Pending(
                    Startup::Persisting { path, save: next },
                ),
                SaveProgress::Finished(Err(failure)) => Progress::Failed(failure),
                SaveProgress::Finished(Ok(())) => match Config::accept(path, Content::default()) {
                    Ok(config) => Progress::Ready(config),
                    Err(failure) => Progress::Failed(failure),
                },
            },
        }
    }
}

} // verus!
