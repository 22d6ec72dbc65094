//! A model of what the shell stands for: a disk and a codec.
//!
//! Nothing here runs. The model says what a faithful shell answers to each
//! request and what that does to the disk, so that the laws can speak of files
//! and directories.

use crate::config::ContentView;
use crate::protocol::{ReplyView, RequestView};
use crate::save::{SaveProgressView, SaveView};
use crate::startup::{ProgressView, StartupView};
use vstd::prelude::*;

verus! {

/// What is on disk, by location.
pub struct Disk {
    /// The text of every file.
    pub files: Map<Seq<char>, Seq<char>>,
    /// The directories that exist.
    pub directories: Set<Seq<char>>,
    /// Whether the disk takes new directories and files.
    pub writable: bool,
}

/// The parts of the shell that do not change: how documents become text and
/// text becomes documents, and how locations lie in one another.
pub struct Shell {
    /// The text of a document, where it has one.
    pub encode: spec_fn(ContentView) -> Option<Seq<char>>,
    /// The document that a text holds, where it holds one.
    pub decode: spec_fn(Seq<char>) -> Option<ContentView>,
    /// The directory that holds a location.
    pub parent: spec_fn(Seq<char>) -> Seq<char>,
    /// All the directories that have to exist for a location's directory to
    /// exist: that directory and every one above it.
    pub lineage: spec_fn(Seq<char>) -> Set<Seq<char>>,
}

impl Shell {
    /// A location's directory is among those that have to exist for it.
    pub open spec fn coherent(self) -> bool {
        forall|path: Seq<char>| #[trigger] (self.lineage)(path).contains((self.parent)(path))
    }

    /// The decoder gives back the document that the encoder was given.
    pub open spec fn round_trips(self, content: ContentView) -> bool {
        (self.encode)(content) matches Some(text) && (self.decode)(text) == Some(content)
    }

    /// What the shell answers to `request`, and the disk after it.
    ///
    /// A file is written only where its directory exists and the disk takes it.
    /// Creating a directory creates all that is missing above it as well.
    pub open spec fn perform(self, disk: Disk, request: RequestView) -> (Disk, ReplyView) {
        match request {
            RequestView::ProbeFile { path } => (
                disk,
                ReplyView::Found(disk.files.contains_key(path)),
            ),
            RequestView::ReadFile { path } => (
                disk,
                ReplyView::Text(
                    if disk.files.contains_key(path) {
                        Some(disk.files[path])
                    } else {
                        None
                    },
                ),
            ),
            RequestView::Decode { text } => (disk, ReplyView::Decoded((self.decode)(text))),
            RequestView::Encode { content } => (disk, ReplyView::Encoded((self.encode)(content))),
            RequestView::ProbeParent { path } => (
                disk,
                ReplyView::Found(disk.directories.contains((self.parent)(path))),
            ),
            RequestView::CreateParent { path } => {
                if disk.writable {
                    (
                        Disk {
                            directories: disk.directories.union((self.lineage)(path)),
                            ..disk
                        },
                        ReplyView::Created(true),
                    )
                } else {
                    (disk, ReplyView::Created(false))
                }
            },
            RequestView::WriteFile { path, text } => {
                if disk.writable && disk.directories.contains((self.parent)(path)) {
                    (Disk { files: disk.files.insert(path, text), ..disk }, ReplyView::Written(true))
                } else {
                    (disk, ReplyView::Written(false))
                }
            },
        }
    }

    /// A save carried on by this shell for `steps` requests, or to its end.
    pub open spec fn carry_save(self, disk: Disk, progress: SaveProgressView, steps: nat) -> (
        Disk,
        SaveProgressView,
    )
        decreases steps,
    {
        match progress {
            SaveProgressView::Pending(save) if steps > 0 => {
                let (after, reply) = self.perform(disk, save.request());
                self.carry_save(after, save.receive(reply), (steps - 1) as nat)
            },
            _ => (disk, progress),
        }
    }

    /// A startup carried on by this shell for `steps` requests, or to its end.
    pub open spec fn carry_startup(self, disk: Disk, progress: ProgressView, steps: nat) -> (
        Disk,
        ProgressView,
    )
        decreases steps,
    {
        match progress {
            ProgressView::Pending(startup) if steps > 0 => {
                let (after, reply) = self.perform(disk, startup.request());
                self.carry_startup(after, startup.receive(reply), (steps - 1) as nat)
            },
            _ => (disk, progress),
        }
    }

    /// A whole save of `content` to the file at `path`: the disk after it, and
    /// how it ended. Four requests are the most that a save makes.
    pub open spec fn save(self, disk: Disk, path: Seq<char>, content: ContentView) -> (
        Disk,
        SaveProgressView,
    ) {
        self.carry_save(disk, SaveProgressView::Pending(SaveView::begin(path, content)), 4)
    }

    /// A whole startup for the file at `path`: the disk after it, and how it
    /// ended. Five requests are the most that a startup makes.
    pub open spec fn start(self, disk: Disk, path: Seq<char>) -> (Disk, ProgressView) {
        self.carry_startup(disk, ProgressView::Pending(StartupView::begin(path)), 5)
    }
}

} // verus!
