//! What holds of every save and of every startup.
//!
//! The first laws hold whatever the shell answers. The others say what comes
//! of a save and of a startup where the shell is the faithful one of
//! [`crate::world`]: which files and directories are there afterwards, and what
//! the store holds.
//!
//! All of them speak of the views. A run of the executable store obeys them
//! because `request` and `receive` return what the views' functions of the same
//! names give.

use crate::config::{ConfigView, ContentView, CURRENT_CONFIG_VERSION};
use crate::protocol::{Failure, ReplyView};
use crate::save::{SaveProgressView, SaveView};
use crate::startup::{ProgressView, StartupView};
use crate::world::{Disk, Shell};
use vstd::prelude::*;

verus! {

/// How many answers a save still needs at most.
pub open spec fn answers_left(save: SaveView) -> nat {
    match save {
        SaveView::Encoding { .. } => 4,
        SaveView::Probing { .. } => 3,
        SaveView::Creating { .. } => 2,
        SaveView::Writing { .. } => 1,
    }
}

/// What is known of a save of `content` to the file at `path`, however far it
/// has come: it is about that file, and as long as there is no text it is that
/// document which waits to be encoded.
pub open spec fn saves(progress: SaveProgressView, path: Seq<char>, content: ContentView) -> bool {
    match progress {
        SaveProgressView::Pending(SaveView::Encoding { path: at, content: held }) => {
            at == path && held == content
        },
        SaveProgressView::Pending(save) => save.path() == path,
        SaveProgressView::Finished(_) => true,
    }
}

/// What is known of a startup for the file at `path`, however far it has come:
/// it is about that file, a save within it is a save of the default document to
/// that file, and a store that came out of it holds a supported document and
/// that location.
pub open spec fn starts(progress: ProgressView, path: Seq<char>) -> bool {
    match progress {
        ProgressView::Pending(StartupView::Probing { path: at }) => at == path,
        ProgressView::Pending(StartupView::Reading { path: at }) => at == path,
        ProgressView::Pending(StartupView::Decoding { path: at, .. }) => at == path,
        ProgressView::Pending(StartupView::Persisting { path: at, save }) => {
            at == path && saves(SaveProgressView::Pending(save), path, ContentView::initial())
        },
        ProgressView::Ready(config) => config.path == path && config.content.supported(),
        ProgressView::Failed(_) => true,
    }
}

/// An answer that is not meant for the pending request changes nothing.
pub proof fn stray_answers_change_nothing(
    save: SaveView,
    startup: StartupView,
    reply: ReplyView,
)
    ensures
        !reply.answers(save.request()) ==> save.receive(reply) == SaveProgressView::Pending(save),
        !reply.answers(startup.request()) ==> startup.receive(reply) == ProgressView::Pending(
            startup,
        ),
{
}

/// Every answer that is meant for the pending request brings a save nearer to
/// its end, so that a save is over after four such answers at most.
pub proof fn fitting_answers_move_a_save_on(save: SaveView, reply: ReplyView)
    requires
        reply.answers(save.request()),
    ensures
        save.receive(reply) matches SaveProgressView::Pending(next) ==> answers_left(next)
            < answers_left(save),
{
}

/// Whatever the shell answers, a save stays with the file and the document it
/// was begun for.
pub proof fn save_stays_with_its_file(
    path: Seq<char>,
    content: ContentView,
    replies: Seq<ReplyView>,
)
    ensures
        saves(SaveProgressView::Pending(SaveView::begin(path, content)).run(replies), path, content),
    decreases replies.len(),
{
    if replies.len() > 0 {
        save_stays_with_its_file(path, content, replies.drop_last());
    }
}

/// The text that a save has is the text that the encoder gave, and it stays the
/// same until it is written.
pub proof fn save_keeps_the_encoders_text(save: SaveView, reply: ReplyView)
    ensures
        save.receive(reply) matches SaveProgressView::Pending(next) ==> {
            &&& save.text() is Some ==> next.text() == save.text()
            &&& save.text() is None && next.text() is Some ==> reply == ReplyView::Encoded(
                next.text(),
            )
        },
{
}

/// A save asks for the file to be written only once the directory that holds
/// it is known to be there: it was found, or it has just been created.
pub proof fn save_writes_below_a_directory(save: SaveView, reply: ReplyView)
    requires
        !(save is Writing),
    ensures
        save.receive(reply) matches SaveProgressView::Pending(next) && next is Writing ==> {
            ||| save is Probing && reply == ReplyView::Found(true)
            ||| save is Creating && reply == ReplyView::Created(true)
        },
{
}

/// A save ends with a failure exactly where the shell reports one, and a
/// failed write is the only one that a program with a store can go on after.
pub proof fn save_fails_as_the_shell_does(save: SaveView, reply: ReplyView)
    ensures
        save.receive(reply) matches SaveProgressView::Finished(Err(failure)) ==> {
            ||| save is Encoding && reply == ReplyView::Encoded(None) && failure
                == Failure::Serialization && failure.fatal()
            ||| save is Creating && reply == ReplyView::Created(false) && failure
                == Failure::DirectoryCreation && failure.fatal()
            ||| save is Writing && reply == ReplyView::Written(false) && failure
                == Failure::FileWrite && !failure.fatal()
        },
        save.receive(reply) == SaveProgressView::Finished(Ok(())) ==> save is Writing && reply
            == ReplyView::Written(true),
{
}

/// A store comes out of a startup in two ways only: a supported document was
/// decoded, and the store holds it; or the file with the default document has
/// just been written, and the store holds that one.
pub proof fn store_comes_from_a_file(startup: StartupView, reply: ReplyView)
    ensures
        startup.receive(reply) matches ProgressView::Ready(config) ==> {
            ||| startup is Decoding && reply == ReplyView::Decoded(Some(config.content))
                && config.content.supported()
            ||| startup matches StartupView::Persisting { save, .. } && save is Writing && reply
                == ReplyView::Written(true) && config.content == ContentView::initial()
        },
{
}

/// Before there is a store, every failure of a save ends the startup, a
/// failed write of the file too.
pub proof fn first_run_fails_as_its_save_does(
    path: Seq<char>,
    save: SaveView,
    reply: ReplyView,
    failure: Failure,
)
    requires
        save.receive(reply) == SaveProgressView::Finished(Err::<(), Failure>(failure)),
    ensures
        (StartupView::Persisting { path, save }).receive(reply) == ProgressView::Failed(failure),
{
}

/// A file that is there but cannot be read gives no store.
pub proof fn unreadable_file_is_refused(path: Seq<char>)
    ensures
        ProgressView::Pending(StartupView::begin(path)).answered(ReplyView::Found(true)).answered(
            ReplyView::Text(None),
        ) == ProgressView::Failed(Failure::UnreadableFile),
{
}

/// Once the file has been found to exist, nothing is ever asked that would
/// change what is on disk, whatever the shell answers from then on: a file
/// that is refused stays as it was, and so does one that is loaded.
pub proof fn existing_file_is_never_changed(path: Seq<char>, replies: Seq<ReplyView>)
    ensures
        ProgressView::Pending(StartupView::begin(path)).answered(ReplyView::Found(true)).run(
            replies,
        ).request() matches Some(asked) ==> !asked.mutates(),
{
    lemma_loading_goes_on(
        ProgressView::Pending(StartupView::begin(path)).answered(ReplyView::Found(true)),
        replies,
    );
}

/// A startup that is loading a file stays with loading until it is over.
proof fn lemma_loading_goes_on(progress: ProgressView, replies: Seq<ReplyView>)
    requires
        progress matches ProgressView::Pending(startup) ==> startup.loading(),
    ensures
        progress.run(replies) matches ProgressView::Pending(startup) ==> startup.loading(),
    decreases replies.len(),
{
    if replies.len() > 0 {
        lemma_loading_goes_on(progress, replies.drop_last());
    }
}

/// Whatever the shell answers, a startup stays with the file it was begun for,
/// and a store that comes out of it holds a document that this program
/// supports and the location it was made for.
pub proof fn startup_stays_with_its_file(path: Seq<char>, replies: Seq<ReplyView>)
    ensures
        starts(ProgressView::Pending(StartupView::begin(path)).run(replies), path),
    decreases replies.len(),
{
    if replies.len() > 0 {
        startup_stays_with_its_file(path, replies.drop_last());
    }
}

/// A shell that carries a save or a startup through brings it to its end: no
/// save needs more than four requests, no startup more than five.
pub proof fn shell_brings_to_an_end(
    shell: Shell,
    disk: Disk,
    path: Seq<char>,
    content: ContentView,
)
    ensures
        shell.save(disk, path, content).1 is Finished,
        !(shell.start(disk, path).1 is Pending),
{
    reveal_with_fuel(Shell::carry_save, 5);
    reveal_with_fuel(Shell::carry_startup, 6);
}

/// A supported document that is saved to a file, on a disk that takes it, is
/// the document of the store that is then made from that file. This needs a
/// codec that gives back what it was given. A newer document is saved as well,
/// but a startup refuses it.
pub proof fn saved_document_loads_back(
    shell: Shell,
    disk: Disk,
    path: Seq<char>,
    content: ContentView,
)
    requires
        shell.coherent(),
        shell.round_trips(content),
        disk.writable,
        content.supported(),
    ensures
        ({
            let (saved, outcome) = shell.save(disk, path, content);
            let (after, progress) = shell.start(saved, path);
            &&& outcome == SaveProgressView::Finished(Ok(()))
            &&& progress == ProgressView::Ready(ConfigView { content, path })
            &&& after == saved
        }),
{
    reveal_with_fuel(Shell::carry_save, 5);
    reveal_with_fuel(Shell::carry_startup, 6);
}

/// Where no file exists, a startup leaves a file with the text of the default
/// document, in a directory that exists, and gives a store with the default
/// document. Nothing else on the disk changes but for the directories that had
/// to be made.
pub proof fn first_run_creates_the_file(shell: Shell, disk: Disk, path: Seq<char>)
    requires
        shell.coherent(),
        disk.writable,
        !disk.files.contains_key(path),
        (shell.encode)(ContentView::initial()) is Some,
    ensures
        ({
            let (after, progress) = shell.start(disk, path);
            let text = (shell.encode)(ContentView::initial())->Some_0;
            &&& progress == ProgressView::Ready(
                ConfigView { content: ContentView::initial(), path },
            )
            &&& after.files == disk.files.insert(path, text)
            &&& after.directories.contains((shell.parent)(path))
            &&& after.directories == if disk.directories.contains((shell.parent)(path)) {
                disk.directories
            } else {
                disk.directories.union((shell.lineage)(path))
            }
        }),
{
    reveal_with_fuel(Shell::carry_startup, 6);
    reveal_with_fuel(Shell::carry_save, 5);
}

/// A first run on a disk that takes nothing gives no store: it fails at the
/// file where the directory is there, and at the directory where that is
/// missing. The disk stays as it was.
pub proof fn first_run_on_a_disk_that_takes_nothing(shell: Shell, disk: Disk, path: Seq<char>)
    requires
        !disk.writable,
        !disk.files.contains_key(path),
        (shell.encode)(ContentView::initial()) is Some,
    ensures
        shell.start(disk, path) == (
            disk,
            ProgressView::Failed(
                if disk.directories.contains((shell.parent)(path)) {
                    Failure::FileWrite
                } else {
                    Failure::DirectoryCreation
                },
            ),
        ),
{
    reveal_with_fuel(Shell::carry_startup, 6);
    reveal_with_fuel(Shell::carry_save, 5);
}

/// No store comes out of a first run with the default document left
/// unwritten: where no file was there and a store is, the file holds the text
/// of the default document, and the store holds that document. This needs
/// nothing of the codec or of the disk. With a codec that gives back what it
/// was given, the file's text decodes to the default document.
pub proof fn first_run_store_has_its_file(shell: Shell, disk: Disk, path: Seq<char>)
    requires
        !disk.files.contains_key(path),
    ensures
        ({
            let (after, progress) = shell.start(disk, path);
            progress matches ProgressView::Ready(config) ==> {
                &&& (shell.encode)(ContentView::initial()) is Some
                &&& after.files.contains_key(path)
                &&& after.files[path] == (shell.encode)(ContentView::initial())->Some_0
                &&& config == ConfigView { content: ContentView::initial(), path }
                &&& shell.round_trips(ContentView::initial()) ==> (shell.decode)(after.files[path])
                    == Some(ContentView::initial())
            }
        }),
{
    reveal_with_fuel(Shell::carry_startup, 6);
    reveal_with_fuel(Shell::carry_save, 5);
}

/// A first run with an encoder that has no text for the default document gives
/// no store, and the disk stays as it was.
pub proof fn first_run_without_a_text(shell: Shell, disk: Disk, path: Seq<char>)
    requires
        !disk.files.contains_key(path),
        (shell.encode)(ContentView::initial()) is None,
    ensures
        shell.start(disk, path) == (disk, ProgressView::Failed(Failure::Serialization)),
{
    reveal_with_fuel(Shell::carry_startup, 6);
    reveal_with_fuel(Shell::carry_save, 5);
}

/// A file that holds a supported document, older versions too, gives a store
/// with that very document, and stays as it was.
pub proof fn supported_file_is_loaded_unchanged(
    shell: Shell,
    disk: Disk,
    path: Seq<char>,
    content: ContentView,
)
    requires
        disk.files.contains_key(path),
        (shell.decode)(disk.files[path]) == Some(content),
        content.supported(),
    ensures
        shell.start(disk, path) == (disk, ProgressView::Ready(ConfigView { content, path })),
{
    reveal_with_fuel(Shell::carry_startup, 6);
}

/// A file that holds a document of a newer version gives no store but the
/// failure that says so, and the disk stays as it was.
pub proof fn newer_file_is_refused_and_kept(
    shell: Shell,
    disk: Disk,
    path: Seq<char>,
    content: ContentView,
)
    requires
        disk.files.contains_key(path),
        (shell.decode)(disk.files[path]) == Some(content),
        content.version > CURRENT_CONFIG_VERSION,
    ensures
        shell.start(disk, path) == (disk, ProgressView::Failed(Failure::FutureVersion)),
{
    reveal_with_fuel(Shell::carry_startup, 6);
}

/// A file whose text is no document gives no store, and the disk stays as it
/// was.
pub proof fn malformed_file_is_refused_and_kept(shell: Shell, disk: Disk, path: Seq<char>)
    requires
        disk.files.contains_key(path),
        (shell.decode)(disk.files[path]) is None,
    ensures
        shell.start(disk, path) == (disk, ProgressView::Failed(Failure::MalformedFile)),
{
    reveal_with_fuel(Shell::carry_startup, 6);
}

/// A save to a file whose directory does not exist makes that directory and
/// all that is missing above it, writes the file and ends well.
pub proof fn save_creates_missing_directories(
    shell: Shell,
    disk: Disk,
    path: Seq<char>,
    content: ContentView,
)
    requires
        shell.coherent(),
        disk.writable,
        !disk.directories.contains((shell.parent)(path)),
        (shell.encode)(content) is Some,
    ensures
        ({
            let (after, outcome) = shell.save(disk, path, content);
            &&& outcome == SaveProgressView::Finished(Ok(()))
            &&& after.directories == disk.directories.union((shell.lineage)(path))
            &&& after.files == disk.files.insert(path, (shell.encode)(content)->Some_0)
        }),
{
    reveal_with_fuel(Shell::carry_save, 5);
}

/// Saving one document twice in a row ends well both times, and the second
/// save leaves the disk, the file's text with it, as the first one left it.
pub proof fn second_save_changes_nothing(
    shell: Shell,
    disk: Disk,
    path: Seq<char>,
    content: ContentView,
)
    requires
        shell.coherent(),
        disk.writable,
        (shell.encode)(content) is Some,
    ensures
        ({
            let (once, first) = shell.save(disk, path, content);
            let (twice, second) = shell.save(once, path, content);
            &&& first == SaveProgressView::Finished(Ok(()))
            &&& second == SaveProgressView::Finished(Ok(()))
            &&& once.files[path] == (shell.encode)(content)->Some_0
            &&& twice == once
        }),
{
    reveal_with_fuel(Shell::carry_save, 5);
    let (once, first) = shell.save(disk, path, content);
    let (twice, second) = shell.save(once, path, content);
    assert(twice.files =~= once.files);
}

/// Store and file do not part: after a save and its conclusion, the store
/// caches the saved document exactly where the file holds that document's
/// text; where the save failed, the store caches what it did before, and every
/// file is as it was. The location of the store is the same throughout.
pub proof fn store_follows_the_file(
    shell: Shell,
    disk: Disk,
    store: ConfigView,
    content: ContentView,
)
    ensures
        ({
            let (after, progress) = shell.save(disk, store.path, content);
            progress matches SaveProgressView::Finished(outcome) && {
                let kept = store.concluded(content, outcome);
                &&& kept.path == store.path
                &&& outcome is Ok ==> kept.content == content && after.files.contains_key(
                    store.path,
                ) && Some(after.files[store.path]) == (shell.encode)(content)
                &&& outcome is Err ==> kept == store && after.files == disk.files
            }
        }),
{
    reveal_with_fuel(Shell::carry_save, 5);
}

/// How a save ends is a matter of the codec and the disk alone. It ends well
/// exactly where the document has a text and the disk takes it. Where the
/// document has no text it fails before the disk is asked for anything; where
/// the disk takes nothing it fails at the directory if that is missing, and at
/// the file otherwise. A save that fails leaves every file as it was.
pub proof fn save_ends_as_the_disk_allows(
    shell: Shell,
    disk: Disk,
    path: Seq<char>,
    content: ContentView,
)
    requires
        shell.coherent(),
    ensures
        ({
            let (after, outcome) = shell.save(disk, path, content);
            let there = disk.directories.contains((shell.parent)(path));
            &&& outcome == SaveProgressView::Finished(
                if (shell.encode)(content) is None {
                    Err(Failure::Serialization)
                } else if disk.writable {
                    Ok(())
                } else if there {
                    Err(Failure::FileWrite)
                } else {
                    Err(Failure::DirectoryCreation)
                },
            )
            &&& outcome != SaveProgressView::Finished(Ok(())) ==> after == disk
        }),
{
    reveal_with_fuel(Shell::carry_save, 5);
}

} // verus!
