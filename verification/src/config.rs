//! The settings document and the store that caches it.

use crate::protocol::Failure;
use crate::save::{Save, SaveView};
use crate::startup::{Startup, StartupView};
use vstd::prelude::*;

verus! {

/// The newest schema version that this program understands.
pub const CURRENT_CONFIG_VERSION: u16 = 1;

/// The persisted settings.
///
/// No field is validated: any locale code and any theme name is kept as given.
#[derive(Debug)]
pub struct Content {
    /// Schema version of the document.
    pub version: u16,
    /// Locale code of the user interface.
    pub language: String,
    /// Name of the user interface theme.
    pub theme: String,
}

/// What a [`Content`] holds, as mathematical values.
pub struct ContentView {
    pub version: u16,
    pub language: Seq<char>,
    pub theme: Seq<char>,
}

impl ContentView {
    /// The document that a first run starts with.
    pub open spec fn initial() -> ContentView {
        ContentView { version: 1, language: "en"@, theme: "dark"@ }
    }

    /// A document is supported when its version is not newer than the one this
    /// program understands. Older versions are taken as they are.
    pub open spec fn supported(self) -> bool {
        self.version <= CURRENT_CONFIG_VERSION
    }
}

impl View for Content {
    type V = ContentView;

    open spec fn view(&self) -> ContentView {
        ContentView { version: self.version, language: self.language@, theme: self.theme@ }
    }
}

impl Content {
    /// Whether this program can work with the document.
    pub fn is_supported(&self) -> (yes: bool)
        ensures
            yes == self@.supported(),
    {
        self.version <= CURRENT_CONFIG_VERSION
    }
}

impl Default for Content {
    /// The document that a first run starts with: version 1, English, dark theme.
    fn default() -> (content: Content)
        ensures
            content@ == ContentView::initial(),
    {
        Content { version: 1, language: "en".to_owned(), theme: "dark".to_owned() }
    }
}

impl Clone for Content {
    fn clone(&self) -> (copy: Content)
        ensures
            copy@ == self@,
    {
        Content {
            version: self.version,
            language: self.language.clone(),
            theme: self.theme.clone(),
        }
    }
}

impl PartialEq for Content {
    fn eq(&self, other: &Content) -> (same: bool) {
        self.version == other.version && self.language == other.language && self.theme
            == other.theme
    }
}

impl vstd::std_specs::cmp::PartialEqSpecImpl for Content {
    open spec fn obeys_eq_spec() -> bool {
        true
    }

    open spec fn eq_spec(&self, other: &Content) -> bool {
        self@ == other@
    }
}

/// The store: the settings that the program works with, and the file behind them.
///
/// The cached document is the one that the file holds, as far as the store
/// knows: the one that was loaded or first written, and from then on the one of
/// the last save that ended well. The location never changes.
#[derive(Debug, PartialEq)]
pub struct Config {
    content: Content,
    path: String,
}

/// What a [`Config`] holds, as mathematical values.
pub struct ConfigView {
    pub content: ContentView,
    pub path: Seq<char>,
}

impl View for Config {
    type V = ConfigView;

    closed spec fn view(&self) -> ConfigView {
        ConfigView { content: self.content@, path: self.path@ }
    }
}

impl ConfigView {
    /// The store after a save of `content` that ended with `outcome`: the
    /// document is cached where the save ended well, and only there. The
    /// location stays.
    pub open spec fn concluded(
        self,
        content: ContentView,
        outcome: Result<(), Failure>,
    ) -> ConfigView {
        ConfigView {
            content: if outcome is Ok {
                content
            } else {
                self.content
            },
            path: self.path,
        }
    }
}

impl Config {
    /// Begins the making of the store for the settings file at `path`.
    ///
    /// Nothing has been looked at yet: the first thing asked of the shell is
    /// whether the file exists.
    pub fn new(path: String) -> (startup: Startup)
        ensures
            startup@ == StartupView::begin(path@),
    {
        Startup::Probing { path }
    }

    /// Makes a store out of a document that was found at `path`.
    ///
    /// A document of a newer version is refused. Every other one is taken
    /// unchanged, older versions too.
    pub fn accept(path: String, content: Content) -> (made: Result<Config, Failure>)
        ensures
            match made {
                Ok(config) => content@.supported() && config@ == (ConfigView {
                    content: content@,
                    path: path@,
                }),
                Err(failure) => !content@.supported() && failure == Failure::FutureVersion,
            },
    {
        if content.is_supported() {
            Ok(Config { content, path })
        } else {
            Err(Failure::FutureVersion)
        }
    }

    /// Begins a save of `content` to the store's file.
    ///
    /// The document is saved as it is given, without any check of its fields.
    /// The cached document stays until the save is over: see
    /// [`Config::conclude`].
    pub fn write(&self, content: &Content) -> (save: Save)
        ensures
            save@ == SaveView::begin(self@.path, content@),
    {
        Save::begin(self.path.clone(), content.clone())
    }

    /// Takes the end of a save of `content`.
    ///
    /// Where the save ended well the store caches `content`, so that what it
    /// holds is what the file holds. Where the save failed the cached document
    /// stays as it was. The location is the same in both cases.
    pub fn conclude(&mut self, content: Content, outcome: Result<(), Failure>)
        ensures
            final(self)@ == old(self)@.concluded(content@, outcome),
    {
        if outcome.is_ok() {
            self.content = content;
        }
    }

    /// The cached document.
    pub fn get_content(&self) -> (content: &Content)
        ensures
            content@ == self@.content,
    {
        &self.content
    }

    /// The location of the store's file.
    pub fn path(&self) -> (path: &str)
        ensures
            path@ == self@.path,
    {
        self.path.as_str()
    }
}

} // verus!
