//! The settings record: what the editor starts from, and what the settings
//! file stores of it.
//!
//! The file is a JSON object with the fields `startup_file_path`, `theme` and
//! `word_wrap`, in a directory of the user's configuration. Finding that
//! directory, reading the file and writing it are the host's part; the record
//! and its rules are here.

use vstd::prelude::*;
use std::path::PathBuf;
use crate::highlighter::Theme;
use crate::text::same_text;

verus! {

/// The name of the settings file inside the configuration directory.
pub const SETTINGS_FILE_NAME: &'static str = "settings.json";

/// The name of the file, inside the user's documents directory, that a fresh
/// installation opens at startup.
pub const NOTES_FILE_NAME: &'static str = "sbt_notes.txt";

/// The theme of a fresh installation.
pub const DEFAULT_THEME: &'static str = "solarized";

/// The qualifier under which the configuration directory is looked up.
pub const QUALIFIER: &'static str = "sbt";

/// The organization under which the configuration directory is looked up.
pub const ORGANIZATION: &'static str = "slightlybettertext";

/// The application under which the configuration directory is looked up.
pub const APPLICATION: &'static str = "slightlybettertext";

/// The application name to look the configuration directory up with. Windows
/// puts the organization into the path already, so there the name is empty.
pub fn application_name(windows: bool) -> (name: &'static str)
    ensures
        name@ == if windows {
            ""@
        } else {
            APPLICATION@
        },
{
    if windows {
        ""
    } else {
        APPLICATION
    }
}

/// The lower-case form of a text, as `str::to_lowercase` of the standard
/// library gives it.
pub uninterp spec fn lowercase(text: Seq<char>) -> Seq<char>;

/// `str::to_lowercase`: the text with each character replaced by its Unicode
/// lower-case mapping. The mapping is the standard library's, and is named
/// here rather than written out.
pub assume_specification[ str::to_lowercase ](text: &str) -> (lower: String)
    ensures
        lower@ == lowercase(text@),
;

/// The settings of the application.
#[derive(Debug, PartialEq, Eq)]
pub struct Settings {
    /// The directory of the settings file. It is never stored: whoever loads
    /// the settings derives it again.
    file_path: Option<PathBuf>,
    /// The file that is opened when the application starts.
    pub startup_file_path: PathBuf,
    /// The name of the highlighter theme, in any mix of upper and lower case.
    theme: String,
    /// Whether long lines wrap at the edge of the window.
    pub word_wrap: bool,
}

/// What a settings record holds, in mathematical terms.
pub struct SettingsView {
    /// The directory of the settings file, once it has been derived.
    pub file_path: Option<PathBuf>,
    /// The file that is opened when the application starts.
    pub startup_file_path: PathBuf,
    /// The name of the theme, as the settings file spells it.
    pub theme: Seq<char>,
    /// Whether long lines wrap at the edge of the window.
    pub word_wrap: bool,
}

impl SettingsView {
    /// What the settings file stores of the record: the startup file, the
    /// theme and the word wrap. The directory is not among them.
    pub open spec fn stored(self) -> (PathBuf, Seq<char>, bool) {
        (self.startup_file_path, self.theme, self.word_wrap)
    }

    /// The record at the end of a load: the values that the file stored, and
    /// the directory of the file, which the load derived.
    pub open spec fn loaded(
        config_dir: PathBuf,
        stored: (PathBuf, Seq<char>, bool),
    ) -> SettingsView {
        SettingsView {
            file_path: Some(config_dir),
            startup_file_path: stored.0,
            theme: stored.1,
            word_wrap: stored.2,
        }
    }
}

impl View for Settings {
    type V = SettingsView;

    closed spec fn view(&self) -> SettingsView {
        SettingsView {
            file_path: self.file_path,
            startup_file_path: self.startup_file_path,
            theme: self.theme@,
            word_wrap: self.word_wrap,
        }
    }
}

/// The highlighter theme that a theme name selects, given the name in lower
/// case: the five names of the light and the base16 themes select theirs, and
/// every other text selects `SolarizedDark`.
pub open spec fn theme_for(lower: Seq<char>) -> Theme {
    if lower == "eighties"@ {
        Theme::Base16Eighties
    } else if lower == "mocha"@ {
        Theme::Base16Mocha
    } else if lower == "ocean"@ {
        Theme::Base16Ocean
    } else if lower == "github"@ || lower == "inspired github"@ {
        Theme::InspiredGitHub
    } else {
        Theme::SolarizedDark
    }
}

/// Whether a name, in lower case, is one of the theme names that the
/// settings file knows.
pub open spec fn recognized(lower: Seq<char>) -> bool {
    ||| lower == "eighties"@
    ||| lower == "mocha"@
    ||| lower == "ocean"@
    ||| lower == "github"@
    ||| lower == "inspired github"@
    ||| lower == "solarized"@
    ||| lower == "solarized dark"@
}

/// The theme that a name in lower case selects. No name is refused: one that
/// is not recognized selects the default theme, `SolarizedDark`.
pub fn theme_named(lower: &str) -> (theme: Theme)
    ensures
        theme == theme_for(lower@),
        !recognized(lower@) ==> theme == Theme::SolarizedDark,
{
    if same_text(lower, "eighties") {
        Theme::Base16Eighties
    } else if same_text(lower, "mocha") {
        Theme::Base16Mocha
    } else if same_text(lower, "ocean") {
        Theme::Base16Ocean
    } else if same_text(lower, "github") || same_text(lower, "inspired github") {
        Theme::InspiredGitHub
    } else {
        Theme::SolarizedDark
    }
}

impl Settings {
    /// The settings of a fresh installation, which opens the given file at
    /// startup: the default theme, word wrap on, and no directory yet.
    pub fn defaults(startup_file_path: PathBuf) -> (settings: Settings)
        ensures
            settings@ == (SettingsView {
                file_path: None,
                startup_file_path,
                theme: DEFAULT_THEME@,
                word_wrap: true,
            }),
    {
        Settings {
            file_path: None,
            startup_file_path,
            theme: DEFAULT_THEME.to_owned(),
            word_wrap: true,
        }
    }

    /// The settings at the end of a load: the three values that the file
    /// stored, as they were read, and the directory of the file, which the
    /// load derived.
    pub fn new(
        config_dir: PathBuf,
        startup_file_path: PathBuf,
        theme: String,
        word_wrap: bool,
    ) -> (settings: Settings)
        ensures
            settings@ == SettingsView::loaded(config_dir, (startup_file_path, theme@, word_wrap)),
    {
        Settings { file_path: Some(config_dir), startup_file_path, theme, word_wrap }
    }

    /// Sets the directory of the settings file. The stored values stay.
    pub fn set_path(&mut self, config_dir: PathBuf)
        ensures
            final(self)@ == (SettingsView { file_path: Some(config_dir), ..old(self)@ }),
    {
        self.file_path = Some(config_dir);
    }

    /// The directory of the settings file, once it has been derived.
    pub fn file_path(&self) -> (dir: Option<&PathBuf>)
        ensures
            dir == match self@.file_path {
                Some(path) => Some(&path),
                None => None,
            },
    {
        self.file_path.as_ref()
    }

    /// The file that is opened when the application starts.
    pub fn startup_file_path(&self) -> (path: &PathBuf)
        ensures
            *path == self@.startup_file_path,
    {
        &self.startup_file_path
    }

    /// The name of the theme, as the settings file spells it.
    pub fn theme(&self) -> (name: &str)
        ensures
            name@ == self@.theme,
    {
        self.theme.as_str()
    }

    /// Whether long lines wrap at the edge of the window.
    pub fn word_wrap(&self) -> (wrap: bool)
        ensures
            wrap == self@.word_wrap,
    {
        self.word_wrap
    }

    /// The highlighter theme that the settings select. The name counts
    /// without regard to case.
    pub fn get_theme(&self) -> (theme: Theme)
        ensures
            theme == theme_for(lowercase(self@.theme)),
            !recognized(lowercase(self@.theme)) ==> theme == Theme::SolarizedDark,
    {
        let lower = self.theme.as_str().to_lowercase();
        theme_named(lower.as_str())
    }
}

/// A theme name that is not recognized selects the default theme,
/// `SolarizedDark`: no name is an error.
pub proof fn lemma_unrecognized_theme_is_default(lower: Seq<char>)
    requires
        !recognized(lower),
    ensures
        theme_for(lower) == Theme::SolarizedDark,
{
}

/// What the settings file stores of a record is what a load gives back, and
/// the directory is not: a record that is loaded from the stored values of
/// another has the same startup file, theme and word wrap, and the directory
/// that the load derived, whatever directory the other had.
pub proof fn lemma_stored_values_survive(saved: SettingsView, config_dir: PathBuf)
    ensures
        SettingsView::loaded(config_dir, saved.stored()).stored() == saved.stored(),
        SettingsView::loaded(config_dir, saved.stored()).startup_file_path
            == saved.startup_file_path,
        SettingsView::loaded(config_dir, saved.stored()).theme == saved.theme,
        SettingsView::loaded(config_dir, saved.stored()).word_wrap == saved.word_wrap,
        SettingsView::loaded(config_dir, saved.stored()).file_path == Some(config_dir),
{
}

} // verus!
