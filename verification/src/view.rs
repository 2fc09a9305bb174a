//! The rules of the view: what the window shows of the editor's state, and
//! which keys ask for a file action. Drawing is the host's part.

use vstd::prelude::*;
use vstd::string::{StringExecFns, StringSliceAdditionalSpecFns};
use vstd::utf8::{
    decode_utf8, encode_utf8, encode_utf8_decode_utf8, encode_utf8_valid_utf8, is_ascii_chars,
    is_ascii_chars_encode_utf8, is_char_boundary, is_char_boundary_iff_not_is_continuation_byte,
    is_char_boundary_start_end_of_seq, valid_utf8,
};
use crate::editor::{Editor, Message};
use crate::highlighter::Theme;
use crate::paths::{display_text, extension_text};
use crate::settings::{lowercase, theme_for, SettingsView};
use crate::text::same_text;

verus! {

/// The longest path, in bytes, that the status line shows in full.
pub const STATUS_LIMIT: usize = 60;

/// How many bytes of a longer path the status line shows, at most, behind
/// the dots that stand for the rest.
pub const STATUS_TAIL: usize = 40;

/// The colours of the window.
#[derive(Debug, Clone, Copy, PartialEq, Eq, Structural)]
pub enum WindowTheme {
    /// Light text on a dark ground.
    Dark,
    /// Dark text on a light ground.
    Light,
}

/// How the text widget treats a line that is longer than the window is wide.
#[derive(Debug, Clone, Copy, PartialEq, Eq, Structural)]
pub enum Wrapping {
    /// The line goes on at the next word.
    Word,
    /// The line runs out of the window.
    Off,
}

/// What the window shows of the editor's state, for the host to draw.
#[derive(Debug, PartialEq, Eq)]
pub struct Screen {
    /// Whether the button that opens a file can be pressed.
    pub can_open: bool,
    /// Whether the button that saves the document can be pressed.
    pub can_save: bool,
    /// The text of the status line.
    pub status: String,
    /// How the text widget treats long lines.
    pub wrapping: Wrapping,
    /// The extension by which the highlighter picks a syntax.
    pub extension: String,
    /// The colours of the highlighter.
    pub highlighter: Theme,
}

/// How the text widget treats long lines under the given settings.
pub open spec fn wrapping_for(settings: SettingsView) -> Wrapping {
    if settings.word_wrap {
        Wrapping::Word
    } else {
        Wrapping::Off
    }
}

/// The colours of the window under the given settings: dark with a dark
/// highlighter theme, light with a light one.
pub open spec fn window_theme_for(settings: SettingsView) -> WindowTheme {
    if theme_for(lowercase(settings.theme)).is_dark() {
        WindowTheme::Dark
    } else {
        WindowTheme::Light
    }
}

/// The first character boundary of a UTF-8 text at or behind `index`. The
/// end of the text is one.
pub open spec fn boundary_from(bytes: Seq<u8>, index: int) -> int
    decreases bytes.len() - index,
{
    if index >= bytes.len() || is_char_boundary(bytes, index) {
        index
    } else {
        boundary_from(bytes, index + 1)
    }
}

/// What the status line shows for the displayed form of a path. A path of up
/// to `STATUS_LIMIT` bytes is shown in full. Of a longer one the last
/// `STATUS_TAIL` bytes are shown behind three dots, less the bytes at their
/// front that would cut a character in two.
pub open spec fn status_for(path: Seq<char>) -> Seq<char> {
    let bytes = encode_utf8(path);
    if bytes.len() > STATUS_LIMIT {
        let start = boundary_from(bytes, bytes.len() - STATUS_TAIL);
        "..."@ + decode_utf8(bytes.subrange(start, bytes.len() as int))
    } else {
        path
    }
}

/// For a path of ASCII characters, where bytes and characters are the same,
/// the status line shows a path of up to `STATUS_LIMIT` characters in full,
/// and of a longer one exactly its last `STATUS_TAIL` characters behind three
/// dots.
pub proof fn lemma_status_of_ascii_path(path: Seq<char>)
    requires
        is_ascii_chars(path),
    ensures
        path.len() <= STATUS_LIMIT ==> status_for(path) == path,
        path.len() > STATUS_LIMIT ==> status_for(path) == "..."@ + path.subrange(
            path.len() - STATUS_TAIL,
            path.len() as int,
        ),
{
    let bytes = encode_utf8(path);
    is_ascii_chars_encode_utf8(path);
    if path.len() > STATUS_LIMIT {
        let cut = path.len() - STATUS_TAIL;
        let tail = path.subrange(cut, path.len() as int);
        encode_utf8_valid_utf8(path);
        assert(is_char_boundary(bytes, cut)) by {
            is_char_boundary_iff_not_is_continuation_byte(bytes, cut);
        }
        is_ascii_chars_encode_utf8(tail);
        assert(encode_utf8(tail) =~= bytes.subrange(cut, bytes.len() as int));
        encode_utf8_decode_utf8(tail);
    }
}

/// What the status line shows for the displayed form of a path.
pub fn status_label(path: &str) -> (label: String)
    ensures
        label@ == status_for(path@),
{
    let length = path.as_bytes().len();
    if length > STATUS_LIMIT {
        let ghost bytes = path.spec_bytes();
        proof {
            encode_utf8_valid_utf8(path@);
            is_char_boundary_start_end_of_seq(bytes);
        }
        let mut start = length - STATUS_TAIL;
        while !path.is_char_boundary(start)
            invariant
                bytes == path.spec_bytes(),
                valid_utf8(bytes),
                length == bytes.len(),
                length - STATUS_TAIL <= start <= length,
                is_char_boundary(bytes, length as int),
                boundary_from(bytes, length - STATUS_TAIL) == boundary_from(bytes, start as int),
            decreases length - start,
        {
            start += 1;
        }
        let (_, tail) = path.split_at(start);
        proof {
            encode_utf8_decode_utf8(tail@);
        }
        "...".to_owned().concat(tail)
    } else {
        path.to_owned()
    }
}

/// The extension by which the highlighter picks a syntax, given the
/// extension of the document's file, if it has one: that extension, and
/// `txt` where there is none.
pub fn extension_or_default(extension: Option<String>) -> (chosen: String)
    ensures
        chosen@ == match extension {
            Some(text) => text@,
            None => "txt"@,
        },
{
    match extension {
        Some(text) => text,
        None => "txt".to_owned(),
    }
}

/// The file action that a key asks for, given the character of the key and
/// whether the command modifier is down.
pub open spec fn binding_for<W>(key: Seq<char>, command: bool) -> Option<Message<W>> {
    if command && key == "s"@ {
        Some(Message::SaveFile)
    } else if command && key == "o"@ {
        Some(Message::OpenFile)
    } else if command && key == "n"@ {
        Some(Message::NewFile)
    } else {
        None
    }
}

/// The file action that a key asks for: with the command modifier down, `s`
/// saves, `o` opens and `n` starts a new document. Every other key is left
/// to the text widget.
pub fn key_binding<W>(key: &str, command: bool) -> (bound: Option<Message<W>>)
    ensures
        bound == binding_for::<W>(key@, command),
{
    if !command {
        None
    } else if same_text(key, "s") {
        Some(Message::SaveFile)
    } else if same_text(key, "o") {
        Some(Message::OpenFile)
    } else if same_text(key, "n") {
        Some(Message::NewFile)
    } else {
        None
    }
}

/// The position of the cursor as the status line counts it: lines and
/// columns from one, where the text widget counts them from zero.
pub fn cursor_label(line: usize, column: usize) -> (shown: (usize, usize))
    requires
        line < usize::MAX,
        column < usize::MAX,
    ensures
        shown.0 == line + 1,
        shown.1 == column + 1,
{
    (line + 1, column + 1)
}

impl<W: Copy> Editor<W> {
    /// The colours of the window: dark with a dark highlighter theme, light
    /// with a light one.
    pub fn theme(&self) -> (theme: WindowTheme)
        ensures
            theme == window_theme_for(self.state().settings),
    {
        if self.settings().get_theme().is_dark() {
            WindowTheme::Dark
        } else {
            WindowTheme::Light
        }
    }

    /// Whether the view offers to open a file: not while an open or a save
    /// is under way.
    pub fn can_open(&self) -> (offered: bool)
        ensures
            offered == !self.state().is_loading,
    {
        !self.is_loading()
    }

    /// Whether the view offers to save the document: only when it was
    /// edited.
    pub fn can_save(&self) -> (offered: bool)
        ensures
            offered == self.state().is_dirty,
    {
        self.is_dirty()
    }

    /// How the text widget treats long lines, as the settings ask.
    pub fn wrapping(&self) -> (wrapping: Wrapping)
        ensures
            wrapping == wrapping_for(self.state().settings),
    {
        if self.settings().word_wrap() {
            Wrapping::Word
        } else {
            Wrapping::Off
        }
    }

    /// The text of the status line: `New file` for a document without a
    /// file, and else what [`status_label`] makes of the displayed path.
    pub fn status(&self) -> (label: String)
        ensures
            self.state().file is None ==> label@ == "New file"@,
            self.state().file is Some ==> exists|shown: Seq<char>| label@ == status_for(shown),
    {
        match self.file() {
            Some(path) => {
                let shown = display_text(path);
                status_label(shown.as_str())
            },
            None => "New file".to_owned(),
        }
    }

    /// The extension by which the highlighter picks a syntax: that of the
    /// document's file, and `txt` for a document without a file or a file
    /// without an extension.
    pub fn highlight_extension(&self) -> (chosen: String)
        ensures
            self.state().file is None ==> chosen@ == "txt"@,
    {
        match self.file() {
            Some(path) => extension_or_default(extension_text(path)),
            None => extension_or_default(None),
        }
    }

    /// What the window shows of the state: which buttons can be pressed, the
    /// status line, and how the text widget wraps and highlights. The view
    /// reads the state and changes nothing.
    pub fn view(&self) -> (screen: Screen)
        ensures
            screen.can_open == !self.state().is_loading,
            screen.can_save == self.state().is_dirty,
            screen.wrapping == wrapping_for(self.state().settings),
            screen.highlighter == theme_for(lowercase(self.state().settings.theme)),
            self.state().file is None ==> screen.status@ == "New file"@,
            self.state().file is None ==> screen.extension@ == "txt"@,
            self.state().file is Some ==> exists|shown: Seq<char>|
                screen.status@ == status_for(shown),
    {
        Screen {
            can_open: self.can_open(),
            can_save: self.can_save(),
            status: self.status(),
            wrapping: self.wrapping(),
            extension: self.highlight_extension(),
            highlighter: self.settings().get_theme(),
        }
    }
}

} // verus!
