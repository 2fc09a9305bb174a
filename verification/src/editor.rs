//! The editor: one document, one window, and the messages that change them.
//!
//! The editor is a state machine. The host delivers one message at a time to
//! [`Editor::update`], which changes the state and answers with what the host
//! is to do next: what becomes of the text buffer, which the host's toolkit
//! owns, and which piece of work to start. The work runs outside the editor,
//! and its end comes back as a message of its own.

use vstd::prelude::*;
use std::path::PathBuf;
use std::sync::Arc;
use crate::error::Error;
use crate::hotkey::{HotkeyEvent, START_KEY_ID};
use crate::settings::{Settings, SettingsView};

verus! {

/// What the editor needs to know of an action that the text widget reports.
#[derive(Debug, Clone, Copy, PartialEq, Eq, Structural)]
pub enum Action {
    /// The action changes the text: an insertion, a paste, a line break or a
    /// deletion.
    Edit,
    /// The action moves the cursor, the selection or the viewport, and leaves
    /// the text as it is.
    Navigate,
}

impl Action {
    /// Whether the action changes the text.
    pub open spec fn spec_is_edit(self) -> bool {
        self is Edit
    }

    /// Whether the action changes the text.
    #[verifier::when_used_as_spec(spec_is_edit)]
    pub fn is_edit(self) -> (edit: bool)
        ensures
            edit == self.spec_is_edit(),
    {
        match self {
            Action::Edit => true,
            Action::Navigate => false,
        }
    }
}

/// How the window is shown.
#[derive(Debug, Clone, Copy, PartialEq, Eq, Structural)]
pub enum Mode {
    /// An ordinary window on the screen.
    Windowed,
    /// Not on the screen at all.
    Hidden,
}

/// What the host does with its text buffer in the course of a transition.
#[derive(Debug, PartialEq, Eq)]
pub enum ContentChange {
    /// The buffer stays as it is.
    Keep,
    /// The action that the message reported is performed on the buffer.
    Perform,
    /// The buffer is replaced by an empty one.
    Clear,
    /// The buffer is replaced by one that holds this text.
    Replace(Arc<String>),
}

/// A piece of work for the host. The editor never waits for it.
#[derive(Debug, PartialEq, Eq)]
pub enum Task<W> {
    /// Nothing to do.
    Nothing,
    /// Read this file. The end is reported as [`Message::FileOpened`].
    LoadFile(PathBuf),
    /// Let the user pick a file and read it. The end, or the closing of the
    /// dialog, is reported as [`Message::FileOpened`].
    OpenFile,
    /// Write the text of the buffer to this path; where there is none, let
    /// the user pick one first. The end, or the closing of the dialog, is
    /// reported as [`Message::FileSaved`].
    SaveFile(Option<PathBuf>),
    /// Show this window in this mode.
    ChangeMode(W, Mode),
    /// Find the application's window. It is reported as
    /// [`Message::InitWindow`].
    GetWindow,
    /// Give the input focus to the text widget.
    FocusNext,
}

/// What a transition asks of the host.
#[derive(Debug, PartialEq, Eq)]
pub struct Outcome<W> {
    /// What becomes of the text buffer.
    pub content: ContentChange,
    /// The work to start.
    pub task: Task<W>,
}

/// The messages that the editor reacts to.
#[derive(Debug, PartialEq, Eq)]
pub enum Message<W> {
    /// The user did something in the text widget.
    ActionPerformed(Action),
    /// The user asks for an empty document.
    NewFile,
    /// The user asks to open a file.
    OpenFile,
    /// Opening a file came to an end: with the path and the text that was
    /// read, or with an error.
    FileOpened(Result<(PathBuf, Arc<String>), Error>),
    /// The user asks to save the document.
    SaveFile,
    /// Saving the document came to an end: with the path that was written,
    /// or with an error.
    FileSaved(Result<PathBuf, Error>),
    /// A global hotkey was pressed or released.
    HotkeyPressed(HotkeyEvent),
    /// The application's window was looked up. This arrives once, at startup.
    InitWindow(Option<W>),
}

/// A source of messages that the host keeps running beside the window.
#[derive(Debug, Clone, Copy, PartialEq, Eq, Structural)]
pub enum Subscription {
    /// The listener for global hotkeys, which reports each event as
    /// [`Message::HotkeyPressed`].
    HotkeyWorker,
}

/// The state of the editor, in mathematical terms.
pub struct EditorState<W> {
    /// The window, once the host has found it.
    pub window_id: Option<W>,
    /// The file of the document. A new document has none.
    pub file: Option<PathBuf>,
    /// Whether an open or a save is under way.
    pub is_loading: bool,
    /// Whether the text was edited since it was last loaded or saved.
    pub is_dirty: bool,
    /// Whether the window is on the screen.
    pub is_visible: bool,
    /// The settings that the editor was started with.
    pub settings: SettingsView,
}

/// The mode in which a window is shown that is, or is not, to be visible.
pub open spec fn mode_for(visible: bool) -> Mode {
    if visible {
        Mode::Windowed
    } else {
        Mode::Hidden
    }
}

impl<W> EditorState<W> {
    /// The state at startup: the startup file is being loaded, there is no
    /// document yet, and the window is on the screen.
    pub open spec fn initial(settings: SettingsView) -> Self {
        EditorState {
            window_id: None,
            file: None,
            is_loading: true,
            is_dirty: false,
            is_visible: true,
            settings,
        }
    }

    /// The work that startup asks of the host, in this order.
    pub open spec fn startup_tasks(settings: SettingsView) -> Seq<Task<W>> {
        seq![Task::LoadFile(settings.startup_file_path), Task::GetWindow, Task::FocusNext]
    }

    /// Whether the message asks to show or hide the window.
    pub open spec fn toggles(self, message: Message<W>) -> bool {
        message matches Message::HotkeyPressed(event) && event.toggles()
    }

    /// Whether the editor can take the message in this state. It cannot show
    /// or hide a window that the host has not found yet.
    pub open spec fn accepts(self, message: Message<W>) -> bool {
        self.toggles(message) ==> self.window_id is Some
    }

    /// The state after a message.
    pub open spec fn next(self, message: Message<W>) -> Self {
        match message {
            Message::ActionPerformed(action) => EditorState {
                is_dirty: self.is_dirty || action.is_edit(),
                ..self
            },
            Message::NewFile => if self.is_loading {
                self
            } else {
                EditorState { file: None, ..self }
            },
            Message::OpenFile => EditorState { is_loading: true, ..self },
            Message::FileOpened(result) => EditorState {
                is_loading: false,
                is_dirty: false,
                file: match result {
                    Ok((path, _)) => Some(path),
                    Err(_) => self.file,
                },
                ..self
            },
            Message::SaveFile => EditorState { is_loading: true, ..self },
            Message::FileSaved(result) => match result {
                Ok(path) => EditorState {
                    is_loading: false,
                    is_dirty: false,
                    file: Some(path),
                    ..self
                },
                Err(_) => EditorState { is_loading: false, ..self },
            },
            Message::HotkeyPressed(event) => if event.toggles() && self.window_id is Some {
                EditorState { is_visible: !self.is_visible, ..self }
            } else {
                self
            },
            Message::InitWindow(id) => EditorState { window_id: id, ..self },
        }
    }

    /// What becomes of the text buffer at a message.
    pub open spec fn content_change(self, message: Message<W>) -> ContentChange {
        match message {
            Message::ActionPerformed(_) => ContentChange::Perform,
            Message::NewFile => if self.is_loading {
                ContentChange::Keep
            } else {
                ContentChange::Clear
            },
            Message::FileOpened(Ok((_, text))) => ContentChange::Replace(text),
            _ => ContentChange::Keep,
        }
    }

    /// The work that a message starts.
    pub open spec fn task(self, message: Message<W>) -> Task<W> {
        match message {
            Message::OpenFile => if self.is_loading {
                Task::Nothing
            } else {
                Task::OpenFile
            },
            Message::SaveFile => if self.is_loading {
                Task::Nothing
            } else {
                Task::SaveFile(self.file)
            },
            Message::HotkeyPressed(event) => match self.window_id {
                Some(window) if event.toggles() => Task::ChangeMode(
                    window,
                    mode_for(!self.is_visible),
                ),
                _ => Task::Nothing,
            },
            _ => Task::Nothing,
        }
    }

    /// What a message asks of the host.
    pub open spec fn outcome(self, message: Message<W>) -> Outcome<W> {
        Outcome { content: self.content_change(message), task: self.task(message) }
    }

    /// The state after a sequence of messages, delivered in order.
    pub open spec fn run(self, messages: Seq<Message<W>>) -> Self
        decreases messages.len(),
    {
        if messages.len() == 0 {
            self
        } else {
            self.run(messages.drop_last()).next(messages.last())
        }
    }
}

/// The editor of the application.
pub struct Editor<W> {
    /// The window, once the host has found it.
    window_id: Option<W>,
    /// The file currently being edited.
    file: Option<PathBuf>,
    /// Whether an open or a save is under way.
    is_loading: bool,
    /// Whether the text was edited since it was last loaded or saved.
    is_dirty: bool,
    /// Whether the window is on the screen.
    is_visible: bool,
    /// The application settings.
    settings: Settings,
}

impl<W> Editor<W> {
    /// The state of the editor, in mathematical terms.
    pub closed spec fn state(&self) -> EditorState<W> {
        EditorState {
            window_id: self.window_id,
            file: self.file,
            is_loading: self.is_loading,
            is_dirty: self.is_dirty,
            is_visible: self.is_visible,
            settings: self.settings@,
        }
    }
}

impl<W: Copy> Editor<W> {
    /// Creates the editor from the loaded settings, together with the work
    /// that startup asks of the host: to load the startup file, to find the
    /// window, and to give the text widget the focus.
    pub fn new(settings: Settings) -> (started: (Self, Vec<Task<W>>))
        ensures
            started.0.state() == EditorState::<W>::initial(settings@),
            started.1@ == EditorState::<W>::startup_tasks(settings@),
    {
        let default_file = settings.startup_file_path().clone();
        let mut tasks: Vec<Task<W>> = Vec::new();
        tasks.push(Task::LoadFile(default_file));
        tasks.push(Task::GetWindow);
        tasks.push(Task::FocusNext);
        let editor = Editor {
            window_id: None,
            file: None,
            is_loading: true,
            is_dirty: false,
            is_visible: true,
            settings,
        };
        (editor, tasks)
    }

    /// Takes one message: changes the state, and answers with what the host
    /// is to do with the text buffer and which work it is to start.
    ///
    /// A request to open or to save is dropped while an open or a save is
    /// under way. The end of an open or a save clears the loading flag
    /// whatever the result; an error leaves the document as it was. The
    /// release of the registered hotkey shows a hidden window and hides a
    /// visible one.
    pub fn update(&mut self, message: Message<W>) -> (outcome: Outcome<W>)
        requires
            old(self).state().accepts(message),
        ensures
            final(self).state() == old(self).state().next(message),
            outcome == old(self).state().outcome(message),
    {
        match message {
            Message::ActionPerformed(action) => {
                self.is_dirty = self.is_dirty || action.is_edit();
                Outcome { content: ContentChange::Perform, task: Task::Nothing }
            },
            Message::NewFile => {
                if !self.is_loading {
                    self.file = None;
                    Outcome { content: ContentChange::Clear, task: Task::Nothing }
                } else {
                    Outcome { content: ContentChange::Keep, task: Task::Nothing }
                }
            },
            Message::OpenFile => {
                if self.is_loading {
                    Outcome { content: ContentChange::Keep, task: Task::Nothing }
                } else {
                    self.is_loading = true;
                    Outcome { content: ContentChange::Keep, task: Task::OpenFile }
                }
            },
            Message::FileOpened(result) => {
                self.is_loading = false;
                self.is_dirty = false;
                match result {
                    Ok((path, contents)) => {
                        self.file = Some(path);
                        Outcome { content: ContentChange::Replace(contents), task: Task::Nothing }
                    },
                    Err(_) => Outcome { content: ContentChange::Keep, task: Task::Nothing },
                }
            },
            Message::SaveFile => {
                if self.is_loading {
                    Outcome { content: ContentChange::Keep, task: Task::Nothing }
                } else {
                    self.is_loading = true;
                    Outcome {
                        content: ContentChange::Keep,
                        task: Task::SaveFile(self.file.clone()),
                    }
                }
            },
            Message::FileSaved(result) => {
                self.is_loading = false;
                if let Ok(path) = result {
                    self.file = Some(path);
                    self.is_dirty = false;
                }
                Outcome { content: ContentChange::Keep, task: Task::Nothing }
            },
            Message::HotkeyPressed(hotkey) => {
                match self.window_id {
                    Some(window_id) => {
                        if hotkey.toggles() {
                            self.is_visible = !self.is_visible;
                            let mode = if self.is_visible {
                                Mode::Windowed
                            } else {
                                Mode::Hidden
                            };
                            Outcome {
                                content: ContentChange::Keep,
                                task: Task::ChangeMode(window_id, mode),
                            }
                        } else {
                            Outcome { content: ContentChange::Keep, task: Task::Nothing }
                        }
                    },
                    None => Outcome { content: ContentChange::Keep, task: Task::Nothing },
                }
            },
            Message::InitWindow(id) => {
                self.window_id = id;
                Outcome { content: ContentChange::Keep, task: Task::Nothing }
            },
        }
    }

    /// The source of messages that the host keeps running: the hotkey
    /// listener, in every state, so that a hidden window can be shown again.
    pub fn subscription(&self) -> (subscription: Subscription)
        ensures
            subscription == Subscription::HotkeyWorker,
    {
        Subscription::HotkeyWorker
    }

    /// The window, once the host has found it.
    pub fn window_id(&self) -> (window: Option<W>)
        ensures
            window == self.state().window_id,
    {
        self.window_id
    }

    /// The file of the document. A new document has none.
    pub fn file(&self) -> (file: Option<&PathBuf>)
        ensures
            file == match self.state().file {
                Some(path) => Some(&path),
                None => None,
            },
    {
        self.file.as_ref()
    }

    /// Whether an open or a save is under way.
    pub fn is_loading(&self) -> (loading: bool)
        ensures
            loading == self.state().is_loading,
    {
        self.is_loading
    }

    /// Whether the text was edited since it was last loaded or saved.
    pub fn is_dirty(&self) -> (dirty: bool)
        ensures
            dirty == self.state().is_dirty,
    {
        self.is_dirty
    }

    /// Whether the window is on the screen.
    pub fn is_visible(&self) -> (visible: bool)
        ensures
            visible == self.state().is_visible,
    {
        self.is_visible
    }

    /// The settings that the editor was started with.
    pub fn settings(&self) -> (settings: &Settings)
        ensures
            settings@ == self.state().settings,
    {
        &self.settings
    }
}

/// Whether a message ends the time in which an edited document counts as
/// unsaved: an open came to its end, or a save succeeded.
pub open spec fn clears_dirty<W>(message: Message<W>) -> bool {
    message is FileOpened || message matches Message::FileSaved(Ok(_))
}

/// Whether one of the messages reports an edit of the text.
pub open spec fn has_edit<W>(messages: Seq<Message<W>>) -> bool {
    exists|i: int|
        0 <= i < messages.len() && #[trigger] messages[i] == Message::<W>::ActionPerformed(
            Action::Edit,
        )
}

/// Actions in the text widget change nothing but the dirty flag, and after
/// any run of them the document is dirty exactly if it was dirty before or
/// one of the actions was an edit.
pub proof fn lemma_edits_make_dirty<W>(state: EditorState<W>, messages: Seq<Message<W>>)
    requires
        forall|i: int| 0 <= i < messages.len() ==> #[trigger] messages[i] is ActionPerformed,
    ensures
        state.run(messages) == (EditorState {
            is_dirty: state.is_dirty || has_edit(messages),
            ..state
        }),
    decreases messages.len(),
{
    if messages.len() > 0 {
        let front = messages.drop_last();
        lemma_edits_make_dirty(state, front);
        if has_edit(messages) {
            let i = choose|i: int|
                0 <= i < messages.len() && #[trigger] messages[i] == Message::<W>::ActionPerformed(
                    Action::Edit,
                );
            if i < front.len() {
                assert(front[i] == messages[i]);
            }
        }
    }
}

/// A dirty document stays dirty, whatever messages arrive, until an open
/// comes to its end or a save succeeds.
pub proof fn lemma_dirty_until_load_or_save<W>(state: EditorState<W>, messages: Seq<Message<W>>)
    requires
        state.is_dirty,
        forall|i: int| 0 <= i < messages.len() ==> !clears_dirty(#[trigger] messages[i]),
    ensures
        state.run(messages).is_dirty,
    decreases messages.len(),
{
    if messages.len() > 0 {
        lemma_dirty_until_load_or_save(state, messages.drop_last());
    }
}

/// Once the text was edited the document is dirty, and it is still dirty
/// after every later message up to the next end of an open or successful
/// save.
pub proof fn lemma_dirty_after_edit<W>(
    state: EditorState<W>,
    messages: Seq<Message<W>>,
    edit: int,
)
    requires
        0 <= edit < messages.len(),
        messages[edit] == Message::<W>::ActionPerformed(Action::Edit),
        forall|i: int| edit < i < messages.len() ==> !clears_dirty(#[trigger] messages[i]),
    ensures
        state.run(messages).is_dirty,
    decreases messages.len(),
{
    let front = messages.drop_last();
    if edit < messages.len() - 1 {
        lemma_dirty_after_edit(state, front, edit);
    }
}

/// Whether a task is file work, whose end the host reports with a message.
pub open spec fn is_file_work<W>(task: Task<W>) -> bool {
    task is LoadFile || task is OpenFile || task is SaveFile
}

/// Whether a message reports the end of file work.
pub open spec fn ends_file_work<W>(message: Message<W>) -> bool {
    message is FileOpened || message is FileSaved
}

/// How many pieces of file work are outstanding after the messages, when
/// `count` were outstanding before them in the given state: each piece that a
/// message started counts up, and each end that a message reported counts
/// down.
pub open spec fn outstanding<W>(
    state: EditorState<W>,
    count: int,
    messages: Seq<Message<W>>,
) -> int
    decreases messages.len(),
{
    if messages.len() == 0 {
        count
    } else {
        let front = messages.drop_last();
        let started: int = if is_file_work(state.run(front).task(messages.last())) {
            1
        } else {
            0
        };
        let ended: int = if ends_file_work(messages.last()) {
            1
        } else {
            0
        };
        outstanding(state, count, front) + started - ended
    }
}

/// Whether the host keeps to its part: it reports the end of file work only
/// while file work is outstanding.
pub open spec fn reports_outstanding_work<W>(
    state: EditorState<W>,
    count: int,
    messages: Seq<Message<W>>,
) -> bool
    decreases messages.len(),
{
    messages.len() == 0 || {
        &&& reports_outstanding_work(state, count, messages.drop_last())
        &&& ends_file_work(messages.last()) ==> outstanding(
            state,
            count,
            messages.drop_last(),
        ) > 0
    }
}

/// The loading flag is up exactly while file work is outstanding, and never
/// is more than one piece outstanding: where this holds of a state, it holds
/// after every sequence of messages in which the host reports the end of
/// file work only while file work is outstanding.
pub proof fn lemma_loading_means_outstanding_work<W>(
    state: EditorState<W>,
    count: int,
    messages: Seq<Message<W>>,
)
    requires
        0 <= count <= 1,
        state.is_loading <==> count == 1,
        reports_outstanding_work(state, count, messages),
    ensures
        0 <= outstanding(state, count, messages) <= 1,
        state.run(messages).is_loading <==> outstanding(state, count, messages) == 1,
    decreases messages.len(),
{
    if messages.len() > 0 {
        lemma_loading_means_outstanding_work(state, count, messages.drop_last());
    }
}

/// At startup one piece of file work is outstanding, the load of the startup
/// file, and the loading flag is up.
pub proof fn lemma_startup_is_loading<W>(settings: SettingsView)
    ensures
        EditorState::<W>::initial(settings).is_loading,
        is_file_work(EditorState::<W>::startup_tasks(settings)[0]),
        !is_file_work(EditorState::<W>::startup_tasks(settings)[1]),
        !is_file_work(EditorState::<W>::startup_tasks(settings)[2]),
{
}

/// An open or a save that is asked for while another is under way is
/// dropped: the state stays as it is, the buffer is kept, and no work is
/// started.
pub proof fn lemma_busy_drops_requests<W>(state: EditorState<W>)
    requires
        state.is_loading,
    ensures
        state.next(Message::OpenFile) == state,
        state.outcome(Message::OpenFile) == (Outcome::<W> {
            content: ContentChange::Keep,
            task: Task::Nothing,
        }),
        state.next(Message::SaveFile) == state,
        state.outcome(Message::SaveFile) == (Outcome::<W> {
            content: ContentChange::Keep,
            task: Task::Nothing,
        }),
{
}

/// File work is started only when none is under way, and starting it raises
/// the loading flag: at most one open or save is outstanding at a time.
pub proof fn lemma_one_file_operation<W>(state: EditorState<W>, message: Message<W>)
    requires
        state.task(message) is OpenFile || state.task(message) is SaveFile,
    ensures
        !state.is_loading,
        state.next(message).is_loading,
{
}

/// An open that ends in an error, such as a closed dialog, clears the
/// loading flag and leaves the file and the buffer as they were.
pub proof fn lemma_failed_open_keeps_document<W>(state: EditorState<W>, error: Error)
    ensures
        state.next(Message::FileOpened(Err(error))).file == state.file,
        state.content_change(Message::FileOpened(Err(error))) == ContentChange::Keep,
        !state.next(Message::FileOpened(Err(error))).is_loading,
        state.task(Message::FileOpened(Err(error))) == Task::<W>::Nothing,
{
}

/// A save that ends in an error, such as a closed dialog, clears the loading
/// flag and leaves everything else as it was.
pub proof fn lemma_failed_save_keeps_document<W>(state: EditorState<W>, error: Error)
    ensures
        state.next(Message::FileSaved(Err(error))) == (EditorState { is_loading: false, ..state }),
        state.outcome(Message::FileSaved(Err(error))) == (Outcome::<W> {
            content: ContentChange::Keep,
            task: Task::Nothing,
        }),
{
}

/// Saving a document that has no file asks the host to let the user pick
/// one, and when a save succeeds the document has the path that was written,
/// which is then the one that was picked, and is no longer dirty.
pub proof fn lemma_save_without_file<W>(state: EditorState<W>, picked: PathBuf)
    ensures
        state.file is None && !state.is_loading ==> state.task(Message::SaveFile)
            == Task::<W>::SaveFile(None),
        state.next(Message::FileSaved(Ok(picked))) == (EditorState {
            file: Some(picked),
            is_dirty: false,
            is_loading: false,
            ..state
        }),
        state.outcome(Message::FileSaved(Ok(picked))) == (Outcome::<W> {
            content: ContentChange::Keep,
            task: Task::Nothing,
        }),
{
}

/// The release of the registered hotkey hides a visible window and shows a
/// hidden one, and asks the host for the matching mode. Nothing else changes.
pub proof fn lemma_hotkey_toggles_window<W>(state: EditorState<W>, event: HotkeyEvent, window: W)
    requires
        event.state is Released,
        event.id == START_KEY_ID,
        state.window_id == Some(window),
    ensures
        state.is_visible ==> {
            &&& state.next(Message::HotkeyPressed(event)) == (EditorState {
                is_visible: false,
                ..state
            })
            &&& state.task(Message::HotkeyPressed(event)) == Task::ChangeMode(
                window,
                Mode::Hidden,
            )
        },
        !state.is_visible ==> {
            &&& state.next(Message::HotkeyPressed(event)) == (EditorState {
                is_visible: true,
                ..state
            })
            &&& state.task(Message::HotkeyPressed(event)) == Task::ChangeMode(
                window,
                Mode::Windowed,
            )
        },
        state.content_change(Message::HotkeyPressed(event)) == ContentChange::Keep,
{
}

/// A press of a hotkey, or an event of a hotkey other than the registered
/// one, changes nothing and starts no work.
pub proof fn lemma_other_hotkey_events_are_ignored<W>(state: EditorState<W>, event: HotkeyEvent)
    requires
        event.state is Pressed || event.id != START_KEY_ID,
    ensures
        state.next(Message::HotkeyPressed(event)) == state,
        state.outcome(Message::HotkeyPressed(event)) == (Outcome::<W> {
            content: ContentChange::Keep,
            task: Task::Nothing,
        }),
{
}

} // verus!
