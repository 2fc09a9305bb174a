//! The global hotkey that shows and hides the window, and the listener that
//! brings its events into the editor's message stream.

use vstd::prelude::*;
use crate::editor::Message;

verus! {

/// The id under which the one global hotkey is registered.
pub const START_KEY_ID: u32 = 19012025;

/// How long the listener waits between two polls of the receiver, in
/// milliseconds.
pub const POLL_INTERVAL_MS: u64 = 50;

/// Whether a hotkey went down or came up.
#[derive(Debug, Clone, Copy, PartialEq, Eq, Structural)]
pub enum HotKeyState {
    /// The key is down.
    Pressed,
    /// The key is up again.
    Released,
}

/// A notification that a registered hotkey was pressed or released.
#[derive(Debug, Clone, Copy, PartialEq, Eq, Structural)]
pub struct HotkeyEvent {
    /// The id of the hotkey that fired.
    pub id: u32,
    /// Whether it was pressed or released.
    pub state: HotKeyState,
}

impl HotkeyEvent {
    /// Whether the event toggles the window: the registered hotkey was
    /// released.
    pub open spec fn spec_toggles(self) -> bool {
        self.state is Released && self.id == START_KEY_ID
    }

    /// Whether the event toggles the window: the registered hotkey was
    /// released. A press, or another hotkey's event, does not.
    #[verifier::when_used_as_spec(spec_toggles)]
    pub fn toggles(self) -> (toggles: bool)
        ensures
            toggles == self.spec_toggles(),
    {
        match self.state {
            HotKeyState::Released => self.id == START_KEY_ID,
            HotKeyState::Pressed => false,
        }
    }
}

/// What the listener does after one poll of the receiver.
#[derive(Debug, PartialEq, Eq)]
pub struct Poll<W> {
    /// The message to send to the editor, if the poll brought an event.
    pub forward: Option<Message<W>>,
    /// How long to sleep before the next poll, in milliseconds.
    pub sleep_ms: u64,
}

/// One turn of the hotkey listener. The host polls the receiver without
/// blocking and passes what it got: an event is forwarded to the editor as
/// it is, whatever its id and state, and every turn ends with the same pause.
pub fn hotkey_worker<W>(received: Option<HotkeyEvent>) -> (poll: Poll<W>)
    ensures
        poll.sleep_ms == POLL_INTERVAL_MS,
        poll.forward == match received {
            Some(event) => Some(Message::<W>::HotkeyPressed(event)),
            None => None,
        },
{
    let forward = match received {
        Some(event) => Some(Message::HotkeyPressed(event)),
        None => None,
    };
    Poll { forward, sleep_ms: POLL_INTERVAL_MS }
}

} // verus!
