//! The core of a small text editor: the state machine that drives the
//! document and the window, the rules of its view, the global hotkey that
//! shows and hides the window, and the settings record it starts from.
//!
//! The library does no input or output. The host hands it messages, one at a
//! time, and carries out the work that each transition asks for.

pub mod editor;
pub mod error;
pub mod highlighter;
pub mod hotkey;
pub mod paths;
pub mod settings;
pub mod text;
pub mod view;
