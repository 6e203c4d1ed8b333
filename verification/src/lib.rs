//! A small bank ATM session: a line editor that turns keystrokes into a line
//! of text, and a session state machine that applies commands to a ledger.

pub mod command;
pub mod completion;
pub mod editor;
pub mod keys;
pub mod laws;
pub mod ledger;
pub mod screen;
pub mod session;
pub mod text;
