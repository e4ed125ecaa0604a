//! Global keyboard shortcuts and window behaviour of a desktop companion
//! application: key-combination parsing, the shortcut registry with its
//! dispatch table, and the show / hide / toggle plans of its windows.

pub mod keys;
pub mod window;
pub mod actions;
pub mod shortcuts;
