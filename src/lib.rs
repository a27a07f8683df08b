//! Text-input engine of an on-screen keyboard: a codepoint-indexed edit
//! buffer, a layered key layout with an optional character allow-list, and
//! the modal open/close handshake between the keyboard and its caller.

pub mod home_screen;
pub mod keysets;
pub mod text;
pub mod virtual_keyboard;
