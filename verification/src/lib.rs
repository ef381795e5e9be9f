//! The interaction core of a terminal deal browser: the state behind the
//! screen, the key bindings of each overlay, and the debounce that turns a
//! burst of selection changes into one detail fetch.
//!
//! The library performs no input or output. The program around it draws the
//! state, reads keys, performs the fetches that the library asks for and hands
//! the results back.

pub mod app;
pub mod burst;
pub mod cursor;
pub mod debounce;
pub mod decimal;
pub mod dispatch;
pub mod error;
pub mod history;
pub mod key;
pub mod laws;
pub mod overlay;
pub mod request;
pub mod state;
