//! The core of a small full-screen terminal text editor.
//!
//! The crate holds the editor's data and its decisions, and performs no
//! input or output itself. A [`buffer::Buffer`] owns the text and the cursor;
//! [`model`] says, over sequences of characters, what each command makes of
//! them. [`input::decode`] turns a key event into an [`input::Command`], and
//! [`render`] says which paint operations bring the screen back in step with
//! the buffer after an edit. A front end reads the keyboard, hands each event
//! to [`editor::handle_key`] and performs the paint operations that come
//! back.

pub mod buffer;
pub mod editor;
pub mod gutter;
pub mod input;
pub mod model;
pub mod paint;
pub mod render;
mod text;
