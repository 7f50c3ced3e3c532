//! The X11 clipboard.
//!
//! On X11 the contents of the clipboard stay with the client that put them
//! there: it owns a selection, and answers the requests of others for it. So
//! putting something on the clipboard, reading it, and keeping it alive after
//! the end of a program are conversations with the X server and through it with
//! other clients.
//!
//! This crate decides what is said in these conversations, and proves what comes
//! of them. Each is a value with two methods: `request` tells what is to be done
//! next, and `step` takes what came of it. Whoever holds the connections does
//! the talking, and runs the two in turn until there is no further request.
//!
//! - [`clipboard`] is what users of the clipboard need, [`context`] its state.
//! - [`open`] and [`window`] begin, [`read`], [`read_single`] and [`write`] read
//!   and write, [`serve`] answers others, [`handover`] leaves our data with the
//!   clipboard manager.
//! - [`protocol`] has the words of the conversations, [`atoms`] their names.
//! - [`text`] and [`picture`] turn contents into text and images and back.
//! - [`laws`] holds what is proved of the whole.
pub mod atoms;
pub mod clipboard;
pub mod context;
pub mod error;
pub mod guard;
pub mod handover;
pub mod laws;
pub mod open;
pub mod picture;
pub mod protocol;
pub mod read;
pub mod read_single;
pub mod serve;
pub mod text;
pub mod window;
pub mod write;
