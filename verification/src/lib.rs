//! The canvas that a window has on a web page: which events it listens to, what it reports of
//! them, when it keeps the browser from handling them, and how it runs the hidden text controls
//! through which input methods write.
//!
//! Nothing here touches a page. [`canvas::Canvas`] is plain state; its operations say what is to
//! be done to the page as lists of [`command::Command`]s, and take what was read from it as
//! arguments. The modules whose names end in `laws` state what holds of the operations: [`laws`],
//! [`create_laws`] and [`listener_laws`] of several together, partly by way of [`page::Page`], a
//! model of what the commands change; [`canvas_laws`], [`event_laws`], [`making_laws`] and
//! [`text_laws`] of each by itself, in terms of what it is given and what comes of it.

pub mod answers;
pub mod canvas;
pub mod canvas_laws;
pub mod clipboard;
pub mod command;
pub mod common;
pub mod create_laws;
pub mod defaults;
pub mod event_laws;
pub mod events;
pub mod ime;
pub mod input;
pub mod keyboard;
pub mod laws;
pub mod listener;
pub mod listener_laws;
pub mod making_laws;
pub mod page;
pub mod text;
pub mod text_laws;
pub mod types;
