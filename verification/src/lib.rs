//! Planning core of a bloom-enhanced, tone-mapped frame renderer.
//!
//! The crate decides what the graphics device is asked to do and in which
//! order: which intermediate images exist and how large they are
//! ([`targets`]), which pass samples which image ([`passes`]), which
//! render-pass scopes make up a frame ([`frame`]), and how all of it is
//! replaced when the output is resized ([`renderer`]). It never talks to a
//! device itself: every request comes out as plain data, and whoever owns the
//! device carries the requests out in the order given.
//!
//! What is proved of those requests is stated next to them, as the contracts
//! of the functions that make them and as the lemmas of each module.

pub mod frame;
pub mod passes;
pub mod renderer;
pub mod targets;
pub mod text;
