//! Host core of a desktop shell that embeds a multi-instance browser engine.
//!
//! The library keeps the composition tree (browser, tabs, panes and content
//! buffers) and the shared event queue, and decides which instructions each
//! engine instance receives. It never talks to an engine itself: every
//! decision is appended to an ordered list of [`action::Action`]s that the
//! embedding program carries out.

pub mod action;
pub mod buffer;
pub mod window;
pub mod tab;
pub mod browser;
pub mod threads;
