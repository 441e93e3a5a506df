//! Core of a single-page portfolio site: the page enumeration, the
//! navigation state machine, the fixed content registry, and the pure
//! rendering model that turns a navigation state into an element tree.

pub mod page;
pub mod nav;
pub mod content;
pub mod render;
