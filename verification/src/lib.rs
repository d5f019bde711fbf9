//! The search core of an interactive launcher: which sources take part in a
//! query, how their results are merged, ranked and given shortcuts, how the
//! active namespace changes, and how the keyboard moves through the list.

pub mod keys;
pub mod launcher;
pub mod loader;
pub mod mode;
pub mod nav;
pub mod results;
pub mod search;
