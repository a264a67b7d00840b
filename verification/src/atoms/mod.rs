//! The smallest parts of a page: a button and a text input.

pub mod button;
pub mod input;
