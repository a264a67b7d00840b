//! The pages of the application.

pub mod event;
pub mod login;
pub mod main;
