//! An application for events that users publish and join, built from
//! message-driven components, and the runtime that routes their effects.
//!
//! A component never runs a side effect itself. It hands a command to the
//! dispatcher it was given; the dispatcher's back-end runs the command and
//! turns what it resolves to into a message of the root component. The
//! back-ends here poll a command once and say whether it resolved; a command
//! that is not ready then delivers nothing. One back-end records the
//! messages in a log, the other queues them for a reducer and delivers them
//! one at a time, in the order they were produced.
//!
//! - `orders`: the dispatcher, its mappers and its back-ends.
//! - `app`, `pages`, `molecules`, `atoms`: the front end with a login, where
//!   a component updates its model in place.
//! - `site`, `page`, `component`: the compact front end of two pages, where
//!   a model is a state and an update gives the next one.
//! - `api`: the server as the components ask it.
//! - `backend`, `event`, `auth`: the events that the server keeps, and the
//!   users it knows.
//! - `url`: locations.

pub mod api;
pub mod app;
pub mod atoms;
pub mod auth;
pub mod backend;
pub mod component;
pub mod event;
pub mod molecules;
pub mod orders;
pub mod page;
pub mod pages;
pub mod site;
mod text;
pub mod url;
