//! Parts of a page whose model is their state: an event, the list of all
//! events, and the form that publishes one.

pub mod event;
pub mod event_list;
pub mod event_publication;
