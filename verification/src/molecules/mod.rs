//! Parts of a page that are made of several atoms.

pub mod event_details;
pub mod event_publication_form;
pub mod events_list;
pub mod login_bar;
