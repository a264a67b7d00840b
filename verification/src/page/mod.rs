//! The two pages in their compact form, where a page is its state and an
//! update gives the next page.

pub mod event;
pub mod main;
