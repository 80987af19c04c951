//! Decision logic of a command-line downloader for an image-gallery web
//! service: the shapes of the service's answers, the addresses it is asked
//! at, the name a downloaded file gets, and the page-by-page run that turns
//! one query into a sequence of requests and downloads.
//!
//! The crate performs no input or output. A caller carries out each
//! [`driver::Action`] and reports what came of it as a [`driver::Event`].

pub mod page;
pub mod wh_collection;
pub mod wh_collections;
pub mod wh_search;
pub mod endpoints;
pub mod download;
pub mod driver;
pub mod messages;
