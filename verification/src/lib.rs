//! A configuration store for a desktop application, written so that it never
//! touches the outside world itself.
//!
//! The store keeps one settings document, [`config::Content`], next to the
//! location of the file that backs it. Every effect that loading or saving
//! needs (probing the file system, reading, writing, turning text into a document
//! and back) is handed to the surrounding shell as a [`protocol::Request`]; the
//! shell answers with a [`protocol::Reply`]. What is asked, in which order, and
//! what each answer leads to is decided here and proved against the transition
//! functions of the views.

pub mod config;
pub mod laws;
pub mod protocol;
pub mod save;
pub mod startup;
pub mod world;
