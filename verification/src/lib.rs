//! The interaction core of a one-image viewer: which picture is on display,
//! what a click on each button asks for, and what the answer of the image
//! service does to the picture.
//!
//! Everything here is a plain value. The embedding application performs the
//! requests, draws the page and writes the log; this crate decides.

pub mod diagnostics;
pub mod image;
pub mod service;
pub mod controller;
pub mod history;
