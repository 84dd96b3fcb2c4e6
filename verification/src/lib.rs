//! The decisions of a small video downloader.
//!
//! The downloader is a form with three text fields and one submit control,
//! and a download that runs in six steps. This library holds what the two
//! decide: which addresses the form accepts, when its control is enabled,
//! what the end of a download does to it, and which step a download takes
//! next. It opens no window and no connection. A program around it shows the
//! form, performs the steps with a fetch client, and reports back.
//!
//! - [`client`]: what is taken on trust from the fetch client's crate.
//! - [`text`]: substring search, by characters.
//! - [`validation`]: the rule that accepts an address.
//! - [`form`]: the form as a state machine.
//! - [`download`]: a download as a state machine.
//! - [`laws`]: what holds of the form and of a download for all inputs.

pub mod client;
pub mod download;
pub mod form;
pub mod laws;
pub mod text;
pub mod validation;
