//! Turns an `Option` or a `Result` into a `std::io::Result` whose error carries a message.
//!
//! [`Oops::oops`] takes the message as it is; [`Oops::lazy_oops`] takes a function that
//! makes the message and calls it only when the conversion fails. Either way a value that
//! is there comes back unchanged, and every failure is an error of the classification
//! `Other` that carries the message and nothing of what had failed before.
pub mod convert;
pub mod error;
pub mod laws;

pub use crate::convert::Oops;
