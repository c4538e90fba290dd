//! The error of a failed conversion is a `std::io::Error`, which std builds from a
//! classification and a message. This module is where the crate meets that type.
use vstd::prelude::*;

verus! {

/// `std::io::Error`. A value of it is opaque here: [`make_error`] makes it, the caller
/// gets it, and nothing in this crate looks inside.
#[verifier::external_type_specification]
#[verifier::external_body]
pub struct ExIoError(std::io::Error);

/// `std::io::ErrorKind`, the classification of a `std::io::Error`, with its variants.
#[verifier::external_type_specification]
pub struct ExIoErrorKind(std::io::ErrorKind);

/// The error that `std::io::Error::new` builds from a classification and from a message
/// as its payload: an error of that classification which contains the message.
pub uninterp spec fn io_error(kind: std::io::ErrorKind, msg: Seq<char>) -> std::io::Error;

/// Calls `std::io::Error::new` with a classification and, as the payload, a message.
///
/// Not proved, but taken from std: the error that comes back is made of these two
/// arguments and of nothing else, so that [`io_error`] can name it.
#[verifier::external_body]
pub(crate) fn make_error(kind: std::io::ErrorKind, msg: &str) -> (e: std::io::Error)
    ensures
        e == io_error(kind, msg@),
{
    std::io::Error::new(kind, msg)
}

} // verus!
