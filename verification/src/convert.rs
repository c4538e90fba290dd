//! The conversion: the trait [`Oops`], and what it does for `Option` and for `Result`.
use vstd::prelude::*;
use crate::error::{io_error, make_error};

verus! {

/// The error of every failed conversion: the classification `Other`, with the message.
/// Absence and an earlier failure, whatever it held, both end in this one error.
pub open spec fn failure(msg: Seq<char>) -> std::io::Error {
    io_error(std::io::ErrorKind::Other, msg)
}

/// What eager conversion gives for a container that holds `held`, with the message `msg`:
/// the value where there is one, else the failure that carries `msg`.
pub open spec fn converted<T>(held: Option<T>, msg: Seq<char>) -> Result<T, std::io::Error> {
    match held {
        Some(v) => Ok(v),
        None => Err(failure(msg)),
    }
}

/// Whether lazy conversion may be asked for: `lazy_msg` has to be callable only where
/// there is no value, since it is called nowhere else.
pub open spec fn lazy_conversion_allowed<T, F: FnOnce() -> String>(
    held: Option<T>,
    lazy_msg: F,
) -> bool {
    held is None ==> call_requires(lazy_msg, ())
}

/// Whether `res` can come out of lazy conversion for a container that holds `held`: it
/// is the value where there is one, else what eager conversion gives with a message that
/// `lazy_msg` returns.
pub open spec fn lazily_converted<T, F: FnOnce() -> String>(
    held: Option<T>,
    lazy_msg: F,
    res: Result<T, std::io::Error>,
) -> bool {
    match held {
        Some(v) => res == Ok::<T, std::io::Error>(v),
        None => exists|s: String| #[trigger]
            call_ensures(lazy_msg, (), s) && res == converted::<T>(None, s@),
    }
}

/// A container that either holds a value or has failed, and that can be turned into a
/// `std::io::Result` with a message for the failure.
pub trait Oops<T> {
    /// The value that the container holds, `None` where it holds none.
    spec fn held(&self) -> Option<T>;

    /// Gives the value back, or fails with `msg`.
    fn oops(self, msg: &str) -> (res: std::io::Result<T>)
        ensures
            res == converted(self.held(), msg@),
    ;

    /// Gives the value back, or fails with the message that `lazy_msg` returns.
    ///
    /// `lazy_msg` is called only where there is no value. Where there is one, nothing is
    /// asked of `lazy_msg`, not even that it could be called.
    fn lazy_oops<F: FnOnce() -> String>(self, lazy_msg: F) -> (res: std::io::Result<T>)
        requires
            lazy_conversion_allowed(self.held(), lazy_msg),
        ensures
            lazily_converted(self.held(), lazy_msg, res),
    ;
}

impl<T> Oops<T> for Option<T> {
    open spec fn held(&self) -> Option<T> {
        *self
    }

    /// `Some(v)` becomes `Ok(v)`, whatever the message; `None` becomes the failure that
    /// carries `msg`.
    fn oops(self, msg: &str) -> (res: std::io::Result<T>)
        ensures
            self matches Some(v) ==> res == Ok::<T, std::io::Error>(v),
            self is None ==> res == Err::<T, std::io::Error>(failure(msg@)),
    {
        let fail = || -> (e: std::io::Error)
            ensures
                e == failure(msg@),
        {
            make_error(std::io::ErrorKind::Other, msg)
        };
        self.ok_or_else(fail)
    }

    /// `Some(v)` becomes `Ok(v)` and `lazy_msg` is left alone; `None` becomes the failure
    /// that carries what `lazy_msg` returns.
    fn lazy_oops<F: FnOnce() -> String>(self, lazy_msg: F) -> (res: std::io::Result<T>)
        ensures
            self matches Some(v) ==> res == Ok::<T, std::io::Error>(v),
            self is None ==> exists|s: String| #[trigger]
                call_ensures(lazy_msg, (), s) && res == Err::<T, std::io::Error>(failure(s@)),
    {
        match self {
            Some(x) => Ok(x),
            _ => self.oops(&lazy_msg()),
        }
    }
}

impl<T, E> Oops<T> for Result<T, E> {
    open spec fn held(&self) -> Option<T> {
        match *self {
            Ok(v) => Some(v),
            Err(_) => None,
        }
    }

    /// `Ok(v)` becomes `Ok(v)`, whatever the message; `Err(_)` becomes the failure that
    /// carries `msg`, and what the `Err` held is dropped.
    fn oops(self, msg: &str) -> (res: std::io::Result<T>)
        ensures
            self matches Ok(v) ==> res == Ok::<T, std::io::Error>(v),
            self is Err ==> res == Err::<T, std::io::Error>(failure(msg@)),
    {
        self.ok().oops(msg)
    }

    /// `Ok(v)` becomes `Ok(v)` and `lazy_msg` is left alone; `Err(_)` becomes the failure
    /// that carries what `lazy_msg` returns, and what the `Err` held is dropped.
    fn lazy_oops<F: FnOnce() -> String>(self, lazy_msg: F) -> (res: std::io::Result<T>)
        ensures
            self matches Ok(v) ==> res == Ok::<T, std::io::Error>(v),
            self is Err ==> exists|s: String| #[trigger]
                call_ensures(lazy_msg, (), s) && res == Err::<T, std::io::Error>(failure(s@)),
    {
        match self {
            Ok(x) => Ok(x),
            _ => self.oops(&lazy_msg()),
        }
    }
}

} // verus!
