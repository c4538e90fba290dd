//! What holds of the conversions, stated over [`converted`] and [`lazily_converted`], by
//! which [`Oops::oops`] and [`Oops::lazy_oops`] say what they return.
use vstd::prelude::*;
use crate::convert::{converted, failure, lazily_converted, lazy_conversion_allowed, Oops};

verus! {

/// A value that is there is kept. The eager and the lazy conversion agree on it: each
/// gives the value back, whatever the message and whatever the function that would make
/// it. The lazy conversion may be asked for with any function at all, since it does not
/// call it.
pub proof fn lemma_value_is_kept<T, F: FnOnce() -> String>(
    v: T,
    msg: Seq<char>,
    lazy_msg: F,
    res: Result<T, std::io::Error>,
)
    ensures
        converted(Some(v), msg) == Ok::<T, std::io::Error>(v),
        lazy_conversion_allowed(Some(v), lazy_msg),
        lazily_converted(Some(v), lazy_msg, res) <==> res == Ok::<T, std::io::Error>(v),
{
}

/// An `Option` and a `Result` that hold the same value are converted alike, and so are
/// `None` and any `Err`: the failure tells nothing of where it came from.
pub proof fn lemma_option_and_result_agree<T, E>(v: T, e: E, msg: Seq<char>)
    ensures
        Ok::<T, E>(v).held() == Some(v).held(),
        Err::<T, E>(e).held() == None::<T>.held(),
        converted(Some(v).held(), msg) == converted(Ok::<T, E>(v).held(), msg),
        converted(None::<T>.held(), msg) == converted(Err::<T, E>(e).held(), msg),
{
}

/// What a `Result` failed with is dropped: two failures with the same message are
/// converted to the same error, the one that carries the message.
pub proof fn lemma_failure_content_is_dropped<T, E>(e1: E, e2: E, msg: Seq<char>)
    ensures
        converted(Err::<T, E>(e1).held(), msg) == Err::<T, std::io::Error>(failure(msg)),
        converted(Err::<T, E>(e1).held(), msg) == converted(Err::<T, E>(e2).held(), msg),
{
}

/// Where there is no value, the lazy conversion is the eager one with a message that
/// the function returns.
pub proof fn lemma_lazy_failure_carries_a_returned_message<T, F: FnOnce() -> String>(
    lazy_msg: F,
    res: Result<T, std::io::Error>,
)
    requires
        lazily_converted(None::<T>, lazy_msg, res),
    ensures
        exists|s: String| #[trigger]
            call_ensures(lazy_msg, (), s) && res == Err::<T, std::io::Error>(failure(s@)),
{
}

/// With a function that can return nothing but `msg`, the lazy conversion gives what
/// the eager conversion gives with `msg`.
pub proof fn lemma_lazy_agrees_with_eager<T, F: FnOnce() -> String>(
    held: Option<T>,
    lazy_msg: F,
    msg: Seq<char>,
    res: Result<T, std::io::Error>,
)
    requires
        forall|s: String| call_ensures(lazy_msg, (), s) ==> s@ == msg,
        lazily_converted(held, lazy_msg, res),
    ensures
        res == converted(held, msg),
{
}

} // verus!
