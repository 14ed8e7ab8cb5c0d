//! Unwrapping that treats a missing value as fatal for the bot.
//!
//! `Option` and `Result` here wrap the standard types; their `unwrapx` takes
//! the value out, and its precondition rules out the crashing case, so a
//! verified caller must show that the value is present.
use vstd::prelude::*;

verus! {

/// A `core::option::Option` whose absence is a fatal error for the bot.
pub struct Option<T>(pub core::option::Option<T>);

impl<T> Option<T> {
    /// Takes the value out of a `Some`. On `None` the bot crashes, so the
    /// call is only allowed where a value is present.
    pub fn unwrapx(self) -> (r: T)
        requires
            self.0 is Some,
        ensures
            r == self.0->0,
    {
        match self.0 {
            core::option::Option::Some(x) => x,
            core::option::Option::None => unreached(),
        }
    }
}

/// A `core::result::Result` whose failure is a fatal error for the bot.
pub struct Result<T, E>(pub core::result::Result<T, E>);

impl<T, E> Result<T, E> where E: std::error::Error + 'static {
    /// Takes the value out of an `Ok`. On `Err` the bot crashes, so the call
    /// is only allowed on a success.
    pub fn unwrapx(self) -> (r: T)
        requires
            self.0 is Ok,
        ensures
            r == self.0->Ok_0,
    {
        match self.0 {
            core::result::Result::Ok(x) => x,
            core::result::Result::Err(_) => unreached(),
        }
    }
}

} // verus!
