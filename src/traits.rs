//! Small traits shared by the tools.

use vstd::prelude::*;

use crate::options::{AssertOptions, BugOptions, CoreFlags};

verus! {

/// Rendering a value as text.
pub trait Printing<'a, S> {
    /// The value written as a string.
    fn print_to_string(&self) -> String;
}

/// Wrapping a value as a successful result.
pub trait IntoResult: Sized {
    /// The value, as `Ok`.
    fn into_ok<E>(self) -> (r: Result<Self, E>)
        ensures
            r == Ok::<Self, E>(self),
    {
        Ok(self)
    }
}

impl IntoResult for AssertOptions {

}

impl IntoResult for BugOptions {

}

impl IntoResult for CoreFlags {

}

} // verus!
