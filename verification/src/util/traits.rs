use vstd::prelude::*;

verus! {

/// Lets any value move itself into a `Result`.
pub trait ResultExtensions: Sized {
    /// Wraps the value in `Ok`.
    fn to_ok<E>(self) -> (r: Result<Self, E>)
        ensures
            r == Ok::<Self, E>(self),
    {
        Ok(self)
    }

    /// Wraps the value in `Err`.
    fn to_err<T>(self) -> (r: Result<T, Self>)
        ensures
            r == Err::<T, Self>(self),
    {
        Err(self)
    }
}

impl<T> ResultExtensions for T {
}

/// Lets any value move itself into an `Option`.
pub trait OptionExtensions: Sized {
    /// Wraps the value in `Some`.
    fn to_some(self) -> (r: Option<Self>)
        ensures
            r == Some(self),
    {
        Some(self)
    }
}

impl<T> OptionExtensions for T {
}

} // verus!
