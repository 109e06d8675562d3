//! A three-state optional: a value may be absent from the input altogether
//! (`Undefined`), explicitly null (`Null`), or present (`Value`).

use vstd::prelude::*;

verus! {

/// Distinguishes a field that was never given from one that was given as null.
#[derive(PartialEq, Eq, Debug)]
pub enum MaybeUndefined<T> {
    Undefined,
    Null,
    Value(T),
}

impl<T> MaybeUndefined<T> {
    /// True exactly on `Undefined`.
    pub fn is_undefined(&self) -> (r: bool)
        ensures
            r == (*self is Undefined),
    {
        matches!(self, Self::Undefined)
    }

    /// True on `Null` and `Value`, false on `Undefined`.
    pub fn is_defined(&self) -> (r: bool)
        ensures
            r == !(*self is Undefined),
    {
        !matches!(self, Self::Undefined)
    }

    /// The held value, or `t` when there is none.
    pub fn unwrap_or(self, t: T) -> (r: T)
        ensures
            self matches MaybeUndefined::Value(v) ==> r == v,
            !(self is Value) ==> r == t,
    {
        match self {
            Self::Value(v) => v,
            _ => t,
        }
    }

    /// The nested-option form: `Undefined` is `None`, `Null` is `Some(None)`,
    /// `Value(v)` is `Some(Some(v))`.
    pub fn into_nested_option(self) -> (r: Option<Option<T>>)
        ensures
            self is Undefined ==> r is None,
            self is Null ==> r == Some(Option::<T>::None),
            self matches MaybeUndefined::Value(v) ==> r == Some(Some(v)),
    {
        match self {
            Self::Undefined => None,
            Self::Null => Some(None),
            Self::Value(v) => Some(Some(v)),
        }
    }
}

impl<T, E> MaybeUndefined<Result<T, E>> {
    /// Transposes a `MaybeUndefined` of a `Result` into a `Result` of a
    /// `MaybeUndefined`: `Undefined` and `Null` pass through under `Ok`,
    /// `Value(Ok(v))` becomes `Ok(Value(v))`, and `Value(Err(e))` becomes
    /// `Err(e)`.
    pub fn transpose(self) -> (r: Result<MaybeUndefined<T>, E>)
        ensures
            self is Undefined ==> r == Ok::<MaybeUndefined<T>, E>(MaybeUndefined::Undefined),
            self is Null ==> r == Ok::<MaybeUndefined<T>, E>(MaybeUndefined::Null),
            self matches MaybeUndefined::Value(res) ==> match res {
                Ok(v) => r == Ok::<MaybeUndefined<T>, E>(MaybeUndefined::Value(v)),
                Err(e) => r == Err::<MaybeUndefined<T>, E>(e),
            },
    {
        match self {
            MaybeUndefined::Undefined => Ok(MaybeUndefined::Undefined),
            MaybeUndefined::Null => Ok(MaybeUndefined::Null),
            MaybeUndefined::Value(Ok(v)) => Ok(MaybeUndefined::Value(v)),
            MaybeUndefined::Value(Err(e)) => Err(e),
        }
    }
}

} // verus!
