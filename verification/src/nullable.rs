use vstd::prelude::*;

verus! {

/// Like [`Option`], but for a bound that can be switched off on purpose:
///
/// - [`Nullable::Null`] says that there is no bound.
/// - [`Nullable::Value`] holds the bound.
///
/// An absent setting is then told apart from one that lifts the bound: the first is
/// `None` and takes its default, the second is `Some(Nullable::Null)`.
#[derive(Debug, PartialEq, Eq)]
pub enum Nullable<T> {
    /// No bound.
    Null,
    /// The bound.
    Value(T),
}

impl<T: Copy> Clone for Nullable<T> {
    fn clone(&self) -> (copy: Self)
        ensures
            copy == *self,
    {
        *self
    }
}

impl<T: Copy> Copy for Nullable<T> {

}

} // verus!
