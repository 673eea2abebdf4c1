//! The capability to convert, held by the supported pairs of types alone.
use crate::model::Model;
use vstd::prelude::*;

verus! {

/// A value of `Self` can be turned into the value of `T` that stands for
/// the same thing.
///
/// Each pair of types that can be converted has one impl in each direction.
/// The trait cannot be named from outside, so there is no other way to get
/// one: a conversion between types that are no pair does not compile.
pub trait Compat<T: Model>: Model + Sized {
    /// The two types of a pair are equally wide.
    proof fn same_width()
        ensures
            Self::width() == T::width(),
    ;

    /// Returns the value of `T` with the meaning of `self`: the same bytes in
    /// the same order, or the same number. Nothing is cut off and nothing
    /// is added: the result takes exactly the width of `T`.
    fn convert(self) -> (out: T)
        ensures
            out.value() == self.value(),
            out.value().fits(T::width()),
    ;
}

} // verus!
