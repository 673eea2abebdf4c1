//! What holds of the conversions taken together.
use crate::model::Model;
use crate::sealed;
use vstd::prelude::*;

verus! {

/// Converting a value to the other library and back loses nothing: if
/// `there` is what converting `start` gives, and `back` is what converting
/// `there` gives, then `back` stands for what `start` stood for. This holds
/// of every pair of types with a conversion, in both directions.
pub proof fn round_trip<A, B>(start: A, there: B, back: A) where
    A: sealed::Compat<B>,
    B: sealed::Compat<A>,

    requires
        call_ensures(<A as sealed::Compat<B>>::convert, (start,), there),
        call_ensures(<B as sealed::Compat<A>>::convert, (there,), back),
    ensures
        back.value() == start.value(),
{
}

/// A conversion changes no width: only types of one width are paired, and
/// a value that is converted takes that width before and after, as a byte
/// string of that length or as a number below `256^width`.
pub proof fn keeps_width<A, B>(source: A, out: B) where A: sealed::Compat<B>, B: Model
    requires
        call_ensures(<A as sealed::Compat<B>>::convert, (source,), out),
    ensures
        A::width() == B::width(),
        source.value().fits(A::width()),
        out.value().fits(B::width()),
{
    <A as sealed::Compat<B>>::same_width();
}

} // verus!
