//! Metaprogramming helpers: type-level equality and a type-level conditional.

use core::marker::PhantomData;
use vstd::prelude::*;

verus! {

/// Constrain that a type is identical to another type: `T2: SameAs<T1>`
/// holds exactly when `T1` and `T2` are the same type.
pub trait SameAs<T> {

}

impl<T> SameAs<T> for T {

}

/// Selects one of two types depending on a compile-time boolean.
pub trait Conditioned<const COND: bool> {
    type Type;
}

/// Carrier for [`Conditioned`]: picks `TrueType` or `FalseType` by the flag.
pub struct AOrB<TrueType, FalseType>(PhantomData<TrueType>, PhantomData<FalseType>);

impl<TrueType, FalseType> Conditioned<true> for AOrB<TrueType, FalseType> {
    type Type = TrueType;
}

impl<TrueType, FalseType> Conditioned<false> for AOrB<TrueType, FalseType> {
    type Type = FalseType;
}

/// `Conditional<COND, A, B>` is `A` when `COND` holds and `B` otherwise.
pub type Conditional<const COND: bool, TrueType, FalseType> = <AOrB<
    TrueType,
    FalseType,
> as Conditioned<COND>>::Type;

} // verus!
