//! A signal that is either a bare marker or a carrier of one integer.

use vstd::prelude::*;

verus! {

/// A signal of one of two kinds.
pub enum MyEnum {
    /// The marker, which carries nothing.
    Variant1,
    /// The carrier of one integer.
    Variant2(i32),
}

/// Every signal is of exactly one kind.
pub proof fn lemma_exactly_one_variant(signal: MyEnum)
    ensures
        (signal is Variant1) != (signal is Variant2),
{
}

/// A signal built as a carrier of `payload` is a carrier, not the marker,
/// and carries `payload`.
pub proof fn lemma_variant2_carries(payload: i32)
    ensures
        MyEnum::Variant2(payload) is Variant2,
        !(MyEnum::Variant2(payload) is Variant1),
        MyEnum::Variant2(payload)->Variant2_0 == payload,
{
}

} // verus!
