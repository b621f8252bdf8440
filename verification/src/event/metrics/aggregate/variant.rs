//! Nominal values: values that name one of a fixed list of variants.
use super::info::Variant;
use vstd::prelude::*;

verus! {

/// A value that is one of a fixed list of variants.
pub trait AsVariant {
    /// The variants, in order.
    const VARIANTS: &'static [Variant];

    /// The position of this value's variant in `VARIANTS`.
    spec fn spec_variant_idx(&self) -> int;

    /// The position of this value's variant; an implementation must give a
    /// position within the list.
    fn variant_idx(&self) -> (idx: usize)
        ensures
            idx == self.spec_variant_idx(),
            idx < Self::VARIANTS@.len(),
    ;

    /// The description of this value's variant.
    fn as_variant(&self) -> (r: &'static Variant)
        default_ensures
            *r == Self::VARIANTS@[self.spec_variant_idx()],
    {
        let idx = self.variant_idx();
        &Self::VARIANTS[idx]
    }
}

} // verus!
