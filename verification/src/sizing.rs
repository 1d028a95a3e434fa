//! Magnification arithmetic: how a source dimension becomes a target dimension.

use vstd::prelude::*;

verus! {

/// The factor used when none is configured.
pub const DEFAULT_FACTOR: u32 = 4;

/// `dimension * factor`, held at `u32::MAX` once the product no longer fits.
pub open spec fn magnified(dimension: nat, factor: nat) -> nat {
    if dimension * factor > u32::MAX {
        u32::MAX as nat
    } else {
        dimension * factor
    }
}

/// A positive integer scale, applied alike to width and height.
#[derive(Clone, Copy, Debug)]
pub struct MagnificationFactor {
    value: u32,
}

impl View for MagnificationFactor {
    type V = nat;

    closed spec fn view(&self) -> nat {
        self.value as nat
    }
}

impl MagnificationFactor {
    #[verifier::type_invariant]
    spec fn is_positive(self) -> bool {
        self.value >= 1
    }

    /// A factor of `value`; zero is not a magnification and gives `None`.
    pub fn new(value: u32) -> (factor: Option<MagnificationFactor>)
        ensures
            value == 0 <==> factor is None,
            factor matches Some(f) ==> f@ == value,
    {
        if value == 0 {
            None
        } else {
            Some(MagnificationFactor { value })
        }
    }

    /// The scale as a plain integer, never zero.
    pub fn get(&self) -> (value: u32)
        ensures
            value == self@,
            value >= 1,
    {
        proof {
            use_type_invariant(self);
        }
        self.value
    }

    /// One dimension scaled by this factor, saturating at `u32::MAX`.
    pub fn apply(&self, dimension: u32) -> (scaled: u32)
        ensures
            scaled == magnified(dimension as nat, self@),
    {
        match dimension.checked_mul(self.value) {
            Some(product) => product,
            None => u32::MAX,
        }
    }

    /// Width and height scaled by this factor, each on its own.
    pub fn target_dimensions(&self, width: u32, height: u32) -> (target: (u32, u32))
        ensures
            target.0 == magnified(width as nat, self@),
            target.1 == magnified(height as nat, self@),
    {
        (self.apply(width), self.apply(height))
    }
}

impl Default for MagnificationFactor {
    fn default() -> (factor: MagnificationFactor)
        ensures
            factor@ == DEFAULT_FACTOR,
    {
        MagnificationFactor { value: DEFAULT_FACTOR }
    }
}

/// While the product fits in 32 bits, magnifying is plain multiplication.
pub proof fn lemma_magnified_is_product(dimension: nat, factor: nat)
    requires
        dimension * factor <= u32::MAX,
    ensures
        magnified(dimension, factor) == dimension * factor,
{
}

/// A dimension of zero stays zero under every factor.
pub proof fn lemma_magnified_zero(factor: nat)
    ensures
        magnified(0, factor) == 0,
{
}

/// A positive factor never shrinks a dimension that fits in 32 bits.
pub proof fn lemma_magnified_not_smaller(dimension: nat, factor: nat)
    requires
        factor >= 1,
        dimension <= u32::MAX,
    ensures
        dimension <= magnified(dimension, factor) <= u32::MAX,
{
    assert(dimension * factor >= dimension) by (nonlinear_arith)
        requires
            factor >= 1,
    ;
}

/// A larger source dimension never gives a smaller target.
pub proof fn lemma_magnified_monotonic(smaller: nat, larger: nat, factor: nat)
    requires
        smaller <= larger,
    ensures
        magnified(smaller, factor) <= magnified(larger, factor),
{
    assert(smaller * factor <= larger * factor) by (nonlinear_arith)
        requires
            smaller <= larger,
    ;
}

/// Where neither side saturates, the proportions of the source are kept.
pub proof fn lemma_uniform_scaling_keeps_proportions(width: nat, height: nat, factor: nat)
    requires
        width * factor <= u32::MAX,
        height * factor <= u32::MAX,
    ensures
        magnified(width, factor) * height == magnified(height, factor) * width,
{
    assert((width * factor) * height == (height * factor) * width) by (nonlinear_arith);
}

} // verus!
