use vstd::prelude::*;

verus! {

/// Quantitative usage multiplicity attached to binders and applications.
#[derive(Debug, Clone, Copy, PartialEq, Eq, Structural)]
pub enum Uses {
    /// erased multiplicity: ⁰x
    Erased,
    /// linear multiplicity: ¹x
    Once,
    /// affine (used at most once) multiplicity: ˚x
    Affi,
    /// unrestricted multiplicity: ⁺x
    Many,
}

} // verus!
