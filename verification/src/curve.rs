//! Curve parameter sets.
//!
//! A `CurveFamily` fixes the byte widths of the canonical uncompressed
//! encodings used throughout the envelope: the width of a G1 point, of a G2
//! point, and of a scalar-field element. The two families share every other
//! aspect of the envelope layout.

use vstd::prelude::*;

verus! {

/// The supported pairing-friendly curve families.
#[derive(Clone, Copy, Debug, PartialEq, Eq, Structural)]
pub enum CurveFamily {
    /// The BN254 family: 32-byte base-field elements.
    Bn254,
    /// The BLS12-377 family: 48-byte base-field elements.
    Bls12377,
}

/// Uncompressed byte width of a G1 group element.
pub open spec fn g1_width(fam: CurveFamily) -> nat {
    match fam {
        CurveFamily::Bn254 => 64,
        CurveFamily::Bls12377 => 96,
    }
}

/// Uncompressed byte width of a G2 group element.
pub open spec fn g2_width(fam: CurveFamily) -> nat {
    match fam {
        CurveFamily::Bn254 => 128,
        CurveFamily::Bls12377 => 192,
    }
}

/// Byte width of a scalar-field element, the form every public input takes.
pub open spec fn fr_width(fam: CurveFamily) -> nat {
    match fam {
        CurveFamily::Bn254 => 32,
        CurveFamily::Bls12377 => 32,
    }
}

/// The envelope's family tag byte.
pub open spec fn family_tag(fam: CurveFamily) -> u8 {
    match fam {
        CurveFamily::Bn254 => 1,
        CurveFamily::Bls12377 => 2,
    }
}

impl CurveFamily {
    /// Uncompressed byte width of a G1 group element of this family.
    pub fn g1_bytes(&self) -> (r: usize)
        ensures
            r == g1_width(*self),
    {
        match self {
            CurveFamily::Bn254 => 64,
            CurveFamily::Bls12377 => 96,
        }
    }

    /// Uncompressed byte width of a G2 group element of this family.
    pub fn g2_bytes(&self) -> (r: usize)
        ensures
            r == g2_width(*self),
    {
        match self {
            CurveFamily::Bn254 => 128,
            CurveFamily::Bls12377 => 192,
        }
    }

    /// Byte width of a scalar-field element of this family.
    pub fn fr_bytes(&self) -> (r: usize)
        ensures
            r == fr_width(*self),
    {
        match self {
            CurveFamily::Bn254 => 32,
            CurveFamily::Bls12377 => 32,
        }
    }

    /// The tag byte that names this family inside an envelope header.
    pub fn tag(&self) -> (r: u8)
        ensures
            r == family_tag(*self),
    {
        match self {
            CurveFamily::Bn254 => 1,
            CurveFamily::Bls12377 => 2,
        }
    }
}

/// The family a tag byte names, if any; the inverse of `family_tag`.
pub open spec fn family_of_tag(tag: u8) -> Option<CurveFamily> {
    if tag == 1 {
        Some(CurveFamily::Bn254)
    } else if tag == 2 {
        Some(CurveFamily::Bls12377)
    } else {
        None
    }
}

/// Tagging is lossless: every family is recovered from its own tag.
pub proof fn lemma_family_tag_round_trip(fam: CurveFamily)
    ensures
        family_of_tag(family_tag(fam)) == Some(fam),
{
}

} // verus!
