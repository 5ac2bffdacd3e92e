//! Which edition of EN 16931-1 a profile is a usage specification of.
//!
//! The 2026 revision is additive: it adds terms and tightens cardinalities of
//! terms that already exist. So the model is the superset, and the edition is
//! a property of the **profile**. No term-to-edition map is carried: that map
//! can only be built from the 2026 normative text, so [`Edition::En2026`] is a
//! classification that [`Edition::is_implemented`] answers `false` for.

use vstd::prelude::*;

verus! {

/// An edition of EN 16931-1, oldest first.
#[derive(Debug, Clone, Copy, PartialEq, Eq, PartialOrd, Ord, Hash, Structural)]
#[non_exhaustive]
pub enum Edition {
    /// EN 16931-1:2017 + A1:2019 (+ AC:2020) — what every deployed validator
    /// implements, and every profile this crate ships.
    En2017A1,
    /// EN 16931-1:2026 — the ViDA / B2B revision. No profile here targets it.
    En2026,
}

/// The designation of an edition, as CEN writes it.
pub open spec fn edition_designation(e: Edition) -> Seq<char> {
    match e {
        Edition::En2017A1 => "EN 16931-1:2017+A1:2019"@,
        Edition::En2026 => "EN 16931-1:2026"@,
    }
}

impl Default for Edition {
    /// The deployed edition, EN 16931-1:2017+A1:2019.
    fn default() -> (e: Edition)
        ensures
            e == Edition::En2017A1,
    {
        Edition::En2017A1
    }
}

impl Edition {
    /// The edition's designation, as CEN writes it.
    pub fn designation(self) -> (r: &'static str)
        ensures
            r@ == edition_designation(self),
    {
        match self {
            Edition::En2017A1 => "EN 16931-1:2017+A1:2019",
            Edition::En2026 => "EN 16931-1:2026",
        }
    }

    /// Whether this crate can validate against the edition today: only the
    /// 2017 rule set exists.
    pub fn is_implemented(self) -> (b: bool)
        ensures
            b == (self == Edition::En2017A1),
    {
        matches!(self, Edition::En2017A1)
    }

    /// Whether `self` is older than `other`.
    pub fn is_older_than(self, other: Edition) -> (b: bool)
        ensures
            b == (self == Edition::En2017A1 && other == Edition::En2026),
    {
        matches!(self, Edition::En2017A1) && matches!(other, Edition::En2026)
    }
}

/// The edition this crate's core rule set targets by default.
pub fn default_edition() -> (e: Edition)
    ensures
        e == Edition::En2017A1,
{
    Edition::En2017A1
}

} // verus!
