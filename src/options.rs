use vstd::prelude::*;

verus! {

/// A set of switches that shape how repository metadata is gathered and written.
#[derive(Clone, Copy, Debug, PartialEq, Eq, Structural)]
pub struct Options {
    pub bits: u32,
}

/// Emit both the legacy and the current key for each value, and capture a build time.
pub const GVERSION_COMPAT_BIT: u32 = 1;

/// Reserved switch for a build date; capture follows the compatibility switch.
pub const GEN_BUILD_DATE_BIT: u32 = 2;

/// When the civil time of a commit is ambiguous, take the latest candidate.
pub const USE_LATEST_DATE_BIT: u32 = 4;

/// Every switch that has a meaning.
pub const ALL_BITS: u32 = 7;

impl Options {
    /// Both the legacy and the current key for each value, and a build time.
    pub fn gversion_compat() -> (r: Options)
        ensures
            r.spec_bits() == GVERSION_COMPAT_BIT,
    {
        Options { bits: GVERSION_COMPAT_BIT }
    }

    pub fn gen_build_date() -> (r: Options)
        ensures
            r.spec_bits() == GEN_BUILD_DATE_BIT,
    {
        Options { bits: GEN_BUILD_DATE_BIT }
    }

    /// The latest civil-time candidate where a commit time is ambiguous.
    pub fn use_latest_date() -> (r: Options)
        ensures
            r.spec_bits() == USE_LATEST_DATE_BIT,
    {
        Options { bits: USE_LATEST_DATE_BIT }
    }

    pub open spec fn spec_bits(self) -> u32 {
        self.bits
    }

    /// Whether every switch of `other` is set in `self`.
    pub open spec fn spec_contains(self, other: Options) -> bool {
        self.bits & other.bits == other.bits
    }

    pub open spec fn compat(self) -> bool {
        self.bits & GVERSION_COMPAT_BIT == GVERSION_COMPAT_BIT
    }

    pub open spec fn latest(self) -> bool {
        self.bits & USE_LATEST_DATE_BIT == USE_LATEST_DATE_BIT
    }

    pub fn empty() -> (r: Options)
        ensures
            r.spec_bits() == 0,
    {
        Options { bits: 0 }
    }

    pub fn all() -> (r: Options)
        ensures
            r.spec_bits() == ALL_BITS,
    {
        Options { bits: ALL_BITS }
    }

    pub fn bits(&self) -> (r: u32)
        ensures
            r == self.spec_bits(),
    {
        self.bits
    }

    /// Keeps the switches that have a meaning and drops the others.
    pub fn from_bits_truncate(bits: u32) -> (r: Options)
        ensures
            r.spec_bits() == bits & ALL_BITS,
    {
        Options { bits: bits & ALL_BITS }
    }

    pub fn contains(&self, other: Options) -> (r: bool)
        ensures
            r == self.spec_contains(other),
    {
        self.bits & other.bits == other.bits
    }

    pub fn union(self, other: Options) -> (r: Options)
        ensures
            r.spec_bits() == self.spec_bits() | other.spec_bits(),
    {
        Options { bits: self.bits | other.bits }
    }

    pub fn is_compat(&self) -> (r: bool)
        ensures
            r == self.compat(),
    {
        self.bits & GVERSION_COMPAT_BIT == GVERSION_COMPAT_BIT
    }

    pub fn is_latest(&self) -> (r: bool)
        ensures
            r == self.latest(),
    {
        self.bits & USE_LATEST_DATE_BIT == USE_LATEST_DATE_BIT
    }
}

} // verus!
