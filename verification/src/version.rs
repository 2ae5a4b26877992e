//! The version gate: an ordered semantic version for the running OS,
//! read once at startup, compared against named release thresholds to
//! decide which probe strategies are eligible.

use vstd::prelude::*;

verus! {

/// An ordered (major, minor, patch) triple. Immutable once obtained at
/// process start; used only for comparison against release thresholds.
#[derive(Clone, Copy, Debug, PartialEq, Eq, Structural, Hash)]
pub struct SemanticVersion {
    pub major: u64,
    pub minor: u64,
    pub patch: u64,
}

impl SemanticVersion {
    /// Strict lexicographic order on (major, minor, patch).
    pub open spec fn spec_lt(self, other: SemanticVersion) -> bool {
        ||| self.major < other.major
        ||| (self.major == other.major && self.minor < other.minor)
        ||| (self.major == other.major && self.minor == other.minor && self.patch < other.patch)
    }

    /// `self` is at or past `other` in release order.
    pub open spec fn spec_ge(self, other: SemanticVersion) -> bool {
        !self.spec_lt(other)
    }

    pub fn new(major: u64, minor: u64, patch: u64) -> (v: SemanticVersion)
        ensures
            v == (SemanticVersion { major, minor, patch }),
    {
        SemanticVersion { major, minor, patch }
    }

    /// True exactly when this version predates the threshold.
    pub fn is_below(&self, threshold: &SemanticVersion) -> (r: bool)
        ensures
            r == self.spec_lt(*threshold),
    {
        self.major < threshold.major || (self.major == threshold.major && (self.minor
            < threshold.minor || (self.minor == threshold.minor && self.patch < threshold.patch)))
    }

    /// True exactly when this version is at or past the threshold.
    pub fn is_at_least(&self, threshold: &SemanticVersion) -> (r: bool)
        ensures
            r == self.spec_ge(*threshold),
    {
        !self.is_below(threshold)
    }
}

/// Law: `is_at_least` and `is_below` are complements, so together they
/// classify every pair of versions consistently with one total order.
pub proof fn lemma_at_least_is_not_below(a: SemanticVersion, t: SemanticVersion)
    ensures
        a.spec_ge(t) == !a.spec_lt(t),
{
}

/// Law: the order is total - any two versions are comparable.
pub proof fn lemma_order_total(a: SemanticVersion, b: SemanticVersion)
    ensures
        a.spec_lt(b) || b.spec_lt(a) || a == b,
{
}

/// Law: the order is irreflexive and asymmetric.
pub proof fn lemma_order_asymmetric(a: SemanticVersion, b: SemanticVersion)
    ensures
        !(a.spec_lt(b) && b.spec_lt(a)),
        !a.spec_lt(a),
{
}

/// Law: the order is transitive.
pub proof fn lemma_order_transitive(a: SemanticVersion, b: SemanticVersion, c: SemanticVersion)
    requires
        a.spec_lt(b),
        b.spec_lt(c),
    ensures
        a.spec_lt(c),
{
}

/// Law: anything at most `b` is below whatever `b` is below.
pub proof fn lemma_le_lt_transitive(a: SemanticVersion, b: SemanticVersion, c: SemanticVersion)
    requires
        !b.spec_lt(a),
        b.spec_lt(c),
    ensures
        a.spec_lt(c),
{
}

// ---------------------------------------------------------------------------
// Named release thresholds used by the strategy gates and bit layouts
// ---------------------------------------------------------------------------

pub open spec fn spec_mavericks() -> SemanticVersion {
    SemanticVersion { major: 10, minor: 9, patch: 0 }
}

pub fn mavericks() -> (v: SemanticVersion)
    ensures
        v == spec_mavericks(),
{
    SemanticVersion { major: 10, minor: 9, patch: 0 }
}

pub open spec fn spec_el_capitan() -> SemanticVersion {
    SemanticVersion { major: 10, minor: 11, patch: 0 }
}

pub fn el_capitan() -> (v: SemanticVersion)
    ensures
        v == spec_el_capitan(),
{
    SemanticVersion { major: 10, minor: 11, patch: 0 }
}

pub open spec fn spec_sierra() -> SemanticVersion {
    SemanticVersion { major: 10, minor: 12, patch: 0 }
}

pub fn sierra() -> (v: SemanticVersion)
    ensures
        v == spec_sierra(),
{
    SemanticVersion { major: 10, minor: 12, patch: 0 }
}

pub open spec fn spec_high_sierra() -> SemanticVersion {
    SemanticVersion { major: 10, minor: 13, patch: 0 }
}

pub fn high_sierra() -> (v: SemanticVersion)
    ensures
        v == spec_high_sierra(),
{
    SemanticVersion { major: 10, minor: 13, patch: 0 }
}

pub open spec fn spec_mojave() -> SemanticVersion {
    SemanticVersion { major: 10, minor: 14, patch: 0 }
}

pub fn mojave() -> (v: SemanticVersion)
    ensures
        v == spec_mojave(),
{
    SemanticVersion { major: 10, minor: 14, patch: 0 }
}

pub open spec fn spec_big_sur() -> SemanticVersion {
    SemanticVersion { major: 11, minor: 0, patch: 0 }
}

pub fn big_sur() -> (v: SemanticVersion)
    ensures
        v == spec_big_sur(),
{
    SemanticVersion { major: 11, minor: 0, patch: 0 }
}

pub open spec fn spec_sonoma() -> SemanticVersion {
    SemanticVersion { major: 14, minor: 0, patch: 0 }
}

pub fn sonoma() -> (v: SemanticVersion)
    ensures
        v == spec_sonoma(),
{
    SemanticVersion { major: 14, minor: 0, patch: 0 }
}

pub open spec fn spec_sequoia() -> SemanticVersion {
    SemanticVersion { major: 15, minor: 0, patch: 0 }
}

pub fn sequoia() -> (v: SemanticVersion)
    ensures
        v == spec_sequoia(),
{
    SemanticVersion { major: 15, minor: 0, patch: 0 }
}

} // verus!
