//! The security-configuration bitfield: decoding version-gated bits and
//! the derived "fully disabled" predicate.
//!
//! Each bit's meaning is a function of both its position and the version
//! the value was captured under: bits introduced by later releases are
//! undefined on earlier ones and are withheld from decoding. Bit 4 is
//! excluded from the base mask because it cannot be set on shipping
//! systems.

use vstd::prelude::*;

use crate::outcome::{InvocationError, InvocationErrorKind};
use crate::version::{
    SemanticVersion, big_sur, high_sierra, lemma_le_lt_transitive, lemma_order_transitive, mojave,
    sierra, spec_big_sur, spec_high_sierra, spec_mojave, spec_sierra,
};

verus! {

/// Session cache for the security-configuration bitfield.
pub struct SIPData {
    pub bits: Option<u32>,
}

impl Default for SIPData {
    /// An empty cache: nothing probed yet.
    fn default() -> (d: Self)
        ensures
            d.bits is None,
    {
        SIPData { bits: None }
    }
}

/// The decision after a native security-configuration call: the call's
/// status code must be checked; success may not be assumed merely
/// because the call returned.
pub fn get_sip(code: i32, bits: u32) -> (r: Result<u32, InvocationError>)
    ensures
        match r {
            Ok(v) => code == 0 && v == bits,
            Err(e) => code != 0 && e.kind == InvocationErrorKind::NativeCallFailed && e.detail@
                == "security configuration call returned a failure code"@,
        },
{
    if code == 0 {
        Ok(bits)
    } else {
        Err(
            InvocationError::new(
                InvocationErrorKind::NativeCallFailed,
                String::from_str("security configuration call returned a failure code"),
            ),
        )
    }
}

// ---------------------------------------------------------------------------
// Which bits are defined under a version
// ---------------------------------------------------------------------------

/// Whether the bit at `position` carries meaning under `version`: the
/// eight base bits always, then one more per later release.
pub open spec fn spec_bit_defined(position: u32, version: SemanticVersion) -> bool {
    ||| position < 8
    ||| (position == 8 && version.spec_ge(spec_sierra()))
    ||| (position == 9 && version.spec_ge(spec_high_sierra()))
    ||| (position == 10 && version.spec_ge(spec_mojave()))
    ||| (position == 11 && version.spec_ge(spec_big_sur()))
}

/// How many bit positions are defined under `version` (they are
/// contiguous from position 0).
pub open spec fn spec_defined_count(version: SemanticVersion) -> u32 {
    if version.spec_ge(spec_big_sur()) {
        12
    } else if version.spec_ge(spec_mojave()) {
        11
    } else if version.spec_ge(spec_high_sierra()) {
        10
    } else if version.spec_ge(spec_sierra()) {
        9
    } else {
        8
    }
}

/// The defined bits are exactly the positions below the defined count.
pub proof fn lemma_defined_bits_contiguous(version: SemanticVersion)
    ensures
        forall|p: u32| spec_bit_defined(p, version) <==> p < spec_defined_count(version),
{
    if version.spec_ge(spec_big_sur()) {
        assert(version.spec_ge(spec_mojave())) by {
            if version.spec_lt(spec_mojave()) {
                lemma_order_transitive(version, spec_mojave(), spec_big_sur());
            }
        }
    }
    if version.spec_ge(spec_mojave()) {
        assert(version.spec_ge(spec_high_sierra())) by {
            if version.spec_lt(spec_high_sierra()) {
                lemma_order_transitive(version, spec_high_sierra(), spec_mojave());
            }
        }
    }
    if version.spec_ge(spec_high_sierra()) {
        assert(version.spec_ge(spec_sierra())) by {
            if version.spec_lt(spec_sierra()) {
                lemma_order_transitive(version, spec_sierra(), spec_high_sierra());
            }
        }
    }
}

pub fn defined_count(version: &SemanticVersion) -> (c: u32)
    ensures
        c == spec_defined_count(*version),
{
    if version.is_at_least(&big_sur()) {
        12
    } else if version.is_at_least(&mojave()) {
        11
    } else if version.is_at_least(&high_sierra()) {
        10
    } else if version.is_at_least(&sierra()) {
        9
    } else {
        8
    }
}

// ---------------------------------------------------------------------------
// Decoding the defined bits
// ---------------------------------------------------------------------------

pub open spec fn spec_bit_set(bits: u32, position: u32) -> bool {
    bits & (1u32 << position) != 0
}

/// The decoded status of one defined bit.
#[derive(Clone, Copy, Debug, PartialEq, Eq, Structural)]
pub struct SecurityBitStatus {
    pub position: u32,
    pub allowed: bool,
}

/// What decoding yields: one status per defined bit, in position order.
pub open spec fn spec_decode(bits: u32, version: SemanticVersion) -> Seq<SecurityBitStatus> {
    Seq::new(
        spec_defined_count(version) as nat,
        |k: int|
            SecurityBitStatus { position: k as u32, allowed: spec_bit_set(bits, k as u32) },
    )
}

/// Decode the bits defined under `version`, withholding the rest.
pub fn decode_security_bits(bits: u32, version: &SemanticVersion) -> (r: Vec<SecurityBitStatus>)
    ensures
        r@ == spec_decode(bits, *version),
{
    let count = defined_count(version);
    let mut r: Vec<SecurityBitStatus> = Vec::new();
    let mut p: u32 = 0;
    while p < count
        invariant
            0 <= p <= count,
            count == spec_defined_count(*version),
            count <= 12,
            r@.len() == p as int,
            forall|k: int|
                0 <= k < p as int ==> r@[k] == (SecurityBitStatus {
                    position: k as u32,
                    allowed: spec_bit_set(bits, k as u32),
                }),
        decreases count - p,
    {
        let allowed = bits & (1u32 << p) != 0;
        r.push(SecurityBitStatus { position: p, allowed });
        p = p + 1;
    }
    proof {
        assert(r@ =~= spec_decode(bits, *version));
    }
    r
}

/// Law: decoding is a function of the pair (bits, version) alone - any
/// two decodings of the same pair are identical.
pub proof fn lemma_decode_deterministic(
    bits: u32,
    version: SemanticVersion,
    r1: Seq<SecurityBitStatus>,
    r2: Seq<SecurityBitStatus>,
)
    requires
        r1 == spec_decode(bits, version),
        r2 == spec_decode(bits, version),
    ensures
        r1 == r2,
{
}

// ---------------------------------------------------------------------------
// Names of the defined bits
// ---------------------------------------------------------------------------

pub open spec fn spec_security_bit_name(position: u32) -> Seq<char> {
    if position == 0 {
        "CSR_ALLOW_UNTRUSTED_KEXTS"@
    } else if position == 1 {
        "CSR_ALLOW_UNRESTRICTED_FS"@
    } else if position == 2 {
        "CSR_ALLOW_TASK_FOR_PID"@
    } else if position == 3 {
        "CSR_ALLOW_KERNEL_DEBUGGER"@
    } else if position == 4 {
        "CSR_ALLOW_APPLE_INTERNAL"@
    } else if position == 5 {
        "CSR_ALLOW_UNRESTRICTED_DTRACE"@
    } else if position == 6 {
        "CSR_ALLOW_UNRESTRICTED_NVRAM"@
    } else if position == 7 {
        "CSR_ALLOW_DEVICE_CONFIGURATION"@
    } else if position == 8 {
        "CSR_ALLOW_ANY_RECOVERY_OS"@
    } else if position == 9 {
        "CSR_ALLOW_UNAPPROVED_KEXTS"@
    } else if position == 10 {
        "CSR_ALLOW_EXECUTABLE_POLICY_OVERRIDE"@
    } else {
        "CSR_ALLOW_UNAUTHENTICATED_ROOT"@
    }
}

/// The conventional name of the bit at `position`.
pub fn security_bit_name(position: u32) -> (r: &'static str)
    requires
        position < 12,
    ensures
        r@ == spec_security_bit_name(position),
{
    if position == 0 {
        "CSR_ALLOW_UNTRUSTED_KEXTS"
    } else if position == 1 {
        "CSR_ALLOW_UNRESTRICTED_FS"
    } else if position == 2 {
        "CSR_ALLOW_TASK_FOR_PID"
    } else if position == 3 {
        "CSR_ALLOW_KERNEL_DEBUGGER"
    } else if position == 4 {
        "CSR_ALLOW_APPLE_INTERNAL"
    } else if position == 5 {
        "CSR_ALLOW_UNRESTRICTED_DTRACE"
    } else if position == 6 {
        "CSR_ALLOW_UNRESTRICTED_NVRAM"
    } else if position == 7 {
        "CSR_ALLOW_DEVICE_CONFIGURATION"
    } else if position == 8 {
        "CSR_ALLOW_ANY_RECOVERY_OS"
    } else if position == 9 {
        "CSR_ALLOW_UNAPPROVED_KEXTS"
    } else if position == 10 {
        "CSR_ALLOW_EXECUTABLE_POLICY_OVERRIDE"
    } else {
        "CSR_ALLOW_UNAUTHENTICATED_ROOT"
    }
}

// ---------------------------------------------------------------------------
// The derived "fully disabled" predicate
// ---------------------------------------------------------------------------

/// Protection is fully disabled when the base mask (bits 0-7 except the
/// vendor-internal bit 4) is fully set, and every later-introduced gate
/// bit is also set whenever the version is at or past the release that
/// introduced it.
pub open spec fn spec_fully_disabled(bits: u32, version: SemanticVersion) -> bool {
    &&& bits & 239u32 == 239u32
    &&& (version.spec_ge(spec_sierra()) ==> bits & 256u32 == 256u32)
    &&& (version.spec_ge(spec_high_sierra()) ==> bits & 512u32 == 512u32)
    &&& (version.spec_ge(spec_mojave()) ==> bits & 1024u32 == 1024u32)
    &&& (version.spec_ge(spec_big_sur()) ==> bits & 2048u32 == 2048u32)
}

/// The version-ordered, short-circuiting evaluation of "fully disabled":
/// at each step, an unset bit settles the answer as false; a version
/// that predates the next gate settles it as true; otherwise the next
/// gate is checked.
pub fn is_sip_disabled(bits: u32, version: &SemanticVersion) -> (r: bool)
    ensures
        r == spec_fully_disabled(bits, *version),
{
    if bits & 239 != 239 {
        return false;
    }
    if version.is_below(&sierra()) {
        proof {
            lemma_order_transitive(*version, spec_sierra(), spec_high_sierra());
            lemma_order_transitive(*version, spec_sierra(), spec_mojave());
            lemma_order_transitive(*version, spec_sierra(), spec_big_sur());
        }
        return true;
    }
    if bits & 256 != 256 {
        return false;
    }
    if version.is_below(&high_sierra()) {
        proof {
            lemma_order_transitive(*version, spec_high_sierra(), spec_mojave());
            lemma_order_transitive(*version, spec_high_sierra(), spec_big_sur());
        }
        return true;
    }
    if bits & 512 != 512 {
        return false;
    }
    if version.is_below(&mojave()) {
        proof {
            lemma_order_transitive(*version, spec_mojave(), spec_big_sur());
        }
        return true;
    }
    if bits & 1024 != 1024 {
        return false;
    }
    if version.is_below(&big_sur()) {
        return true;
    }
    bits & 2048 == 2048
}

/// Law (growing feature set): each release only adds gates, so a
/// configuration fully disabled under a later version is fully disabled
/// under any earlier one.
pub proof fn lemma_fully_disabled_downward(bits: u32, v1: SemanticVersion, v2: SemanticVersion)
    requires
        !v2.spec_lt(v1),
        spec_fully_disabled(bits, v2),
    ensures
        spec_fully_disabled(bits, v1),
{
    if v1.spec_ge(spec_sierra()) && v2.spec_lt(spec_sierra()) {
        lemma_le_lt_transitive(v1, v2, spec_sierra());
    }
    if v1.spec_ge(spec_high_sierra()) && v2.spec_lt(spec_high_sierra()) {
        lemma_le_lt_transitive(v1, v2, spec_high_sierra());
    }
    if v1.spec_ge(spec_mojave()) && v2.spec_lt(spec_mojave()) {
        lemma_le_lt_transitive(v1, v2, spec_mojave());
    }
    if v1.spec_ge(spec_big_sur()) && v2.spec_lt(spec_big_sur()) {
        lemma_le_lt_transitive(v1, v2, spec_big_sur());
    }
}

/// Law ("fully disabled" does not decay upward, away from crossed
/// gates): raising the version keeps a fully disabled configuration
/// fully disabled, provided every gate bit whose release the raise
/// crosses is set. The proviso excludes exactly the configurations on
/// which the unrestricted claim fails: bits 239 are fully disabled
/// below the first gate's release and not at or past it.
pub proof fn lemma_fully_disabled_upward(bits: u32, v1: SemanticVersion, v2: SemanticVersion)
    requires
        !v2.spec_lt(v1),
        spec_fully_disabled(bits, v1) ==> {
            &&& (v1.spec_lt(spec_sierra()) && !v2.spec_lt(spec_sierra()) ==> bits & 256u32
                == 256u32)
            &&& (v1.spec_lt(spec_high_sierra()) && !v2.spec_lt(spec_high_sierra()) ==> bits
                & 512u32 == 512u32)
            &&& (v1.spec_lt(spec_mojave()) && !v2.spec_lt(spec_mojave()) ==> bits & 1024u32
                == 1024u32)
            &&& (v1.spec_lt(spec_big_sur()) && !v2.spec_lt(spec_big_sur()) ==> bits & 2048u32
                == 2048u32)
        },
    ensures
        spec_fully_disabled(bits, v1) ==> spec_fully_disabled(bits, v2),
{
}

} // verus!
