use prefsuite::sip::{
    decode_security_bits, defined_count, get_sip, is_sip_disabled, security_bit_name, SIPData,
};
use prefsuite::outcome::InvocationErrorKind;
use prefsuite::version::SemanticVersion;

fn v(major: u64, minor: u64, patch: u64) -> SemanticVersion {
    SemanticVersion::new(major, minor, patch)
}

#[test]
fn at_least_and_below_are_complements() {
    let pairs = [
        (v(10, 10, 0), v(10, 12, 0)),
        (v(10, 12, 0), v(10, 12, 0)),
        (v(11, 0, 1), v(11, 0, 0)),
        (v(10, 12, 5), v(10, 13, 0)),
        (v(14, 2, 1), v(10, 9, 0)),
    ];
    for (a, t) in pairs {
        assert_eq!(a.is_at_least(&t), !a.is_below(&t));
    }
}

#[test]
fn version_order_is_lexicographic() {
    assert!(v(10, 9, 9).is_below(&v(10, 10, 0)));
    assert!(v(10, 10, 0).is_below(&v(11, 0, 0)));
    assert!(v(10, 10, 1).is_below(&v(10, 10, 2)));
    assert!(v(11, 0, 0).is_at_least(&v(10, 12, 0)));
    assert!(v(10, 12, 0).is_at_least(&v(10, 12, 0)));
    assert!(!v(10, 12, 0).is_below(&v(10, 12, 0)));
}

#[test]
fn fully_disabled_pre_sierra_with_base_bits() {
    // Base mask 0b0000_0000_1110_1111 set, no later gates exist on 10.10.
    assert!(is_sip_disabled(239, &v(10, 10, 0)));
}

#[test]
fn fully_disabled_big_sur_needs_later_gates() {
    // The same base bits are not enough once bit 8's gate applies.
    assert!(!is_sip_disabled(239, &v(11, 0, 0)));
}

#[test]
fn fully_disabled_each_gate_boundary() {
    let all = 239 | 256 | 512 | 1024 | 2048;
    assert!(is_sip_disabled(all, &v(10, 10, 0)));
    assert!(is_sip_disabled(all, &v(10, 12, 0)));
    assert!(is_sip_disabled(all, &v(10, 13, 0)));
    assert!(is_sip_disabled(all, &v(10, 14, 0)));
    assert!(is_sip_disabled(all, &v(11, 0, 0)));
    assert!(is_sip_disabled(all, &v(14, 5, 0)));
    // One bit short of the base mask is never fully disabled.
    assert!(!is_sip_disabled(238, &v(10, 10, 0)));
    // Sierra checks bit 8 but not bit 9.
    assert!(is_sip_disabled(239 | 256, &v(10, 12, 3)));
    assert!(!is_sip_disabled(239 | 256, &v(10, 13, 0)));
}

#[test]
fn decode_same_pair_twice_is_identical() {
    let first = decode_security_bits(0b1010_0110_1111, &v(10, 13, 2));
    let second = decode_security_bits(0b1010_0110_1111, &v(10, 13, 2));
    assert_eq!(first, second);
}

#[test]
fn decode_withholds_undefined_bits() {
    assert_eq!(defined_count(&v(10, 10, 0)), 8);
    assert_eq!(defined_count(&v(10, 12, 0)), 9);
    assert_eq!(defined_count(&v(10, 13, 0)), 10);
    assert_eq!(defined_count(&v(10, 14, 0)), 11);
    assert_eq!(defined_count(&v(11, 0, 0)), 12);
    let decoded = decode_security_bits(0b0001_0000_0101, &v(10, 12, 0));
    assert_eq!(decoded.len(), 9);
    for (i, bit) in decoded.iter().enumerate() {
        assert_eq!(bit.position as usize, i);
        assert_eq!(bit.allowed, i == 0 || i == 2 || i == 8);
    }
}

#[test]
fn get_sip_checks_the_status_code() {
    assert_eq!(get_sip(0, 1055).unwrap(), 1055);
    let err = get_sip(-5, 1055).unwrap_err();
    assert_eq!(err.kind, InvocationErrorKind::NativeCallFailed);
}

#[test]
fn security_bit_names_are_conventional() {
    assert_eq!(security_bit_name(0), "CSR_ALLOW_UNTRUSTED_KEXTS");
    assert_eq!(security_bit_name(8), "CSR_ALLOW_ANY_RECOVERY_OS");
    assert_eq!(security_bit_name(11), "CSR_ALLOW_UNAUTHENTICATED_ROOT");
}

#[test]
fn sip_cache_starts_empty() {
    let data = SIPData::default();
    assert!(data.bits.is_none());
}
