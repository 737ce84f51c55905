use tunfd::version::multiqueue_supported;

#[test]
fn version_3_7_is_unsupported() {
    assert!(!multiqueue_supported(b"3.7"));
}

#[test]
fn version_3_8_is_supported() {
    assert!(multiqueue_supported(b"3.8"));
}

#[test]
fn version_4_0_is_supported() {
    assert!(multiqueue_supported(b"4.0"));
}

#[test]
fn malformed_version_is_unsupported() {
    assert!(!multiqueue_supported(b"abc"));
}

#[test]
fn empty_version_is_unsupported() {
    assert!(!multiqueue_supported(b""));
}

#[test]
fn version_without_minor_is_unsupported() {
    assert!(!multiqueue_supported(b"3"));
    assert!(!multiqueue_supported(b"3."));
}

#[test]
fn full_release_strings_parse() {
    assert!(multiqueue_supported(b"3.8.0-generic"));
    assert!(multiqueue_supported(b"5.15.0-119-generic"));
    assert!(!multiqueue_supported(b"2.6.32-754.el6.x86_64"));
}

#[test]
fn two_digit_major_is_supported() {
    assert!(multiqueue_supported(b"10.0"));
}

#[test]
fn non_numeric_minor_is_unsupported() {
    assert!(!multiqueue_supported(b"3.x"));
    assert!(!multiqueue_supported(b"3.8rc1"));
}

#[test]
fn leading_zeroes_still_parse() {
    assert!(multiqueue_supported(b"03.08"));
    assert!(!multiqueue_supported(b"03.07"));
}

#[test]
fn oversized_component_is_unsupported() {
    assert!(!multiqueue_supported(b"99999999999999999999999999.1"));
    assert!(!multiqueue_supported(b"4.99999999999999999999999999"));
}

#[test]
fn boundary_versions() {
    assert!(!multiqueue_supported(b"3.0"));
    assert!(multiqueue_supported(b"3.9"));
    assert!(multiqueue_supported(b"4.7"));
    assert!(!multiqueue_supported(b"2.8"));
}
