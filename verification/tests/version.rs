use indite::version::{
    device_version_reaches, graphics_api_version, version_in_supported_range, version_le,
    XrVersion,
};

#[test]
fn versions_compare_lexicographically() {
    let v1_2_0 = XrVersion { major: 1, minor: 2, patch: 0 };
    let v1_0_34 = XrVersion { major: 1, minor: 0, patch: 34 };
    let v0_9_9 = XrVersion { major: 0, minor: 9, patch: 9 };
    assert!(version_le(v1_0_34, v1_2_0));
    assert!(!version_le(v1_2_0, v1_0_34));
    assert!(version_le(v0_9_9, v1_0_34));
    assert!(version_le(v1_2_0, v1_2_0));
    assert!(version_le(
        XrVersion { major: 1, minor: 2, patch: 3 },
        XrVersion { major: 1, minor: 2, patch: 4 }
    ));
}

#[test]
fn target_inside_supported_range_is_accepted() {
    let target = XrVersion { major: 1, minor: 2, patch: 0 };
    let min = XrVersion { major: 1, minor: 0, patch: 0 };
    let max = XrVersion { major: 1, minor: 1, patch: 40 };
    assert!(version_in_supported_range(target, min, max));
}

#[test]
fn target_below_minimum_is_rejected() {
    let target = XrVersion { major: 1, minor: 2, patch: 0 };
    let min = XrVersion { major: 1, minor: 3, patch: 0 };
    let max = XrVersion { major: 2, minor: 0, patch: 0 };
    assert!(!version_in_supported_range(target, min, max));
}

#[test]
fn target_with_newer_major_than_maximum_is_rejected() {
    let target = XrVersion { major: 2, minor: 0, patch: 0 };
    let min = XrVersion { major: 1, minor: 0, patch: 0 };
    let max = XrVersion { major: 1, minor: 9, patch: 0 };
    assert!(!version_in_supported_range(target, min, max));
}

#[test]
fn packed_graphics_version_has_the_fixed_layout() {
    assert_eq!(graphics_api_version(1, 2, 0), 0x0040_2000);
    assert_eq!(graphics_api_version(1, 0, 0), 0x0040_0000);
    assert_eq!(graphics_api_version(1, 3, 281), 0x0040_3119);
}

#[test]
fn device_version_check_is_inclusive() {
    let target = graphics_api_version(1, 2, 0);
    assert!(device_version_reaches(target, target));
    assert!(device_version_reaches(graphics_api_version(1, 3, 0), target));
    assert!(!device_version_reaches(graphics_api_version(1, 1, 0), target));
}
