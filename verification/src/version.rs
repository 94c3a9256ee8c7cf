//! API version numbers. The runtime reports the range of graphics API
//! versions it supports as packed version numbers; the application must
//! fail fast when its target version falls outside that range.

use vstd::prelude::*;

verus! {

/// A runtime API version, packed for comparison as major, then minor, then
/// patch.
#[derive(Clone, Copy, PartialEq, Eq, Structural, Debug)]
pub struct XrVersion {
    pub major: u16,
    pub minor: u16,
    pub patch: u32,
}

impl XrVersion {
    /// The packed 64-bit form the runtime reports: major in the top 16
    /// bits, minor in the next 16, patch in the low 32.
    pub open spec fn packed(self) -> int {
        self.major * 0x1_0000_0000_0000 + self.minor * 0x1_0000_0000 + self.patch
    }
}

/// Compares two versions as their packed forms: lexicographically by major,
/// minor, patch.
pub fn version_le(a: XrVersion, b: XrVersion) -> (r: bool)
    ensures
        r == (a.packed() <= b.packed()),
{
    if a.major != b.major {
        a.major < b.major
    } else if a.minor != b.minor {
        a.minor < b.minor
    } else {
        a.patch <= b.patch
    }
}

/// Whether the target graphics API version may be used against a runtime
/// that supports the given range: no older than the minimum supported
/// version, and no newer major version than the maximum supported one.
pub fn version_in_supported_range(
    target: XrVersion,
    min_supported: XrVersion,
    max_supported: XrVersion,
) -> (ok: bool)
    ensures
        ok == (min_supported.packed() <= target.packed() && target.major <= max_supported.major),
{
    let at_least_min = version_le(min_supported, target);
    at_least_min && target.major <= max_supported.major
}

/// The graphics API's packed 32-bit version number: major in bits 22 to 28,
/// minor in bits 12 to 21, patch in the low 12 bits.
pub fn graphics_api_version(major: u32, minor: u32, patch: u32) -> (v: u32)
    requires
        major < 0x80,
        minor < 0x400,
        patch < 0x1000,
    ensures
        v == major * 0x40_0000 + minor * 0x1000 + patch,
{
    major * 0x40_0000 + minor * 0x1000 + patch
}

/// Whether a device's reported packed graphics API version reaches the
/// packed target version.
pub fn device_version_reaches(api_version: u32, target: u32) -> (r: bool)
    ensures
        r == (api_version >= target),
{
    api_version >= target
}

} // verus!
