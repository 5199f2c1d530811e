//! The protocol version and its negotiation.
use vstd::prelude::*;
use vstd::std_specs::cmp::PartialOrdSpec;

verus! {

/// Protocol version identifier, bumped only for breaking changes.
#[derive(Clone, Copy, Debug, PartialEq, Eq, Structural, Ord, Hash)]
pub struct ProtocolVersion(u16);

impl View for ProtocolVersion {
    type V = u16;

    closed spec fn view(&self) -> u16 {
        self.0
    }
}

/// The latest version that this library supports.
pub open spec fn latest_version() -> u16 {
    1
}

/// Why a version read from the wire was refused.
#[derive(Clone, Copy, Debug, PartialEq, Eq, Structural)]
pub enum VersionError {
    /// The number does not fit a version.
    TooLarge(u64),
}

impl ProtocolVersion {
    /// The version with the given number.
    pub fn new(version: u16) -> (r: ProtocolVersion)
        ensures
            r@ == version,
    {
        ProtocolVersion(version)
    }

    /// The number of the version.
    pub fn number(&self) -> (r: u16)
        ensures
            r == self@,
    {
        self.0
    }

    /// Version 0, the pre-release version, which every unparsable version
    /// stands for.
    pub fn v0() -> (r: ProtocolVersion)
        ensures
            r@ == 0,
    {
        ProtocolVersion(0)
    }

    /// Version 1.
    pub fn v1() -> (r: ProtocolVersion)
        ensures
            r@ == 1,
    {
        ProtocolVersion(1)
    }

    /// The latest supported version.
    pub fn latest() -> (r: ProtocolVersion)
        ensures
            r@ == latest_version(),
    {
        ProtocolVersion(1)
    }

    /// The version that an integer on the wire stands for; refused when it
    /// does not fit 16 bits.
    pub fn from_number(value: u64) -> (r: Result<ProtocolVersion, VersionError>)
        ensures
            value <= u16::MAX ==> (r matches Ok(v) && v@ == value as u16),
            value > u16::MAX ==> r == Err::<ProtocolVersion, VersionError>(VersionError::TooLarge(value)),
    {
        if value <= 65535 {
            Ok(ProtocolVersion(value as u16))
        } else {
            Err(VersionError::TooLarge(value))
        }
    }

    /// The version that a string on the wire stands for: strings are what
    /// earlier versions used, and all of them stand for version 0.
    pub fn from_legacy_string(_value: &str) -> (r: ProtocolVersion)
        ensures
            r@ == 0,
    {
        ProtocolVersion(0)
    }

    /// The version that a responder echoes to a peer that asked for
    /// `requested`: the highest that both support.
    pub fn negotiate(requested: ProtocolVersion) -> (r: ProtocolVersion)
        ensures
            r@ == if requested@ <= latest_version() {
                requested@
            } else {
                latest_version()
            },
    {
        if requested.0 <= 1 {
            requested
        } else {
            ProtocolVersion::latest()
        }
    }
}

/// How two version numbers compare.
pub open spec fn compare_numbers(a: u16, b: u16) -> std::cmp::Ordering {
    if a < b {
        std::cmp::Ordering::Less
    } else if a == b {
        std::cmp::Ordering::Equal
    } else {
        std::cmp::Ordering::Greater
    }
}

impl PartialOrd for ProtocolVersion {
    fn partial_cmp(&self, other: &ProtocolVersion) -> (r: Option<std::cmp::Ordering>) {
        if self.0 < other.0 {
            Some(std::cmp::Ordering::Less)
        } else if self.0 == other.0 {
            Some(std::cmp::Ordering::Equal)
        } else {
            Some(std::cmp::Ordering::Greater)
        }
    }
}

impl vstd::std_specs::cmp::PartialOrdSpecImpl for ProtocolVersion {
    open spec fn obeys_partial_cmp_spec() -> bool {
        true
    }

    open spec fn partial_cmp_spec(&self, other: &ProtocolVersion) -> Option<std::cmp::Ordering> {
        Some(compare_numbers(self@, other@))
    }
}

/// Versions are ordered by their numbers.
pub proof fn law_versions_ordered_by_number(a: ProtocolVersion, b: ProtocolVersion)
    ensures
        a.partial_cmp_spec(&b) == Some(std::cmp::Ordering::Less) <==> a@ < b@,
        a.partial_cmp_spec(&b) == Some(std::cmp::Ordering::Equal) <==> a@ == b@,
        a.partial_cmp_spec(&b) == Some(std::cmp::Ordering::Greater) <==> a@ > b@,
{
}

} // verus!
