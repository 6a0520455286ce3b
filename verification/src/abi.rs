//! ABI versioning and compatibility checking for cross-contract calls.
//!
//! Versions are `(major, minor)` pairs packed as `major * 1000 + minor`.
//! The same major with a high enough minor is a backward-compatible upgrade;
//! a different major is a breaking change.
use vstd::prelude::*;

verus! {

/// Packed ABI versions (`major * 1000 + minor`) of each contract family.
pub const CLAIMS_V1: u32 = 1_000;
pub const POLICY_V1: u32 = 1_000;
pub const RISK_POOL_V1: u32 = 1_000;
pub const RISK_POOL_V2: u32 = 1_001;
pub const GOVERNANCE_V1: u32 = 1_000;
pub const SLASHING_V1: u32 = 1_000;
pub const ESCROW_V1: u32 = 1_000;
pub const ESCROW_V2: u32 = 1_001;
pub const ZK_COMPLIANCE_V1: u32 = 1_000;
pub const PROPERTY_TOKEN_V1: u32 = 1_000;
pub const INSURANCE_V1: u32 = 1_000;

/// Instance-storage keys for the ABI version registry.
#[derive(Clone, Copy, Debug, PartialEq, Eq)]
pub enum AbiStorageKey {
    AbiVersionMin,
    AbiVersionCurrent,
}

/// The packed `required` version is served by the packed range
/// `[min, cur]`: same major as `cur` and inside the range.
pub open spec fn packed_compatible(min: u32, cur: u32, required: u32) -> bool {
    required / 1000 == cur / 1000 && min <= required && required <= cur
}

/// Check whether a packed `required` version is compatible with a
/// `(min, cur)` range.
pub fn is_compatible(min: u32, cur: u32, required: u32) -> (r: bool)
    ensures
        r == packed_compatible(min, cur, required),
{
    let req_major = required / 1_000;
    let cur_major = cur / 1_000;
    req_major == cur_major && required >= min && required <= cur
}

/// A packed `(major, minor)` ABI version.
#[derive(Debug, Clone, Copy, PartialEq, Eq, PartialOrd, Ord)]
pub struct AbiVersion {
    pub major: u16,
    pub minor: u16,
}

impl AbiVersion {
    /// The packed wire value `major * 1000 + minor`.
    pub open spec fn packed(self) -> int {
        self.major * 1000 + self.minor
    }

    /// Construct a new version.
    pub fn new(major: u16, minor: u16) -> (v: Self)
        ensures
            v.major == major,
            v.minor == minor,
    {
        Self { major, minor }
    }

    /// Pack into the 32-bit wire format used for storage.
    pub fn to_u32(self) -> (r: u32)
        ensures
            r == self.packed(),
    {
        self.major as u32 * 1_000 + self.minor as u32
    }

    /// The version a packed value decodes to.
    pub open spec fn from_u32_spec(v: u32) -> AbiVersion {
        AbiVersion { major: #[verifier::truncate] ((v / 1000) as u16), minor: (v % 1000) as u16 }
    }

    /// Unpack from the 32-bit wire format (the major part is truncated to
    /// 16 bits).
    pub fn from_u32(v: u32) -> (r: Self)
        ensures
            r.major == #[verifier::truncate] ((v / 1000) as u16),
            r.minor == v % 1000,
            r == Self::from_u32_spec(v),
    {
        Self { major: #[verifier::truncate] ((v / 1_000) as u16), minor: (v % 1_000) as u16 }
    }

    /// `self` is compatible with `required` when it shares the same major
    /// number and its minor number is at least the required one.
    pub fn is_compatible_with(self, required: AbiVersion) -> (r: bool)
        ensures
            r == (self.major == required.major && self.minor >= required.minor),
    {
        self.major == required.major && self.minor >= required.minor
    }
}

/// A version range `[min, current]` advertised by a contract.
#[derive(Debug, Clone, Copy, PartialEq, Eq)]
pub struct AbiCompatibility {
    /// Oldest version still served by this contract.
    pub min_version: AbiVersion,
    /// Current (newest) version.
    pub current_version: AbiVersion,
}

/// The range `[min, current]` serves `requested`: same major as the
/// current version, minor between the two minors.
pub open spec fn range_supports(min: AbiVersion, current: AbiVersion, requested: AbiVersion) -> bool {
    current.major == requested.major && requested.minor >= min.minor && requested.minor
        <= current.minor
}

impl AbiCompatibility {
    pub fn new(min_version: AbiVersion, current_version: AbiVersion) -> (c: Self)
        ensures
            c.min_version == min_version,
            c.current_version == current_version,
    {
        Self { min_version, current_version }
    }

    /// Returns `true` when the contract can serve `requested`.
    pub fn supports(&self, requested: AbiVersion) -> (r: bool)
        ensures
            r == range_supports(self.min_version, self.current_version, requested),
    {
        self.current_version.major == requested.major && requested.minor >= self.min_version.minor
            && requested.minor <= self.current_version.minor
    }
}

/// Storage item holding a contract's ABI range.
#[derive(Debug, Clone, Copy)]
pub struct AbiRegistry {
    pub min_version: AbiVersion,
    pub current_version: AbiVersion,
}

impl AbiRegistry {
    /// Initialise a registry with a single supported version (min == current).
    pub fn init(version: AbiVersion) -> (r: Self)
        ensures
            r.min_version == version,
            r.current_version == version,
    {
        Self { min_version: version, current_version: version }
    }

    /// Initialise with an explicit min/current range.
    pub fn init_range(min: AbiVersion, current: AbiVersion) -> (r: Self)
        ensures
            r.min_version == min,
            r.current_version == current,
    {
        Self { min_version: min, current_version: current }
    }

    /// The compatibility descriptor for this registry.
    pub fn compatibility(&self) -> (c: AbiCompatibility)
        ensures
            c.min_version == self.min_version,
            c.current_version == self.current_version,
    {
        AbiCompatibility { min_version: self.min_version, current_version: self.current_version }
    }

    /// `(min_packed, current_packed)` for the `get_supported_abis` query.
    pub fn as_tuple(&self) -> (r: (u32, u32))
        ensures
            r.0 == self.min_version.packed(),
            r.1 == self.current_version.packed(),
    {
        (self.min_version.to_u32(), self.current_version.to_u32())
    }

    /// Returns `true` when `requested` falls within the supported range.
    pub fn supports(&self, requested: AbiVersion) -> (r: bool)
        ensures
            r == range_supports(self.min_version, self.current_version, requested),
    {
        self.compatibility().supports(requested)
    }
}

/// The packed `(min, current)` pair a contract stores for its ABI range.
pub fn init_abi(min: AbiVersion, current: AbiVersion) -> (r: (u32, u32))
    ensures
        r.0 == min.packed(),
        r.1 == current.packed(),
{
    (min.to_u32(), current.to_u32())
}

/// The stored ABI range, when both halves are stored.
pub fn read_abi(min_raw: Option<u32>, cur_raw: Option<u32>) -> (r: Option<AbiCompatibility>)
    ensures
        match (min_raw, cur_raw) {
            (Some(m), Some(c)) => r matches Some(compat) && compat.min_version.major == #[verifier::truncate] ((m / 1000) as u16)
                && compat.min_version.minor == m % 1000 && compat.current_version.major
                == #[verifier::truncate] ((c / 1000) as u16) && compat.current_version.minor == c % 1000,
            _ => r is None,
        },
{
    match (min_raw, cur_raw) {
        (Some(m), Some(c)) => Some(
            AbiCompatibility { min_version: AbiVersion::from_u32(m), current_version: AbiVersion::from_u32(c) },
        ),
        _ => None,
    }
}

/// The contract's own packed range, 0 for a half that is not stored.
pub fn read_own_abi(min_raw: Option<u32>, cur_raw: Option<u32>) -> (r: (u32, u32))
    ensures
        r.0 == match min_raw {
            Some(m) => m,
            None => 0u32,
        },
        r.1 == match cur_raw {
            Some(c) => c,
            None => 0u32,
        },
{
    let min = match min_raw {
        Some(m) => m,
        None => 0,
    };
    let cur = match cur_raw {
        Some(c) => c,
        None => 0,
    };
    (min, cur)
}

/// Whether a target that reports the packed range `(min_raw, cur_raw)`
/// serves `required`; a caller aborts the cross-contract call otherwise.
pub fn check_abi_compatibility(min_raw: u32, cur_raw: u32, required: AbiVersion) -> (r: bool)
    ensures
        r == range_supports(
            AbiVersion::from_u32_spec(min_raw),
            AbiVersion::from_u32_spec(cur_raw),
            required,
        ),
{
    let compat = AbiCompatibility {
        min_version: AbiVersion::from_u32(min_raw),
        current_version: AbiVersion::from_u32(cur_raw),
    };
    compat.supports(required)
}

/// Whether a target that reports the packed range `(min, cur)` serves the
/// packed version `required`.
pub fn check_abi(min: u32, cur: u32, required: u32) -> (r: bool)
    ensures
        r == packed_compatible(min, cur, required),
{
    is_compatible(min, cur, required)
}

/// Implemented by every contract that participates in ABI versioning.
pub trait AbiVersioned {
    /// Return `(min_packed, current_packed)`.
    fn get_supported_abis(&self) -> (u32, u32);
}

/// Packing then unpacking gives the version back whenever the minor number
/// is in its documented range `0..1000`.
pub proof fn law_version_round_trip(v: AbiVersion)
    requires
        v.minor < 1000,
    ensures
        (v.packed() / 1000) == v.major,
        v.packed() % 1000 == v.minor,
{
    assert(v.packed() == v.major * 1000 + v.minor);
}

/// The packed check `is_compatible` agrees with the structured check
/// `AbiCompatibility::supports` on the same versions, for ranges within one
/// major version and minors in their documented range.
pub proof fn law_packed_and_structured_checks_agree(
    min: AbiVersion,
    current: AbiVersion,
    requested: AbiVersion,
)
    requires
        min.minor < 1000,
        current.minor < 1000,
        requested.minor < 1000,
        min.major == current.major,
    ensures
        packed_compatible(min.packed() as u32, current.packed() as u32, requested.packed() as u32)
            == range_supports(min, current, requested),
{
    law_version_round_trip(min);
    law_version_round_trip(current);
    law_version_round_trip(requested);
}

} // verus!
