//! Policy and page-type value encodings, and the request objects a caller
//! fills in before driving the launch protocol.

use vstd::prelude::*;
use crate::Version;

verus! {

/// Policy flag: SMT is enabled in the host machine.
pub const FLAG_SMT: u16 = 0b0001;

/// Policy flag: reserved; always forced set in the wire encoding, never
/// controlled by the caller.
pub const FLAG_RESERVED: u16 = 0b0010;

/// Policy flag: association with a migration agent is allowed.
pub const FLAG_MIGRATE_MA: u16 = 0b0100;

/// Policy flag: debugging is allowed.
pub const FLAG_DEBUG: u16 = 0b1000;

/// Configurable SNP policy options, a set of `FLAG_*` bits.
#[derive(Clone, Copy, Debug, PartialEq, Eq, Structural)]
pub struct PolicyFlags {
    /// The raw flag bits.
    pub bits: u16,
}

/// The wire encoding of a flag set: only the SMT, MigrateMA and Debug bits
/// of the input participate, and the Reserved bit is forced set.
pub open spec fn spec_flags_value(bits: u16) -> u16 {
    (bits & (FLAG_SMT | FLAG_MIGRATE_MA | FLAG_DEBUG)) | FLAG_RESERVED
}

impl PolicyFlags {
    /// Builds a flag set from raw bits.
    pub fn new(bits: u16) -> (r: PolicyFlags)
        ensures
            r.bits == bits,
    {
        PolicyFlags { bits }
    }

    /// Whether every bit of `flag` is set in this flag set.
    pub fn contains(&self, flag: u16) -> (r: bool)
        ensures
            r == (self.bits & flag == flag),
    {
        self.bits & flag == flag
    }

    /// Encodes the flag set to its wire value: the SMT, MigrateMA and Debug
    /// bits are carried over and the Reserved bit is always set, whatever the
    /// caller asked for.
    pub fn to_u16(&self) -> (r: u16)
        ensures
            r == spec_flags_value(self.bits),
    {
        let bits: u16 = self.bits;

        let smt: u16 = if self.contains(FLAG_SMT) {
            FLAG_SMT
        } else {
            0
        };
        let migrate_ma: u16 = if self.contains(FLAG_MIGRATE_MA) {
            FLAG_MIGRATE_MA
        } else {
            0
        };
        let debug: u16 = if self.contains(FLAG_DEBUG) {
            FLAG_DEBUG
        } else {
            0
        };

        let val: u16 = smt | migrate_ma | debug | FLAG_RESERVED;

        proof {
            assert(val == spec_flags_value(bits)) by (bit_vector)
                requires
                    smt == (if bits & FLAG_SMT == FLAG_SMT {
                        FLAG_SMT
                    } else {
                        0u16
                    }),
                    migrate_ma == (if bits & FLAG_MIGRATE_MA == FLAG_MIGRATE_MA {
                        FLAG_MIGRATE_MA
                    } else {
                        0u16
                    }),
                    debug == (if bits & FLAG_DEBUG == FLAG_DEBUG {
                        FLAG_DEBUG
                    } else {
                        0u16
                    }),
                    val == smt | migrate_ma | debug | FLAG_RESERVED,
            ;
        }

        val
    }
}

/// The Reserved bit is set in every encoded flag set, whatever the input.
pub proof fn lemma_flags_value_reserved_set(bits: u16)
    by (bit_vector)
    ensures
        spec_flags_value(bits) & FLAG_RESERVED == FLAG_RESERVED,
{
}

/// An encoded flag set fits in the four flag bit positions.
pub proof fn lemma_flags_value_bounded(bits: u16)
    by (bit_vector)
    ensures
        spec_flags_value(bits) <= 0xF,
{
}

/// A guest security policy that the secure co-processor will enforce.
#[derive(Clone, Copy, Debug, PartialEq, Eq, Structural)]
pub struct Policy {
    /// The policy options, encoded as bit flags.
    pub flags: PolicyFlags,

    /// The desired minimum platform firmware version.
    pub minfw: Version,
}

/// The 24-bit wire encoding of a policy: minor version in bits 0..8, major
/// version in bits 8..16, encoded flag set in bits 16..20.
pub open spec fn spec_policy_value(p: Policy) -> u64 {
    (p.minfw.minor as u64) | ((p.minfw.major as u64) << 8u64) | ((spec_flags_value(
        p.flags.bits,
    ) as u64) << 16u64)
}

impl Policy {
    /// Encodes the policy to its 24-bit wire value.
    pub fn to_u64(&self) -> (r: u64)
        ensures
            r == spec_policy_value(*self),
    {
        let minor_version: u64 = self.minfw.minor as u64;
        let major_version: u64 = (self.minfw.major as u64) << 8u64;
        let flags: u16 = self.flags.to_u16();
        let flags_64: u64 = (flags as u64) << 16u64;

        let val: u64 = (minor_version | major_version | flags_64) & 0x00FF_FFFF;

        proof {
            let mi = self.minfw.minor;
            let ma = self.minfw.major;
            let fb = self.flags.bits;
            assert(val == (mi as u64) | ((ma as u64) << 8u64) | ((spec_flags_value(fb) as u64)
                << 16u64)) by (bit_vector)
                requires
                    flags == spec_flags_value(fb),
                    val == ((mi as u64) | ((ma as u64) << 8u64) | ((flags as u64) << 16u64))
                        & 0x00FF_FFFFu64,
            ;
        }

        val
    }
}

/// The Reserved flag bit stands at the same position in every encoded
/// policy and is always set, whatever flags the caller supplied.
pub proof fn lemma_policy_value_reserved_set(p: Policy)
    ensures
        spec_policy_value(p) & ((FLAG_RESERVED as u64) << 16u64) == ((FLAG_RESERVED as u64)
            << 16u64),
{
    let mi = p.minfw.minor;
    let ma = p.minfw.major;
    let fb = p.flags.bits;
    assert((((mi as u64) | ((ma as u64) << 8u64) | ((spec_flags_value(fb) as u64) << 16u64)) & ((
    FLAG_RESERVED as u64) << 16u64)) == ((FLAG_RESERVED as u64) << 16u64)) by (bit_vector);
}

/// An encoded policy fits in its 24 wire bits, whatever the input.
pub proof fn lemma_policy_value_fits(p: Policy)
    ensures
        spec_policy_value(p) < 0x0100_0000,
{
    let mi = p.minfw.minor;
    let ma = p.minfw.major;
    let fb = p.flags.bits;
    assert(((mi as u64) | ((ma as u64) << 8u64) | ((spec_flags_value(fb) as u64) << 16u64))
        < 0x0100_0000u64) by (bit_vector);
}

/// The data a caller supplies to begin the launch of a guest.
#[derive(Clone, Copy, Debug)]
pub struct Start {
    /// The policy that the secure co-processor will enforce.
    pub policy: Policy,

    /// Bits 63:12 of the sPA of the guest context of the migration agent.
    /// Ignored if `ma_en` is 0.
    pub ma_uaddr: u64,

    /// 1 if this guest is associated with a migration agent. Otherwise 0.
    pub ma_en: u8,

    /// Indicates that this launch flow is launching an IMI for the purpose
    /// of guest-assisted migration.
    pub imi_en: u8,

    /// Hypervisor-provided value to indicate guest OS visible workarounds.
    /// The format is hypervisor defined.
    pub gosvw: [u8; 16],
}

/// The data a caller supplies for one page-injection call.
#[derive(Clone, Copy, Debug, PartialEq, Eq, Structural)]
pub struct Update {
    /// Indicates that this page is part of the IMI of the guest.
    pub imi_page: u8,

    /// The classification of the injected page.
    pub page_type: PageType,

    /// VMPL3 permission mask.
    pub vmpl3_perms: u8,

    /// VMPL2 permission mask.
    pub vmpl2_perms: u8,

    /// VMPL1 permission mask.
    pub vmpl1_perms: u8,
}

/// The data a caller supplies to complete the launch of a guest.
#[derive(Clone, Copy, Debug)]
pub struct Finish {
    /// sPA of the ID block. Ignored if `id_block_en` is 0.
    pub id_block_uaddr: u64,

    /// sPA of the authentication information of the ID block. Ignored if
    /// `id_block_en` is 0.
    pub id_auth_uaddr: u64,

    /// Indicates that the ID block is present.
    pub id_block_en: u8,

    /// Indicates that the author key is present in the ID authentication
    /// information structure. Ignored if `id_block_en` is 0.
    pub auth_key_en: u8,

    /// Opaque host-supplied data to describe the guest. The firmware does
    /// not interpret this value.
    pub host_data: [u8; 32],
}

/// Page classifications for a launch update.
#[derive(Clone, Copy, Debug, PartialEq, Eq, Structural)]
pub enum PageType {
    /// A normal data page.
    Normal,

    /// A VMSA page.
    Vmsa,

    /// A page full of zeroes.
    Zero,

    /// A page that is encrypted but not measured.
    Unmeasured,

    /// A page for the firmware to store secrets for the guest.
    Secrets,

    /// A page for the hypervisor to provide CPUID function values.
    Cpuid,
}

/// The wire-level numeric code of a page classification.
pub open spec fn spec_page_type_value(t: PageType) -> u8 {
    match t {
        PageType::Normal => 0x1,
        PageType::Vmsa => 0x2,
        PageType::Zero => 0x3,
        PageType::Unmeasured => 0x4,
        PageType::Secrets => 0x5,
        PageType::Cpuid => 0x6,
    }
}

impl PageType {
    /// Encodes the page classification to its wire value.
    pub fn value(self) -> (r: u8)
        ensures
            r == spec_page_type_value(self),
    {
        match self {
            PageType::Normal => 0x1,
            PageType::Vmsa => 0x2,
            PageType::Zero => 0x3,
            PageType::Unmeasured => 0x4,
            PageType::Secrets => 0x5,
            PageType::Cpuid => 0x6,
        }
    }
}

/// Every page classification encodes into the range 1..=6.
proof fn lemma_page_type_value_in_range(k: PageType)
    ensures
        1 <= spec_page_type_value(k) <= 6,
{
    match k {
        PageType::Normal => {},
        PageType::Vmsa => {},
        PageType::Zero => {},
        PageType::Unmeasured => {},
        PageType::Secrets => {},
        PageType::Cpuid => {},
    }
}

/// A page classification is determined by its wire value.
proof fn lemma_page_type_value_determines(k: PageType)
    ensures
        spec_page_type_value(k) == 1 ==> k == PageType::Normal,
        spec_page_type_value(k) == 2 ==> k == PageType::Vmsa,
        spec_page_type_value(k) == 3 ==> k == PageType::Zero,
        spec_page_type_value(k) == 4 ==> k == PageType::Unmeasured,
        spec_page_type_value(k) == 5 ==> k == PageType::Secrets,
        spec_page_type_value(k) == 6 ==> k == PageType::Cpuid,
{
    match k {
        PageType::Normal => {},
        PageType::Vmsa => {},
        PageType::Zero => {},
        PageType::Unmeasured => {},
        PageType::Secrets => {},
        PageType::Cpuid => {},
    }
}

/// The page-type encoding is a total bijection onto the wire values 1..=6:
/// every classification has a code in that range, no two classifications
/// share a code, and every code in the range belongs to a classification.
pub proof fn lemma_page_type_value_bijective()
    ensures
        forall|k: PageType| 1 <= #[trigger] spec_page_type_value(k) <= 6,
        forall|a: PageType, b: PageType|
            spec_page_type_value(a) == spec_page_type_value(b) ==> a == b,
        exists|k: PageType| #[trigger] spec_page_type_value(k) == 1,
        exists|k: PageType| #[trigger] spec_page_type_value(k) == 2,
        exists|k: PageType| #[trigger] spec_page_type_value(k) == 3,
        exists|k: PageType| #[trigger] spec_page_type_value(k) == 4,
        exists|k: PageType| #[trigger] spec_page_type_value(k) == 5,
        exists|k: PageType| #[trigger] spec_page_type_value(k) == 6,
{
    assert forall|k: PageType| 1 <= #[trigger] spec_page_type_value(k) <= 6 by {
        lemma_page_type_value_in_range(k);
    }
    assert forall|a: PageType, b: PageType|
        spec_page_type_value(a) == spec_page_type_value(b) implies a == b by {
        lemma_page_type_value_in_range(a);
        lemma_page_type_value_determines(a);
        lemma_page_type_value_determines(b);
    }
    assert(spec_page_type_value(PageType::Normal) == 1);
    assert(spec_page_type_value(PageType::Vmsa) == 2);
    assert(spec_page_type_value(PageType::Zero) == 3);
    assert(spec_page_type_value(PageType::Unmeasured) == 4);
    assert(spec_page_type_value(PageType::Secrets) == 5);
    assert(spec_page_type_value(PageType::Cpuid) == 6);
}

} // verus!
