//! Fixed-layout sub-command encoders: byte-exact projections of the request
//! objects, plus the raw addresses and lengths they reference, in the field
//! order the external binary contract fixes.
//!
//! Raw memory addresses cross this boundary as plain integers. Capturing the
//! address of a live buffer, and keeping it valid until the privileged
//! submission returns, is the caller's side of the contract.

use vstd::prelude::*;
use crate::launch::{Finish, Start, Update, spec_page_type_value, spec_policy_value};

verus! {

/// Number of bytes in the opaque host-data blob of a finish request.
pub const KVM_SEV_SNP_FINISH_DATA_SIZE: usize = 32;

/// Initialize the SEV-SNP platform.
#[derive(Clone, Copy, Debug)]
pub struct Init {
    /// Reserved space, must always be set to 0 when submitted.
    pub flags: u64,
}

/// Initialize the flow to launch a guest.
#[derive(Clone, Copy, Debug)]
pub struct LaunchStart {
    /// The guest policy, in its 24-bit wire encoding.
    pub policy: u64,

    /// Bits 63:12 of the sPA of the guest context of the migration agent.
    /// Ignored if `ma_en` is 0.
    pub ma_uaddr: u64,

    /// 1 if this guest is associated with a migration agent. Otherwise 0.
    pub ma_en: u8,

    /// Indicates that this launch flow is launching an IMI for the purpose
    /// of guest-assisted migration.
    pub imi_en: u8,

    /// Hypervisor-provided value to indicate guest OS visible workarounds.
    /// The format is hypervisor defined.
    pub gosvw: [u8; 16],
}

/// The launch-start encoding as a projection of the caller's request: the
/// policy passes through its wire encoding and every other field is carried
/// over unchanged.
pub open spec fn spec_launch_start(start: Start) -> LaunchStart {
    LaunchStart {
        policy: spec_policy_value(start.policy),
        ma_uaddr: start.ma_uaddr,
        ma_en: start.ma_en,
        imi_en: start.imi_en,
        gosvw: start.gosvw,
    }
}

impl LaunchStart {
    /// Encodes a start request into its fixed wire layout.
    pub fn new(start: &Start) -> (r: Self)
        ensures
            r == spec_launch_start(*start),
    {
        Self {
            policy: start.policy.to_u64(),
            ma_uaddr: start.ma_uaddr,
            ma_en: start.ma_en,
            imi_en: start.imi_en,
            gosvw: start.gosvw,
        }
    }
}

/// Insert pages into the guest physical address space.
#[derive(Clone, Copy, Debug, PartialEq, Eq, Structural)]
pub struct LaunchUpdate {
    /// The address of the caller's data buffer.
    pub uaddr: u64,

    /// The length in bytes of the caller's data buffer.
    pub len: u32,

    /// Indicates that this page is part of the IMI of the guest.
    pub imi_page: u8,

    /// The encoded page type.
    pub page_type: u8,

    /// VMPL permission mask for VMPL3; transmitted before the lower levels.
    pub vmpl3_perms: u8,

    /// VMPL permission mask for VMPL2.
    pub vmpl2_perms: u8,

    /// VMPL permission mask for VMPL1.
    pub vmpl1_perms: u8,
}

/// The launch-update encoding: the address and length of exactly the buffer
/// handed to the call, the page type through its wire code, and the
/// remaining fields of the request carried over unchanged.
pub open spec fn spec_launch_update(data_addr: u64, data_len: u32, update: Update) -> LaunchUpdate {
    LaunchUpdate {
        uaddr: data_addr,
        len: data_len,
        imi_page: update.imi_page,
        page_type: spec_page_type_value(update.page_type),
        vmpl3_perms: update.vmpl3_perms,
        vmpl2_perms: update.vmpl2_perms,
        vmpl1_perms: update.vmpl1_perms,
    }
}

impl LaunchUpdate {
    /// Encodes an update request into its fixed wire layout. The buffer is
    /// referenced by address and length, never copied; a zero-length buffer
    /// encodes a length of 0 with whatever address it has.
    pub fn new(data_addr: u64, data_len: u32, update: &Update) -> (r: Self)
        ensures
            r == spec_launch_update(data_addr, data_len, *update),
    {
        Self {
            uaddr: data_addr,
            len: data_len,
            imi_page: update.imi_page,
            page_type: update.page_type.value(),
            vmpl3_perms: update.vmpl3_perms,
            vmpl2_perms: update.vmpl2_perms,
            vmpl1_perms: update.vmpl1_perms,
        }
    }
}

/// Distinct buffers give distinct page-injection encodings: each encoded
/// update carries the address and length of its own buffer, so no two calls
/// on different buffers alias one another's memory.
pub proof fn lemma_update_encodings_independent(
    addr1: u64,
    len1: u32,
    update1: Update,
    addr2: u64,
    len2: u32,
    update2: Update,
)
    requires
        addr1 != addr2 || len1 != len2,
    ensures
        spec_launch_update(addr1, len1, update1) != spec_launch_update(addr2, len2, update2),
        spec_launch_update(addr1, len1, update1).uaddr == addr1,
        spec_launch_update(addr1, len1, update1).len == len1,
{
}

/// Complete the guest launch flow.
#[derive(Clone, Copy, Debug)]
pub struct LaunchFinish {
    /// sPA of the ID block. Ignored if `id_block_en` is 0.
    pub id_block_uaddr: u64,

    /// sPA of the authentication information of the ID block. Ignored if
    /// `id_block_en` is 0.
    pub id_auth_uaddr: u64,

    /// Indicates that the ID block is present.
    pub id_block_en: u8,

    /// Indicates that the author key is present in the ID authentication
    /// information structure. Ignored if `id_block_en` is 0.
    pub auth_key_en: u8,

    /// Opaque host-supplied data to describe the guest. The firmware does
    /// not interpret this value.
    pub host_data: [u8; KVM_SEV_SNP_FINISH_DATA_SIZE],
}

/// The launch-finish encoding: every field of the request carried over
/// unchanged into the fixed wire layout.
pub open spec fn spec_launch_finish(finish: Finish) -> LaunchFinish {
    LaunchFinish {
        id_block_uaddr: finish.id_block_uaddr,
        id_auth_uaddr: finish.id_auth_uaddr,
        id_block_en: finish.id_block_en,
        auth_key_en: finish.auth_key_en,
        host_data: finish.host_data,
    }
}

impl LaunchFinish {
    /// Encodes a finish request into its fixed wire layout.
    pub fn new(finish: &Finish) -> (r: Self)
        ensures
            r == spec_launch_finish(*finish),
    {
        Self {
            id_block_uaddr: finish.id_block_uaddr,
            id_auth_uaddr: finish.id_auth_uaddr,
            id_block_en: finish.id_block_en,
            auth_key_en: finish.auth_key_en,
            host_data: finish.host_data,
        }
    }
}

} // verus!
