//! Guest-launch handshake for AMD SEV-SNP as driven by a hypervisor process.
//!
//! The crate covers the phase-enforced launch protocol (`launcher`), the
//! wire-format encoding of each sub-command (`kvm`), and the policy and
//! page-type value encodings (`launch`). The privileged submission primitive
//! itself (an ioctl) is an external collaborator: callers perform it and hand
//! its outcome back to the session, which advances its phase only on success.

pub mod kvm;
pub mod launch;
pub mod launcher;

use vstd::prelude::*;

verus! {

/// A platform firmware version, as a major and minor pair.
#[derive(Clone, Copy, Debug, PartialEq, Eq, Structural)]
pub struct Version {
    /// The major version number.
    pub major: u8,

    /// The minor version number.
    pub minor: u8,
}

impl Version {
    /// Builds a version from its two components.
    pub fn new(major: u8, minor: u8) -> (r: Version)
        ensures
            r.major == major,
            r.minor == minor,
    {
        Version { major, minor }
    }
}

} // verus!
