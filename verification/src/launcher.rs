//! The phase-enforced launch protocol and the command envelope.
//!
//! A session walks one linear path: `new` then `start`, any number of
//! `update_data` calls, then `finish`. Each phase is a distinct type and
//! every phase-advancing operation consumes the session, so no call sequence
//! outside that path can be written down.
//!
//! The privileged submission primitive is an external collaborator. For each
//! operation the session hands the caller the encoded sub-command (the
//! `*_request` functions); the caller wraps it in an envelope, performs the
//! one privileged exchange, and hands the outcome back to the operation that
//! concludes the transition. A session in the next phase exists exactly when
//! the primitive reported success.

use vstd::prelude::*;
use crate::kvm::{
    Init,
    LaunchFinish,
    LaunchStart,
    LaunchUpdate,
    spec_launch_finish,
    spec_launch_start,
    spec_launch_update,
};
use crate::launch::{FLAG_RESERVED, Finish, Policy, PolicyFlags, Start, Update};

verus! {

/// Phase marker: a new SNP guest instance, one that was not previously
/// running.
pub struct New;

/// Phase marker: an SNP guest instance whose launch flow has been started.
pub struct Started;

/// The kinds of sub-command a launch submits.
#[derive(Clone, Copy, Debug, PartialEq, Eq, Structural)]
pub enum CommandKind {
    /// Initialize the SEV-SNP platform.
    Init,

    /// Initialize the flow to launch a guest.
    LaunchStart,

    /// Insert pages into the guest physical address space.
    LaunchUpdate,

    /// Complete the guest launch flow.
    LaunchFinish,
}

/// The numeric command id of each sub-command kind. The values are fixed by
/// the external kernel contract and must not be renumbered.
pub open spec fn spec_command_id(kind: CommandKind) -> u32 {
    match kind {
        CommandKind::Init => 256,
        CommandKind::LaunchStart => 257,
        CommandKind::LaunchUpdate => 258,
        CommandKind::LaunchFinish => 259,
    }
}

/// Maps a sub-command kind to its fixed numeric command id.
pub fn command_id(kind: CommandKind) -> (r: u32)
    ensures
        r == spec_command_id(kind),
{
    match kind {
        CommandKind::Init => 256,
        CommandKind::LaunchStart => 257,
        CommandKind::LaunchUpdate => 258,
        CommandKind::LaunchFinish => 259,
    }
}

/// No two sub-command kinds share a command id.
pub proof fn lemma_command_id_injective(a: CommandKind, b: CommandKind)
    ensures
        spec_command_id(a) == spec_command_id(b) ==> a == b,
{
    match a {
        CommandKind::Init => {},
        CommandKind::LaunchStart => {},
        CommandKind::LaunchUpdate => {},
        CommandKind::LaunchFinish => {},
    }
}

/// The fixed envelope wrapping every sub-command for submission:
/// command id, payload address, an error slot the kernel fills in, and the
/// number of the secure co-processor handle.
#[derive(Clone, Copy, Debug, PartialEq, Eq, Structural)]
pub struct Command {
    /// The numeric command id.
    pub code: u32,

    /// The address of the encoded sub-command payload.
    pub data: u64,

    /// The error slot; 0 until the kernel writes an error into it.
    pub error: u32,

    /// The number of the secure co-processor handle the command targets.
    pub sev_fd: u32,
}

impl Command {
    /// Wraps a sub-command, placed by the caller at `payload_addr`, in the
    /// numbered envelope for the secure co-processor handle `sev_fd`.
    pub fn from(kind: CommandKind, payload_addr: u64, sev_fd: u32) -> (c: Command)
        ensures
            c.code == spec_command_id(kind),
            c.data == payload_addr,
            c.error == 0,
            c.sev_fd == sev_fd,
    {
        Command { code: command_id(kind), data: payload_addr, error: 0, sev_fd }
    }
}

/// A launch session: the phase tag and the numbers of the two borrowed
/// privileged handles. The fields are private so that no session can be
/// forged in a phase it never reached.
pub struct Launcher<T> {
    _state: T,
    vm_fd: u32,
    sev_fd: u32,
}

impl<T> Launcher<T> {
    /// The number of the virtualization-subsystem handle.
    pub closed spec fn spec_vm_fd(&self) -> u32 {
        self.vm_fd
    }

    /// The number of the secure co-processor handle.
    pub closed spec fn spec_sev_fd(&self) -> u32 {
        self.sev_fd
    }

    /// Reads the number of the virtualization-subsystem handle.
    pub fn vm_fd(&self) -> (r: u32)
        ensures
            r == self.spec_vm_fd(),
    {
        self.vm_fd
    }

    /// Reads the number of the secure co-processor handle.
    pub fn sev_fd(&self) -> (r: u32)
        ensures
            r == self.spec_sev_fd(),
    {
        self.sev_fd
    }
}

impl Launcher<New> {
    /// The Init sub-command that platform initialization submits: a single
    /// reserved field, always zero.
    pub fn init_request() -> (r: Init)
        ensures
            r.flags == 0,
    {
        Init { flags: 0 }
    }

    /// Concludes platform initialization. `submission` is the outcome the
    /// privileged primitive returned for the Init envelope. A session in
    /// phase New exists exactly when the primitive succeeded; on failure the
    /// error is surfaced verbatim and the whole flow must be retried from
    /// scratch.
    pub fn new(vm_fd: u32, sev_fd: u32, submission: Result<(), i32>) -> (r: Result<
        Launcher<New>,
        i32,
    >)
        ensures
            r is Ok <==> submission is Ok,
            r is Ok ==> (r->Ok_0).spec_vm_fd() == vm_fd && (r->Ok_0).spec_sev_fd() == sev_fd,
            r is Err ==> r->Err_0 == submission->Err_0,
    {
        match submission {
            Ok(()) => Ok(Launcher { _state: New, vm_fd, sev_fd }),
            Err(e) => Err(e),
        }
    }

    /// Forces the Reserved policy flag on the caller's request — this
    /// transition, never the application, controls that bit — and encodes
    /// the LaunchStart sub-command that the transition submits.
    pub fn start_request(&self, start: &mut Start) -> (r: LaunchStart)
        ensures
            final(start).policy.flags.bits == old(start).policy.flags.bits | FLAG_RESERVED,
            final(start).policy.minfw == old(start).policy.minfw,
            final(start).ma_uaddr == old(start).ma_uaddr,
            final(start).ma_en == old(start).ma_en,
            final(start).imi_en == old(start).imi_en,
            final(start).gosvw == old(start).gosvw,
            r == spec_launch_start(*final(start)),
    {
        let forced = PolicyFlags { bits: start.policy.flags.bits | FLAG_RESERVED };
        *start = Start {
            policy: Policy { flags: forced, minfw: start.policy.minfw },
            ma_uaddr: start.ma_uaddr,
            ma_en: start.ma_en,
            imi_en: start.imi_en,
            gosvw: start.gosvw,
        };
        LaunchStart::new(&*start)
    }

    /// Consumes the New session and concludes the start transition.
    /// `submission` is the outcome the primitive returned for the
    /// LaunchStart envelope. A Started session exists exactly when the
    /// primitive succeeded; on failure the New session is gone too, and the
    /// caller must restart the whole flow from platform initialization.
    pub fn start(self, submission: Result<(), i32>) -> (r: Result<Launcher<Started>, i32>)
        ensures
            r is Ok <==> submission is Ok,
            r is Ok ==> (r->Ok_0).spec_vm_fd() == self.spec_vm_fd() && (r->Ok_0).spec_sev_fd()
                == self.spec_sev_fd(),
            r is Err ==> r->Err_0 == submission->Err_0,
    {
        match submission {
            Ok(()) => Ok(Launcher { _state: Started, vm_fd: self.vm_fd, sev_fd: self.sev_fd }),
            Err(e) => Err(e),
        }
    }
}

impl Launcher<Started> {
    /// Encodes the LaunchUpdate sub-command for one page injection: the
    /// address and length of exactly the buffer handed to this call. Each
    /// call is independent of every other; the order of injections is the
    /// caller's to choose.
    pub fn update_request(&self, data_addr: u64, data_len: u32, update: &Update) -> (r:
        LaunchUpdate)
        ensures
            r == spec_launch_update(data_addr, data_len, *update),
    {
        LaunchUpdate::new(data_addr, data_len, update)
    }

    /// Concludes one page injection. `submission` is the outcome the
    /// primitive returned for the LaunchUpdate envelope; it is surfaced
    /// verbatim. The phase does not change and the session is untouched.
    pub fn update_data(&mut self, submission: Result<(), i32>) -> (r: Result<(), i32>)
        ensures
            *final(self) == *old(self),
            r == submission,
    {
        submission
    }

    /// Encodes the LaunchFinish sub-command that the terminal transition
    /// submits.
    pub fn finish_request(&self, finish: &Finish) -> (r: LaunchFinish)
        ensures
            r == spec_launch_finish(*finish),
    {
        LaunchFinish::new(finish)
    }

    /// Consumes the Started session and concludes the launch. `submission`
    /// is the outcome the primitive returned for the LaunchFinish envelope;
    /// it is surfaced verbatim. The session value is gone either way: no
    /// operation exists after the terminal transition.
    pub fn finish(self, submission: Result<(), i32>) -> (r: Result<(), i32>)
        ensures
            r == submission,
    {
        submission
    }
}

} // verus!
