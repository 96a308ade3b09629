use snp_launch::Version;
use snp_launch::launch::{
    FLAG_DEBUG, FLAG_MIGRATE_MA, FLAG_RESERVED, FLAG_SMT, Finish, PageType, Policy, PolicyFlags,
    Start, Update,
};
use snp_launch::kvm::{LaunchFinish, LaunchStart, LaunchUpdate};
use snp_launch::launcher::{Command, CommandKind, Launcher, New, command_id};

fn sample_start(flag_bits: u16) -> Start {
    Start {
        policy: Policy {
            flags: PolicyFlags::new(flag_bits),
            minfw: Version::new(1, 49),
        },
        ma_uaddr: 0xdead_0000,
        ma_en: 1,
        imi_en: 0,
        gosvw: [7u8; 16],
    }
}

#[test]
fn policy_flags_reserved_always_set() {
    let inputs: [u16; 6] = [0, FLAG_SMT, FLAG_DEBUG, FLAG_MIGRATE_MA, 0xFFFF, 0b1101];
    for bits in inputs {
        let encoded = PolicyFlags::new(bits).to_u16();
        assert_eq!(encoded & FLAG_RESERVED, FLAG_RESERVED);
    }
}

#[test]
fn policy_flags_exact_values() {
    assert_eq!(PolicyFlags::new(0).to_u16(), 0b0010);
    assert_eq!(PolicyFlags::new(FLAG_SMT).to_u16(), 0b0011);
    assert_eq!(PolicyFlags::new(FLAG_MIGRATE_MA).to_u16(), 0b0110);
    assert_eq!(PolicyFlags::new(FLAG_DEBUG).to_u16(), 0b1010);
    // Bits outside the defined flags never reach the wire value.
    assert_eq!(PolicyFlags::new(0xFFF0).to_u16(), 0b0010);
    assert_eq!(PolicyFlags::new(0xFFFF).to_u16(), 0b1111);
}

#[test]
fn policy_round_trip_smt_1_2() {
    // {flags: SMT, minfw: 1.2} -> minor 0x02 | major 0x0100 | (SMT|Reserved) << 16
    let policy = Policy {
        flags: PolicyFlags::new(FLAG_SMT),
        minfw: Version::new(1, 2),
    };
    assert_eq!(policy.to_u64(), 0x030102);
}

#[test]
fn policy_encoding_always_has_reserved_wire_bit() {
    let versions: [Version; 3] = [Version::new(0, 0), Version::new(255, 255), Version::new(3, 9)];
    let flag_sets: [u16; 4] = [0, FLAG_SMT | FLAG_DEBUG, 0xFFFF, FLAG_MIGRATE_MA];
    for v in versions {
        for bits in flag_sets {
            let policy = Policy { flags: PolicyFlags::new(bits), minfw: v };
            let wire = policy.to_u64();
            assert_eq!(wire & 0x0002_0000, 0x0002_0000);
            assert!(wire < 0x0100_0000);
        }
    }
}

#[test]
fn page_type_values_are_the_fixed_table() {
    assert_eq!(PageType::Normal.value(), 1);
    assert_eq!(PageType::Vmsa.value(), 2);
    assert_eq!(PageType::Zero.value(), 3);
    assert_eq!(PageType::Unmeasured.value(), 4);
    assert_eq!(PageType::Secrets.value(), 5);
    assert_eq!(PageType::Cpuid.value(), 6);
}

#[test]
fn page_type_values_pairwise_distinct() {
    let kinds = [
        PageType::Normal,
        PageType::Vmsa,
        PageType::Zero,
        PageType::Unmeasured,
        PageType::Secrets,
        PageType::Cpuid,
    ];
    for i in 0..kinds.len() {
        for j in 0..kinds.len() {
            if i != j {
                assert_ne!(kinds[i].value(), kinds[j].value());
            }
        }
    }
}

#[test]
fn launch_start_encoder_projects_request() {
    // Encoding outside the start transition does not touch the request, but
    // the policy wire value still carries the forced Reserved bit.
    let start = sample_start(FLAG_DEBUG);
    let payload = LaunchStart::new(&start);
    assert_eq!(payload.policy, 0x0A0131);
    assert_eq!(payload.ma_uaddr, 0xdead_0000);
    assert_eq!(payload.ma_en, 1);
    assert_eq!(payload.imi_en, 0);
    assert_eq!(payload.gosvw, [7u8; 16]);
}

#[test]
fn launch_update_encoder_projects_request() {
    let update = Update {
        imi_page: 1,
        page_type: PageType::Cpuid,
        vmpl3_perms: 0x0F,
        vmpl2_perms: 0xF0,
        vmpl1_perms: 0xFF,
    };
    let payload = LaunchUpdate::new(0x123, 88, &update);
    assert_eq!(payload.uaddr, 0x123);
    assert_eq!(payload.len, 88);
    assert_eq!(payload.imi_page, 1);
    assert_eq!(payload.page_type, 6);
    assert_eq!(payload.vmpl3_perms, 0x0F);
    assert_eq!(payload.vmpl2_perms, 0xF0);
    assert_eq!(payload.vmpl1_perms, 0xFF);
}

#[test]
fn launch_finish_encoder_projects_request() {
    let mut host_data = [0u8; 32];
    host_data[0] = 1;
    host_data[31] = 255;
    let finish = Finish {
        id_block_uaddr: 0,
        id_auth_uaddr: 0,
        id_block_en: 0,
        auth_key_en: 1,
        host_data,
    };
    let payload = LaunchFinish::new(&finish);
    assert_eq!(payload.id_block_uaddr, 0);
    assert_eq!(payload.id_auth_uaddr, 0);
    assert_eq!(payload.id_block_en, 0);
    assert_eq!(payload.auth_key_en, 1);
    assert_eq!(payload.host_data, host_data);
}

#[test]
fn command_ids_are_the_fixed_table() {
    assert_eq!(command_id(CommandKind::Init), 256);
    assert_eq!(command_id(CommandKind::LaunchStart), 257);
    assert_eq!(command_id(CommandKind::LaunchUpdate), 258);
    assert_eq!(command_id(CommandKind::LaunchFinish), 259);
}

#[test]
fn command_envelope_layout() {
    let cmd = Command::from(CommandKind::LaunchUpdate, 0x1000_2000_3000_4000, 12);
    assert_eq!(cmd.code, 258);
    assert_eq!(cmd.data, 0x1000_2000_3000_4000);
    assert_eq!(cmd.error, 0);
    assert_eq!(cmd.sev_fd, 12);
}

#[test]
fn init_request_is_all_zero() {
    let init = Launcher::<New>::init_request();
    assert_eq!(init.flags, 0);
}

#[test]
fn new_succeeds_only_when_submission_succeeds() {
    let launcher = Launcher::new(10, 11, Ok(())).unwrap();
    assert_eq!(launcher.vm_fd(), 10);
    assert_eq!(launcher.sev_fd(), 11);

    // A failed platform initialization yields no session at all, only the
    // primitive's error, verbatim.
    let failed = Launcher::new(10, 11, Err(-22));
    assert_eq!(failed.err(), Some(-22));
}

#[test]
fn start_request_forces_reserved_flag() {
    let launcher = Launcher::new(3, 4, Ok(())).unwrap();
    let mut start = sample_start(FLAG_SMT);
    let payload = launcher.start_request(&mut start);

    // The caller's request now carries the Reserved bit it never set.
    assert_eq!(start.policy.flags.bits, FLAG_SMT | FLAG_RESERVED);
    // The payload is the byte-exact projection of the forced request:
    // minor 0x31 | major 0x01 << 8 | (SMT|Reserved) << 16.
    assert_eq!(payload.policy, 0x030131);
    assert_eq!(payload.ma_uaddr, 0xdead_0000);
    assert_eq!(payload.ma_en, 1);
    assert_eq!(payload.imi_en, 0);
    assert_eq!(payload.gosvw, [7u8; 16]);
}

#[test]
fn start_advances_phase_only_on_success() {
    let launcher = Launcher::new(3, 4, Ok(())).unwrap();
    let started = launcher.start(Ok(())).unwrap();
    assert_eq!(started.vm_fd(), 3);
    assert_eq!(started.sev_fd(), 4);

    let launcher = Launcher::new(3, 4, Ok(())).unwrap();
    let failed = launcher.start(Err(-5));
    assert_eq!(failed.err(), Some(-5));
}

#[test]
fn update_requests_carry_their_own_buffer() {
    let started = Launcher::new(3, 4, Ok(())).unwrap().start(Ok(())).unwrap();
    let update = Update {
        imi_page: 0,
        page_type: PageType::Normal,
        vmpl3_perms: 0,
        vmpl2_perms: 0x11,
        vmpl1_perms: 0x22,
    };

    // Two injections with distinct (address, length) pairs: each encoding
    // references exactly its own buffer, with no aliasing between calls.
    let first = started.update_request(0x7000_0000, 4096, &update);
    let second = started.update_request(0x7000_1000, 512, &update);
    assert_eq!(first.uaddr, 0x7000_0000);
    assert_eq!(first.len, 4096);
    assert_eq!(second.uaddr, 0x7000_1000);
    assert_eq!(second.len, 512);
    assert_ne!(first, second);

    assert_eq!(first.imi_page, 0);
    assert_eq!(first.page_type, 1);
    assert_eq!(first.vmpl3_perms, 0);
    assert_eq!(first.vmpl2_perms, 0x11);
    assert_eq!(first.vmpl1_perms, 0x22);
}

#[test]
fn update_request_zero_length_buffer() {
    let started = Launcher::new(3, 4, Ok(())).unwrap().start(Ok(())).unwrap();
    let update = Update {
        imi_page: 1,
        page_type: PageType::Zero,
        vmpl3_perms: 0,
        vmpl2_perms: 0,
        vmpl1_perms: 0,
    };
    // An empty buffer still encodes: length 0 and the buffer's address.
    let payload = started.update_request(0x5000, 0, &update);
    assert_eq!(payload.len, 0);
    assert_eq!(payload.uaddr, 0x5000);
    assert_eq!(payload.page_type, 3);
}

#[test]
fn update_data_surfaces_outcome_and_keeps_phase() {
    let mut started = Launcher::new(3, 4, Ok(())).unwrap().start(Ok(())).unwrap();
    assert_eq!(started.update_data(Ok(())), Ok(()));
    assert_eq!(started.update_data(Err(-14)), Err(-14));
    // The session is still in Started phase and usable.
    assert_eq!(started.update_data(Ok(())), Ok(()));
    assert_eq!(started.vm_fd(), 3);
}

#[test]
fn finish_request_projects_every_field() {
    let started = Launcher::new(3, 4, Ok(())).unwrap().start(Ok(())).unwrap();
    let finish = Finish {
        id_block_uaddr: 0xaaaa,
        id_auth_uaddr: 0xbbbb,
        id_block_en: 1,
        auth_key_en: 0,
        host_data: [9u8; 32],
    };
    let payload = started.finish_request(&finish);
    assert_eq!(payload.id_block_uaddr, 0xaaaa);
    assert_eq!(payload.id_auth_uaddr, 0xbbbb);
    assert_eq!(payload.id_block_en, 1);
    assert_eq!(payload.auth_key_en, 0);
    assert_eq!(payload.host_data, [9u8; 32]);
}

#[test]
fn finish_consumes_session_and_surfaces_outcome() {
    let started = Launcher::new(3, 4, Ok(())).unwrap().start(Ok(())).unwrap();
    assert_eq!(started.finish(Ok(())), Ok(()));

    let started = Launcher::new(3, 4, Ok(())).unwrap().start(Ok(())).unwrap();
    assert_eq!(started.finish(Err(-1)), Err(-1));
}
