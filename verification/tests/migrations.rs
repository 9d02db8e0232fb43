use sp_io::hashing::twox_128;
use bleavit::migrations::{
    blocked_meters_key, progress_marker_key, sudo_key_storage_key, value_key, InstalledCode,
    PhaseFourAction, PhaseFourResult, PhaseFourSource, PhaseFourTransition, RecoveryError,
    RecoveryImage, RecoveryResult, RecoverySource, RetireB16StateInner, ScheduledBridge,
    TerminalRecoveryTransition, TransitionCheckError,
};

fn concat(a: [u8; 16], b: [u8; 16]) -> [u8; 32] {
    let mut k = [0u8; 32];
    k[..16].copy_from_slice(&a);
    k[16..].copy_from_slice(&b);
    k
}

#[test]
fn sudo_key_is_the_well_known_storage_key() {
    let expected: [u8; 32] = [
        0x5c, 0x0d, 0x11, 0x76, 0xa5, 0x68, 0xc1, 0xf9, 0x29, 0x44, 0x34, 0x0d, 0xbf, 0xed, 0x9e,
        0x9c, 0x53, 0x0e, 0xbc, 0xa7, 0x03, 0xc8, 0x59, 0x10, 0xe7, 0x16, 0x4c, 0xb7, 0xd1, 0xc9,
        0xe4, 0x7b,
    ];
    assert_eq!(sudo_key_storage_key(), expected);
    assert_eq!(value_key(b"Sudo", b"Key"), expected);
}

#[test]
fn storage_keys_hash_pallet_and_item() {
    assert_eq!(
        blocked_meters_key(),
        concat(twox_128(b"ExecutionGuard"), twox_128(b"BlockedMeters"))
    );
    assert_eq!(
        progress_marker_key(),
        concat(twox_128(b"BleavitRuntimeMigration"), twox_128(b"ProgressMarker"))
    );
    assert_ne!(value_key(b"A", b"B"), value_key(b"B", b"A"));
}

fn exact_source() -> PhaseFourSource {
    PhaseFourSource {
        bridge_scheduled: true,
        transition_applied: true,
        transition_lock: true,
        flags_are_shadow_with_sudo: true,
        sudo_key_present: true,
    }
}

#[test]
fn phase_four_acts_only_on_exact_source() {
    assert_eq!(PhaseFourTransition::on_runtime_upgrade(exact_source()), PhaseFourAction::Transition);
    let mut s = exact_source();
    s.sudo_key_present = false;
    assert_eq!(PhaseFourTransition::on_runtime_upgrade(s), PhaseFourAction::NoteFailure);
    let mut s = exact_source();
    s.bridge_scheduled = false;
    assert_eq!(PhaseFourTransition::on_runtime_upgrade(s), PhaseFourAction::NoteFailure);
    let idle = PhaseFourSource {
        bridge_scheduled: false,
        transition_applied: false,
        transition_lock: false,
        flags_are_shadow_with_sudo: true,
        sudo_key_present: true,
    };
    assert_eq!(PhaseFourTransition::on_runtime_upgrade(idle), PhaseFourAction::Nothing);
}

#[test]
fn phase_four_checks_before_and_after() {
    assert_eq!(PhaseFourTransition::pre_upgrade(exact_source()), Ok(vec![1]));
    let mut s = exact_source();
    s.transition_lock = false;
    assert_eq!(PhaseFourTransition::pre_upgrade(s), Err(TransitionCheckError::SourceNotExact));
    s.bridge_scheduled = false;
    assert_eq!(PhaseFourTransition::pre_upgrade(s), Ok(vec![0]));

    let done = PhaseFourResult {
        sudo_key_present: false,
        flags_are_param_armed: true,
        bridge_consumed: true,
        transition_applied: false,
        transition_lock: false,
    };
    assert_eq!(PhaseFourTransition::post_upgrade(&vec![1], done), Ok(()));
    let mut r = done;
    r.sudo_key_present = true;
    assert_eq!(PhaseFourTransition::post_upgrade(&vec![1], r), Err(TransitionCheckError::SudoKeySurvived));
    let mut r = done;
    r.flags_are_param_armed = false;
    assert_eq!(PhaseFourTransition::post_upgrade(&vec![1], r), Err(TransitionCheckError::ParamFlagsMissing));
    let mut r = done;
    r.transition_lock = true;
    assert_eq!(PhaseFourTransition::post_upgrade(&vec![1], r), Err(TransitionCheckError::BridgeNotConsumed));
    let mut r = done;
    r.transition_applied = true;
    assert_eq!(PhaseFourTransition::post_upgrade(&vec![0], r), Err(TransitionCheckError::MarkerLeaked));
    assert_eq!(PhaseFourTransition::post_upgrade(&vec![0], done), Ok(()));
}

fn image() -> RecoveryImage {
    RecoveryImage { pid: 7, hash: [1; 32], primary_hash: [2; 32], target_spec_version: 9 }
}

fn recovering() -> RecoverySource {
    RecoverySource {
        recovery_code_applied: true,
        recovery_lockdown: true,
        recovery_aborted: false,
        scheduled_hash: Some([1; 32]),
        recovery_image: Some(image()),
        installed_code: Some(InstalledCode { hash: [1; 32], spec_version: 9 }),
        phase_transition_lock: true,
        retired_cursor_present: false,
        bridge: Some(ScheduledBridge { pid: 7, code_hash: [2; 32] }),
    }
}

#[test]
fn terminal_recovery_completes_only_as_phase_repair() {
    assert_eq!(TerminalRecoveryTransition::on_runtime_upgrade(&recovering()), Ok(image()));
    let mut s = recovering();
    s.recovery_aborted = true;
    assert_eq!(TerminalRecoveryTransition::on_runtime_upgrade(&s), Err(RecoveryError::MarkerMissing));
    let mut s = recovering();
    s.scheduled_hash = None;
    assert_eq!(TerminalRecoveryTransition::on_runtime_upgrade(&s), Err(RecoveryError::ScheduleMissing));
    let mut s = recovering();
    s.recovery_image = None;
    assert_eq!(TerminalRecoveryTransition::on_runtime_upgrade(&s), Err(RecoveryError::CommitmentMissing));
    let mut s = recovering();
    s.scheduled_hash = Some([3; 32]);
    assert_eq!(TerminalRecoveryTransition::on_runtime_upgrade(&s), Err(RecoveryError::HashMismatch));
    let mut s = recovering();
    s.installed_code = None;
    assert_eq!(TerminalRecoveryTransition::on_runtime_upgrade(&s), Err(RecoveryError::CodeUnreadable));
    let mut s = recovering();
    s.installed_code = Some(InstalledCode { hash: [1; 32], spec_version: 8 });
    assert_eq!(TerminalRecoveryTransition::on_runtime_upgrade(&s), Err(RecoveryError::CodeMismatch));
    let mut s = recovering();
    s.retired_cursor_present = true;
    assert_eq!(TerminalRecoveryTransition::on_runtime_upgrade(&s), Err(RecoveryError::ConflictingCauses));
    let mut s = recovering();
    s.bridge = Some(ScheduledBridge { pid: 8, code_hash: [2; 32] });
    assert_eq!(TerminalRecoveryTransition::on_runtime_upgrade(&s), Err(RecoveryError::PhaseCommitmentMissing));
    let mut s = recovering();
    s.phase_transition_lock = false;
    assert_eq!(TerminalRecoveryTransition::on_runtime_upgrade(&s), Err(RecoveryError::CauseMissing));
    s.retired_cursor_present = true;
    assert_eq!(TerminalRecoveryTransition::on_runtime_upgrade(&s), Err(RecoveryError::MbmRepairNotConfigured));
}

#[test]
fn terminal_recovery_checks_before_and_after() {
    assert_eq!(TerminalRecoveryTransition::pre_upgrade(&recovering()), Ok(vec![1]));
    let mut s = recovering();
    s.phase_transition_lock = false;
    assert_eq!(TerminalRecoveryTransition::pre_upgrade(&s), Ok(vec![0]));
    s.scheduled_hash = None;
    assert_eq!(TerminalRecoveryTransition::pre_upgrade(&s), Err(TransitionCheckError::RecoverySourceNotExact));

    let clean = RecoveryResult {
        recovery_code_applied: false,
        recovery_lockdown: false,
        scheduled_hash_present: false,
        retired_cursor_present: false,
        recovery_image_present: false,
        flags_are_param_armed: true,
        sudo_key_present: false,
        bridge_consumed: true,
    };
    assert_eq!(TerminalRecoveryTransition::post_upgrade(&vec![1], clean), Ok(()));
    let mut r = clean;
    r.recovery_image_present = true;
    assert_eq!(TerminalRecoveryTransition::post_upgrade(&vec![1], r), Err(TransitionCheckError::RecoveryStateSurvived));
    let mut r = clean;
    r.sudo_key_present = true;
    assert_eq!(TerminalRecoveryTransition::post_upgrade(&vec![1], r), Err(TransitionCheckError::PhaseRepairIncomplete));
    assert_eq!(TerminalRecoveryTransition::post_upgrade(&vec![0], r), Ok(()));
}

#[test]
fn retirement_clears_both_keys_and_checks_them() {
    let ops = RetireB16StateInner::on_runtime_upgrade();
    assert_eq!(ops.cleared, vec![blocked_meters_key(), progress_marker_key()]);
    assert_eq!((ops.reads, ops.writes), (2, 2));
    assert_eq!(RetireB16StateInner::pre_upgrade(true, false), vec![1, 0]);
    assert_eq!(RetireB16StateInner::pre_upgrade(false, true), vec![0, 1]);
    assert_eq!(RetireB16StateInner::post_upgrade(false, false), Ok(()));
    assert_eq!(
        RetireB16StateInner::post_upgrade(true, true),
        Err(TransitionCheckError::BlockedMetersPresent)
    );
    assert_eq!(
        RetireB16StateInner::post_upgrade(false, true),
        Err(TransitionCheckError::ProgressMarkerPresent)
    );
}

#[test]
fn retirement_clears_the_keys_it_checks() {
    let ops = RetireB16StateInner::on_runtime_upgrade();
    assert_ne!(ops.cleared[0], ops.cleared[1]);
    assert_eq!(ops.cleared[0], value_key(b"ExecutionGuard", b"BlockedMeters"));
    assert_eq!(ops.cleared[1], value_key(b"BleavitRuntimeMigration", b"ProgressMarker"));
}
