//! Storage migrations: the raw keys of the retired storage values, and the
//! decisions of the phase-four and terminal-recovery transitions and of
//! their before/after checks.

use vstd::prelude::*;
use crate::primitives::{ProposalId, H256};

verus! {

/// The 128-bit XX hash that `sp_io::hashing::twox_128` gives of `data`.
pub uninterp spec fn twox_128_of(data: Seq<u8>) -> Seq<u8>;

/// Calls `sp_io::hashing::twox_128`: two 64-bit XX hashes of `data` (seeds
/// zero and one), written little-endian. The contract names the result as
/// a function of the bytes hashed; the hash itself is not restated.
#[verifier::external_body]
fn twox_128(data: &[u8]) -> (r: [u8; 16])
    ensures
        r@ == twox_128_of(data@),
{
    sp_io::hashing::twox_128(data)
}

/// Raw key of a storage value: the hash of its pallet prefix followed by the
/// hash of its item name.
pub fn value_key(pallet: &[u8], item: &[u8]) -> (r: [u8; 32])
    ensures
        r@ == twox_128_of(pallet@) + twox_128_of(item@),
{
    let a = twox_128(pallet);
    let b = twox_128(item);
    let mut key = [0u8; 32];
    let mut i: usize = 0;
    while i < 16
        invariant
            i <= 16,
            a@ == twox_128_of(pallet@),
            b@ == twox_128_of(item@),
            forall|j: int| 0 <= j < i ==> key@[j] == a@[j],
            forall|j: int| 0 <= j < i ==> key@[16 + j] == b@[j],
        decreases 16 - i,
    {
        key[i] = a[i];
        key[16 + i] = b[i];
        i = i + 1;
    }
    assert(key@ =~= a@ + b@);
    key
}

/// `ExecutionGuard` as bytes.
pub open spec fn execution_guard_prefix() -> Seq<u8> {
    seq![69u8, 120, 101, 99, 117, 116, 105, 111, 110, 71, 117, 97, 114, 100]
}

/// `BlockedMeters` as bytes.
pub open spec fn blocked_meters_item() -> Seq<u8> {
    seq![66u8, 108, 111, 99, 107, 101, 100, 77, 101, 116, 101, 114, 115]
}

/// `BleavitRuntimeMigration` as bytes.
pub open spec fn runtime_migration_prefix() -> Seq<u8> {
    seq![
        66u8, 108, 101, 97, 118, 105, 116, 82, 117, 110, 116, 105, 109, 101, 77, 105, 103, 114, 97,
        116, 105, 111, 110,
    ]
}

/// `ProgressMarker` as bytes.
pub open spec fn progress_marker_item() -> Seq<u8> {
    seq![80u8, 114, 111, 103, 114, 101, 115, 115, 77, 97, 114, 107, 101, 114]
}

/// `Sudo` as bytes.
pub open spec fn sudo_prefix() -> Seq<u8> {
    seq![83u8, 117, 100, 111]
}

/// `Key` as bytes.
pub open spec fn key_item() -> Seq<u8> {
    seq![75u8, 101, 121]
}

/// Raw key of the retired `ExecutionGuard::BlockedMeters` value.
pub fn blocked_meters_key() -> (r: [u8; 32])
    ensures
        r@ == twox_128_of(execution_guard_prefix()) + twox_128_of(blocked_meters_item()),
{
    let pallet: [u8; 14] = [69, 120, 101, 99, 117, 116, 105, 111, 110, 71, 117, 97, 114, 100];
    let item: [u8; 13] = [66, 108, 111, 99, 107, 101, 100, 77, 101, 116, 101, 114, 115];
    assert(pallet@ =~= execution_guard_prefix());
    assert(item@ =~= blocked_meters_item());
    value_key(pallet.as_slice(), item.as_slice())
}

/// Raw key of the retired `BleavitRuntimeMigration::ProgressMarker` value.
pub fn progress_marker_key() -> (r: [u8; 32])
    ensures
        r@ == twox_128_of(runtime_migration_prefix()) + twox_128_of(progress_marker_item()),
{
    let pallet: [u8; 23] = [
        66, 108, 101, 97, 118, 105, 116, 82, 117, 110, 116, 105, 109, 101, 77, 105, 103, 114, 97,
        116, 105, 111, 110,
    ];
    let item: [u8; 14] = [80, 114, 111, 103, 114, 101, 115, 115, 77, 97, 114, 107, 101, 114];
    assert(pallet@ =~= runtime_migration_prefix());
    assert(item@ =~= progress_marker_item());
    value_key(pallet.as_slice(), item.as_slice())
}

/// Raw key of the retired sudo key (`Sudo::Key`).
pub fn sudo_key_storage_key() -> (r: [u8; 32])
    ensures
        r@ == twox_128_of(sudo_prefix()) + twox_128_of(key_item()),
{
    let pallet: [u8; 4] = [83, 117, 100, 111];
    let item: [u8; 3] = [75, 101, 121];
    assert(pallet@ =~= sudo_prefix());
    assert(item@ =~= key_item());
    value_key(pallet.as_slice(), item.as_slice())
}

/// Storage work that a migration asks for: the raw keys it clears, and the
/// reads and writes it is charged for.
#[derive(Clone, Debug, PartialEq, Eq)]
pub struct StorageOps {
    pub cleared: Vec<[u8; 32]>,
    pub reads: u64,
    pub writes: u64,
}

/// A presence flag as the byte the before-check saves.
pub open spec fn presence_byte(present: bool) -> u8 {
    if present {
        1u8
    } else {
        0u8
    }
}

/// The check after the retirement: neither retired key is present.
pub open spec fn spec_retire_post(blocked_meters_present: bool, progress_marker_present: bool) -> Result<
    (),
    TransitionCheckError,
> {
    if blocked_meters_present {
        Err(TransitionCheckError::BlockedMetersPresent)
    } else if progress_marker_present {
        Err(TransitionCheckError::ProgressMarkerPresent)
    } else {
        Ok(())
    }
}

/// The raw keys of the two retired values, in the order they are cleared.
pub open spec fn retired_keys() -> Seq<Seq<u8>> {
    seq![
        twox_128_of(execution_guard_prefix()) + twox_128_of(blocked_meters_item()),
        twox_128_of(runtime_migration_prefix()) + twox_128_of(progress_marker_item()),
    ]
}

/// Storage, as a map from raw keys to values, after clearing `keys` in order.
pub open spec fn clear_keys(storage: Map<Seq<u8>, Seq<u8>>, keys: Seq<Seq<u8>>) -> Map<Seq<u8>, Seq<u8>>
    decreases keys.len(),
{
    if keys.len() == 0 {
        storage
    } else {
        clear_keys(storage, keys.drop_last()).remove(keys.last())
    }
}

/// The retirement of the two inert storage values (the execution guard's
/// blocked meters and the runtime migration's progress marker), run once as
/// the execution guard's storage version advances from zero to one.
pub struct RetireB16StateInner;

impl RetireB16StateInner {
    /// Clears both retired keys, an idempotent no-op where they are absent,
    /// for a fixed charge of two reads and two writes.
    pub fn on_runtime_upgrade() -> (r: StorageOps)
        ensures
            r.cleared@.map_values(|k: [u8; 32]| k@) == retired_keys(),
            r.cleared@.len() == 2,
            r.cleared@[0]@ == twox_128_of(execution_guard_prefix()) + twox_128_of(
                blocked_meters_item(),
            ),
            r.cleared@[1]@ == twox_128_of(runtime_migration_prefix()) + twox_128_of(
                progress_marker_item(),
            ),
            r.reads == 2,
            r.writes == 2,
    {
        let mut cleared: Vec<[u8; 32]> = Vec::new();
        cleared.push(blocked_meters_key());
        cleared.push(progress_marker_key());
        StorageOps { cleared, reads: 2, writes: 2 }
    }

    /// Records which of the two retired keys are present before the upgrade.
    pub fn pre_upgrade(blocked_meters_present: bool, progress_marker_present: bool) -> (r: Vec<u8>)
        ensures
            r@ == seq![presence_byte(blocked_meters_present), presence_byte(progress_marker_present)],
    {
        let mut v: Vec<u8> = Vec::new();
        v.push(if blocked_meters_present { 1u8 } else { 0u8 });
        v.push(if progress_marker_present { 1u8 } else { 0u8 });
        assert(v@ =~= seq![
            presence_byte(blocked_meters_present),
            presence_byte(progress_marker_present),
        ]);
        v
    }

    /// Checks after the upgrade that neither retired key is present.
    pub fn post_upgrade(blocked_meters_present: bool, progress_marker_present: bool) -> (r: Result<
        (),
        TransitionCheckError,
    >)
        ensures
            r == spec_retire_post(blocked_meters_present, progress_marker_present),
    {
        if blocked_meters_present {
            Err(TransitionCheckError::BlockedMetersPresent)
        } else if progress_marker_present {
            Err(TransitionCheckError::ProgressMarkerPresent)
        } else {
            Ok(())
        }
    }
}

/// What the phase-four transition finds in storage before it acts.
#[derive(Clone, Copy, Debug, PartialEq, Eq, Structural)]
pub struct PhaseFourSource {
    /// The phase-four bridge holds a scheduled plan.
    pub bridge_scheduled: bool,
    /// The phase transition has been applied.
    pub transition_applied: bool,
    /// The phase transition lock is held.
    pub transition_lock: bool,
    /// The phase flags are exactly shadow mode with sudo present.
    pub flags_are_shadow_with_sudo: bool,
    /// The sudo key is present.
    pub sudo_key_present: bool,
}

/// What the phase-four transition does.
#[derive(Clone, Copy, Debug, PartialEq, Eq, Structural)]
pub enum PhaseFourAction {
    /// Apply the scheduled plan, purge the sudo key and arm parameter binding,
    /// atomically; a failure is noted as a phase transition failure.
    Transition,
    /// Keep the old state and note a phase transition failure.
    NoteFailure,
    /// Nothing to do.
    Nothing,
}

/// The source phase-three state is exactly the one the transition expects.
pub open spec fn phase_four_source_exact(s: PhaseFourSource) -> bool {
    s.transition_applied && s.transition_lock && s.flags_are_shadow_with_sudo && s.sudo_key_present
}

/// The phase-four transition's decision.
pub open spec fn spec_phase_four_action(s: PhaseFourSource) -> PhaseFourAction {
    if s.bridge_scheduled && phase_four_source_exact(s) {
        PhaseFourAction::Transition
    } else if s.bridge_scheduled || s.transition_applied || s.transition_lock {
        PhaseFourAction::NoteFailure
    } else {
        PhaseFourAction::Nothing
    }
}


/// Why a transition's before/after check fails.
#[derive(Clone, Copy, Debug, PartialEq, Eq, Structural)]
pub enum TransitionCheckError {
    /// retirement: the execution guard's blocked meters key is still present
    BlockedMetersPresent,
    /// retirement: the runtime migration's progress marker key is still present
    ProgressMarkerPresent,
    /// phase-four migration: source Phase-3 state is not exact
    SourceNotExact,
    /// phase-four migration: Sudo key survived pallet removal
    SudoKeySurvived,
    /// phase-four migration: exact PARAM-only flags not installed
    ParamFlagsMissing,
    /// phase-four migration: bridge was not consumed atomically
    BridgeNotConsumed,
    /// phase-four migration: application marker leaked onto a later image
    MarkerLeaked,
    /// terminal recovery migration: source recovery state is not exact
    RecoverySourceNotExact,
    /// terminal recovery migration: recovery state survived completion
    RecoveryStateSurvived,
    /// terminal recovery migration: Phase-4 repair is incomplete
    PhaseRepairIncomplete,
}

/// The check before the phase-four transition: when a plan is scheduled, the
/// source state must be exact. The saved state records whether one was.
pub open spec fn spec_phase_four_pre(s: PhaseFourSource) -> Result<Seq<u8>, TransitionCheckError> {
    if s.bridge_scheduled && !phase_four_source_exact(s) {
        Err(TransitionCheckError::SourceNotExact)
    } else {
        Ok(seq![if s.bridge_scheduled { 1u8 } else { 0u8 }])
    }
}


/// What the phase-four transition leaves in storage.
#[derive(Clone, Copy, Debug, PartialEq, Eq, Structural)]
pub struct PhaseFourResult {
    /// The sudo key is present.
    pub sudo_key_present: bool,
    /// The phase flags are exactly parameter binding armed.
    pub flags_are_param_armed: bool,
    /// The phase-four bridge is consumed.
    pub bridge_consumed: bool,
    /// The phase transition has been applied.
    pub transition_applied: bool,
    /// The phase transition lock is held.
    pub transition_lock: bool,
}

/// The check after the phase-four transition: after a pending transition the
/// sudo key is gone, parameter binding is armed and the bridge consumed with
/// both markers cleared; otherwise the application marker is clear.
pub open spec fn spec_phase_four_post(saved: Seq<u8>, s: PhaseFourResult) -> Result<
    (),
    TransitionCheckError,
> {
    if saved == seq![1u8] {
        if s.sudo_key_present {
            Err(TransitionCheckError::SudoKeySurvived)
        } else if !s.flags_are_param_armed {
            Err(TransitionCheckError::ParamFlagsMissing)
        } else if !(s.bridge_consumed && !s.transition_applied && !s.transition_lock) {
            Err(TransitionCheckError::BridgeNotConsumed)
        } else {
            Ok(())
        }
    } else if s.transition_applied {
        Err(TransitionCheckError::MarkerLeaked)
    } else {
        Ok(())
    }
}


/// The phase-three to phase-four transition: purges the retired sudo key and
/// arms parameter binding atomically with the code image that omits sudo.
pub struct PhaseFourTransition;

impl PhaseFourTransition {
    /// Decides what the phase-four transition does on runtime upgrade.
    pub fn on_runtime_upgrade(s: PhaseFourSource) -> (r: PhaseFourAction)
        ensures
            r == spec_phase_four_action(s),
    {
        let source_exact = s.transition_applied && s.transition_lock && s.flags_are_shadow_with_sudo
            && s.sudo_key_present;
        if s.bridge_scheduled && source_exact {
            PhaseFourAction::Transition
        } else if s.bridge_scheduled || s.transition_applied || s.transition_lock {
            PhaseFourAction::NoteFailure
        } else {
            PhaseFourAction::Nothing
        }
    }

    /// Runs the check before the phase-four transition.
    pub fn pre_upgrade(s: PhaseFourSource) -> (r: Result<Vec<u8>, TransitionCheckError>)
        ensures
            match spec_phase_four_pre(s) {
                Ok(v) => r matches Ok(w) && w@ == v,
                Err(e) => r == Err::<Vec<u8>, TransitionCheckError>(e),
            },
    {
        if s.bridge_scheduled {
            if !(s.transition_applied && s.transition_lock && s.flags_are_shadow_with_sudo
                && s.sudo_key_present) {
                return Err(TransitionCheckError::SourceNotExact);
            }
        }
        let mut v: Vec<u8> = Vec::new();
        v.push(if s.bridge_scheduled { 1u8 } else { 0u8 });
        assert(v@ =~= seq![if s.bridge_scheduled { 1u8 } else { 0u8 }]);
        Ok(v)
    }

    /// Runs the check after the phase-four transition.
    pub fn post_upgrade(saved: &Vec<u8>, s: PhaseFourResult) -> (r: Result<
        (),
        TransitionCheckError,
    >)
        ensures
            r == spec_phase_four_post(saved@, s),
    {
        let pending = saved.len() == 1 && saved[0] == 1;
        assert(pending == (saved@ == seq![1u8])) by {
            if saved@.len() == 1 && saved@[0] == 1 {
                assert(saved@ =~= seq![1u8]);
            }
        }
        if pending {
            if s.sudo_key_present {
                return Err(TransitionCheckError::SudoKeySurvived);
            }
            if !s.flags_are_param_armed {
                return Err(TransitionCheckError::ParamFlagsMissing);
            }
            if !(s.bridge_consumed && !s.transition_applied && !s.transition_lock) {
                return Err(TransitionCheckError::BridgeNotConsumed);
            }
        } else if s.transition_applied {
            return Err(TransitionCheckError::MarkerLeaked);
        }
        Ok(())
    }
}

/// The committed recovery image.
#[derive(Clone, Copy, Debug, PartialEq, Eq)]
pub struct RecoveryImage {
    pub pid: ProposalId,
    pub hash: H256,
    pub primary_hash: H256,
    pub target_spec_version: u32,
}

/// A scheduled phase-four plan on the bridge.
#[derive(Clone, Copy, Debug, PartialEq, Eq)]
pub struct ScheduledBridge {
    pub pid: ProposalId,
    pub code_hash: H256,
}

/// Identity of the installed runtime code.
#[derive(Clone, Copy, Debug, PartialEq, Eq)]
pub struct InstalledCode {
    pub hash: H256,
    pub spec_version: u32,
}

/// What the terminal recovery transition finds in storage.
#[derive(Clone, Copy, Debug, PartialEq, Eq)]
pub struct RecoverySource {
    pub recovery_code_applied: bool,
    pub recovery_lockdown: bool,
    pub recovery_aborted: bool,
    pub scheduled_hash: Option<H256>,
    pub recovery_image: Option<RecoveryImage>,
    /// The installed code, when readable.
    pub installed_code: Option<InstalledCode>,
    pub phase_transition_lock: bool,
    pub retired_cursor_present: bool,
    /// The phase-four bridge's plan, when one is scheduled.
    pub bridge: Option<ScheduledBridge>,
}

/// Why terminal recovery cannot complete.
#[derive(Clone, Copy, Debug, PartialEq, Eq, Structural)]
pub enum RecoveryError {
    /// terminal recovery marker missing
    MarkerMissing,
    /// terminal recovery schedule missing
    ScheduleMissing,
    /// terminal recovery commitment missing
    CommitmentMissing,
    /// terminal recovery hash mismatch
    HashMismatch,
    /// terminal recovery code unreadable
    CodeUnreadable,
    /// terminal recovery code mismatch
    CodeMismatch,
    /// terminal recovery has conflicting phase and MBM causes
    ConflictingCauses,
    /// terminal recovery phase commitment missing
    PhaseCommitmentMissing,
    /// terminal recovery cause missing
    CauseMissing,
    /// ordinary MBM recovery repair is not configured
    MbmRepairNotConfigured,
}

/// What terminal recovery decides: it completes only as the phase-four
/// repair of the committed primary; an ordinary multi-block migration has
/// no configured repair, so recovery stays locked down.
pub open spec fn spec_terminal_recovery(s: RecoverySource) -> Result<RecoveryImage, RecoveryError> {
    if !(s.recovery_code_applied && s.recovery_lockdown && !s.recovery_aborted) {
        Err(RecoveryError::MarkerMissing)
    } else if s.scheduled_hash is None {
        Err(RecoveryError::ScheduleMissing)
    } else if s.recovery_image is None {
        Err(RecoveryError::CommitmentMissing)
    } else if s.recovery_image->0.hash != s.scheduled_hash->0 {
        Err(RecoveryError::HashMismatch)
    } else if s.installed_code is None {
        Err(RecoveryError::CodeUnreadable)
    } else if !(s.installed_code->0.hash == s.recovery_image->0.hash
        && s.installed_code->0.spec_version == s.recovery_image->0.target_spec_version) {
        Err(RecoveryError::CodeMismatch)
    } else if s.phase_transition_lock {
        if s.retired_cursor_present {
            Err(RecoveryError::ConflictingCauses)
        } else if !(s.bridge matches Some(b) && b.pid == s.recovery_image->0.pid && b.code_hash
            == s.recovery_image->0.primary_hash) {
            Err(RecoveryError::PhaseCommitmentMissing)
        } else {
            Ok(s.recovery_image->0)
        }
    } else if !s.retired_cursor_present {
        Err(RecoveryError::CauseMissing)
    } else {
        Err(RecoveryError::MbmRepairNotConfigured)
    }
}


/// The check before terminal recovery: the recovery code is applied, the
/// chain locked down and not aborted, and a recovery hash scheduled. The
/// saved state records whether the phase transition lock is held.
pub open spec fn spec_recovery_pre(s: RecoverySource) -> Result<Seq<u8>, TransitionCheckError> {
    if !(s.recovery_code_applied && s.recovery_lockdown && !s.recovery_aborted
        && s.scheduled_hash is Some) {
        Err(TransitionCheckError::RecoverySourceNotExact)
    } else {
        Ok(seq![if s.phase_transition_lock { 1u8 } else { 0u8 }])
    }
}


/// What terminal recovery leaves in storage.
#[derive(Clone, Copy, Debug, PartialEq, Eq, Structural)]
pub struct RecoveryResult {
    pub recovery_code_applied: bool,
    pub recovery_lockdown: bool,
    pub scheduled_hash_present: bool,
    pub retired_cursor_present: bool,
    pub recovery_image_present: bool,
    pub flags_are_param_armed: bool,
    pub sudo_key_present: bool,
    pub bridge_consumed: bool,
}

/// The check after terminal recovery: every recovery record is cleared, and
/// after a phase repair parameter binding is armed, the sudo key gone and
/// the bridge consumed.
pub open spec fn spec_recovery_post(saved: Seq<u8>, s: RecoveryResult) -> Result<(), TransitionCheckError> {
    if s.recovery_code_applied || s.recovery_lockdown || s.scheduled_hash_present
        || s.retired_cursor_present || s.recovery_image_present {
        Err(TransitionCheckError::RecoveryStateSurvived)
    } else if saved == seq![1u8] && !(s.flags_are_param_armed && !s.sudo_key_present
        && s.bridge_consumed) {
        Err(TransitionCheckError::PhaseRepairIncomplete)
    } else {
        Ok(())
    }
}


/// The terminal recovery transition: performs the bounded repair after the
/// committed recovery code was installed and consumes every recovery lock.
pub struct TerminalRecoveryTransition;

impl TerminalRecoveryTransition {
    /// Decides whether terminal recovery completes, returning the recovery image
    /// whose phase-four repair is then applied.
    pub fn on_runtime_upgrade(s: &RecoverySource) -> (r: Result<RecoveryImage, RecoveryError>)
        ensures
            r == spec_terminal_recovery(*s),
    {
        if !(s.recovery_code_applied && s.recovery_lockdown && !s.recovery_aborted) {
            return Err(RecoveryError::MarkerMissing);
        }
        let scheduled = match s.scheduled_hash {
            Some(h) => h,
            None => {
                return Err(RecoveryError::ScheduleMissing);
            },
        };
        let recovery = match s.recovery_image {
            Some(r) => r,
            None => {
                return Err(RecoveryError::CommitmentMissing);
            },
        };
        if !crate::primitives::hash_eq(&recovery.hash, &scheduled) {
            return Err(RecoveryError::HashMismatch);
        }
        let installed = match s.installed_code {
            Some(c) => c,
            None => {
                return Err(RecoveryError::CodeUnreadable);
            },
        };
        if !(crate::primitives::hash_eq(&installed.hash, &recovery.hash) && installed.spec_version
            == recovery.target_spec_version) {
            return Err(RecoveryError::CodeMismatch);
        }
        if s.phase_transition_lock {
            if s.retired_cursor_present {
                return Err(RecoveryError::ConflictingCauses);
            }
            match s.bridge {
                Some(b) => {
                    if b.pid == recovery.pid && crate::primitives::hash_eq(
                        &b.code_hash,
                        &recovery.primary_hash,
                    ) {
                        Ok(recovery)
                    } else {
                        Err(RecoveryError::PhaseCommitmentMissing)
                    }
                },
                None => Err(RecoveryError::PhaseCommitmentMissing),
            }
        } else if !s.retired_cursor_present {
            Err(RecoveryError::CauseMissing)
        } else {
            Err(RecoveryError::MbmRepairNotConfigured)
        }
    }

    /// Runs the check before terminal recovery.
    pub fn pre_upgrade(s: &RecoverySource) -> (r: Result<Vec<u8>, TransitionCheckError>)
        ensures
            match spec_recovery_pre(*s) {
                Ok(v) => r matches Ok(w) && w@ == v,
                Err(e) => r == Err::<Vec<u8>, TransitionCheckError>(e),
            },
    {
        if !(s.recovery_code_applied && s.recovery_lockdown && !s.recovery_aborted
            && s.scheduled_hash.is_some()) {
            return Err(TransitionCheckError::RecoverySourceNotExact);
        }
        let mut v: Vec<u8> = Vec::new();
        v.push(if s.phase_transition_lock { 1u8 } else { 0u8 });
        assert(v@ =~= seq![if s.phase_transition_lock { 1u8 } else { 0u8 }]);
        Ok(v)
    }

    /// Runs the check after terminal recovery.
    pub fn post_upgrade(saved: &Vec<u8>, s: RecoveryResult) -> (r: Result<(), TransitionCheckError>)
        ensures
            r == spec_recovery_post(saved@, s),
    {
        if s.recovery_code_applied || s.recovery_lockdown || s.scheduled_hash_present
            || s.retired_cursor_present || s.recovery_image_present {
            return Err(TransitionCheckError::RecoveryStateSurvived);
        }
        let phase = saved.len() == 1 && saved[0] == 1;
        assert(phase == (saved@ == seq![1u8])) by {
            if saved@.len() == 1 && saved@[0] == 1 {
                assert(saved@ =~= seq![1u8]);
            }
        }
        if phase && !(s.flags_are_param_armed && !s.sudo_key_present && s.bridge_consumed) {
            return Err(TransitionCheckError::PhaseRepairIncomplete);
        }
        Ok(())
    }
}

/// What a completed phase-four transition leaves: no sudo key, parameter
/// binding armed, the bridge consumed and both markers cleared.
pub open spec fn completed_phase_four() -> PhaseFourResult {
    PhaseFourResult {
        sudo_key_present: false,
        flags_are_param_armed: true,
        bridge_consumed: true,
        transition_applied: false,
        transition_lock: false,
    }
}

/// The transition runs exactly when the check before the upgrade saves a
/// pending transition, and the state that the completed transition leaves
/// passes the check after the upgrade.
pub proof fn law_phase_four_checks_agree_with_transition(s: PhaseFourSource)
    ensures
        (spec_phase_four_action(s) == PhaseFourAction::Transition) <==> (spec_phase_four_pre(s)
            == Ok::<Seq<u8>, TransitionCheckError>(seq![1u8])),
        spec_phase_four_action(s) == PhaseFourAction::Transition ==> spec_phase_four_post(
            seq![1u8],
            completed_phase_four(),
        ) == Ok::<(), TransitionCheckError>(()),
{
    if spec_phase_four_pre(s) == Ok::<Seq<u8>, TransitionCheckError>(seq![1u8]) {
        assert(seq![if s.bridge_scheduled { 1u8 } else { 0u8 }][0] == 1u8);
    }
}

/// What a completed terminal recovery leaves after a phase repair: every
/// recovery record cleared, parameter binding armed, no sudo key and the
/// bridge consumed.
pub open spec fn completed_recovery() -> RecoveryResult {
    RecoveryResult {
        recovery_code_applied: false,
        recovery_lockdown: false,
        scheduled_hash_present: false,
        retired_cursor_present: false,
        recovery_image_present: false,
        flags_are_param_armed: true,
        sudo_key_present: false,
        bridge_consumed: true,
    }
}

/// Terminal recovery completes only as the phase repair: whenever it
/// completes, the check before the upgrade saves a phase cause, and the
/// state that the completed repair leaves passes the check after it.
pub proof fn law_recovery_completes_only_as_phase_repair(s: RecoverySource)
    requires
        spec_terminal_recovery(s) is Ok,
    ensures
        s.phase_transition_lock,
        spec_recovery_pre(s) == Ok::<Seq<u8>, TransitionCheckError>(seq![1u8]),
        spec_recovery_post(seq![1u8], completed_recovery()) == Ok::<(), TransitionCheckError>(()),
{
}

/// Clearing the retired keys removes exactly those keys and changes no
/// other entry; clearing them again changes nothing (on storage without them
/// it is a no-op); and the storage it leaves passes the after-check.
pub proof fn law_retirement_removes_exactly_the_retired_keys(storage: Map<Seq<u8>, Seq<u8>>)
    ensures
        forall|k: Seq<u8>| #[trigger]
            clear_keys(storage, retired_keys()).contains_key(k) <==> (storage.contains_key(k)
                && !retired_keys().contains(k)),
        forall|k: Seq<u8>| #[trigger]
            clear_keys(storage, retired_keys()).contains_key(k) ==> clear_keys(
                storage,
                retired_keys(),
            )[k] == storage[k],
        clear_keys(clear_keys(storage, retired_keys()), retired_keys()) == clear_keys(
            storage,
            retired_keys(),
        ),
        spec_retire_post(
            clear_keys(storage, retired_keys()).contains_key(retired_keys()[0]),
            clear_keys(storage, retired_keys()).contains_key(retired_keys()[1]),
        ) == Ok::<(), TransitionCheckError>(()),
{
    let ks = retired_keys();
    let k0 = ks[0];
    let k1 = ks[1];
    assert(ks.drop_last() =~= seq![k0]);
    assert(ks.drop_last().drop_last() =~= Seq::<Seq<u8>>::empty());
    let after = clear_keys(storage, ks);
    assert(ks.last() == k1 && ks.drop_last().last() == k0);
    assert(clear_keys(storage, ks.drop_last()) == clear_keys(storage, ks.drop_last().drop_last()).remove(k0));
    assert(after == storage.remove(k0).remove(k1));
    assert(clear_keys(after, ks.drop_last()) == clear_keys(after, ks.drop_last().drop_last()).remove(k0));
    assert(clear_keys(after, ks) == after.remove(k0).remove(k1));
    assert(after.remove(k0).remove(k1) =~= after);
    assert forall|k: Seq<u8>| #[trigger] after.contains_key(k) <==> (storage.contains_key(k)
        && !ks.contains(k)) by {
        if ks.contains(k) {
            let j = choose|j: int| 0 <= j < ks.len() && ks[j] == k;
            assert(j == 0 || j == 1);
        }
        if k == k0 || k == k1 {
            assert(ks[0] == k0 && ks[1] == k1);
        }
    }
}

} // verus!
