//! Assembly rules of the runtime's read-only views: the active welfare
//! version and its sentinel, quote sentinels, bounded position lists,
//! parameter cooldowns and classes, and the order of open oracle rounds.

use vstd::prelude::*;
use crate::primitives::{Balance, EpochId, FixedU64, MetricSpecVersion, ProposalClass, WelfareView};
use crate::welfare::state::{is_active, set_active, WelfareModel};
use crate::welfare::types::{MetricSpec, WelfareState};
use crate::execution_guard::types::ExecutionGuard;
use crate::execution_guard::spec::queued_view_of;
use crate::primitives::{BlockNumber, H256, MetricId, ParamKey, ProposalId, QueuedExecutionView};
use crate::seq_util::{first_match, lemma_first_match};

verus! {

/// Most positions listed for an account.
pub const MAX_ACCOUNT_POSITIONS: usize = 64;
/// Most open oracle rounds listed.
pub const MAX_OPEN_ORACLE_ROUNDS: usize = 192;

/// The greatest active version among the sets, if any.
pub open spec fn max_active_version(sets: Seq<(MetricSpecVersion, Seq<MetricSpec>)>, epoch: EpochId) -> Option<
    MetricSpecVersion,
>
    decreases sets.len(),
{
    if sets.len() == 0 {
        None
    } else {
        let rest = max_active_version(sets.drop_last(), epoch);
        if set_active(sets.last().1, epoch) {
            match rest {
                Some(v) => if v >= sets.last().0 {
                    Some(v)
                } else {
                    Some(sets.last().0)
                },
                None => Some(sets.last().0),
            }
        } else {
            rest
        }
    }
}

/// The version shown as current: the greatest active one, or zero.
pub open spec fn spec_current_version(m: WelfareModel, epoch: EpochId) -> MetricSpecVersion {
    match max_active_version(m.specs, epoch) {
        Some(v) => v,
        None => 0,
    }
}

/// The view of a missing snapshot: all values zero, keeping the epoch, the
/// version and the reserve flag.
pub open spec fn spec_welfare_sentinel(epoch: EpochId, spec_version: MetricSpecVersion, reserve_flag: bool) -> WelfareView {
    WelfareView {
        epoch,
        spec_version,
        s_pillar_1e9: FixedU64(0),
        c_onchain_1e9: FixedU64(0),
        c_attested_1e9: FixedU64(0),
        p_pillar_1e9: FixedU64(0),
        a_pillar_1e9: FixedU64(0),
        gate_s_1e9: FixedU64(0),
        gate_c_1e9: FixedU64(0),
        w_current_1e9: FixedU64(0),
        s_breached: false,
        c_breached: false,
        reserve_flag,
    }
}

/// The zero view of a missing snapshot.
pub fn welfare_sentinel(epoch: EpochId, spec_version: MetricSpecVersion, reserve_flag: bool) -> (r:
    WelfareView)
    ensures
        r == spec_welfare_sentinel(epoch, spec_version, reserve_flag),
{
    WelfareView {
        epoch,
        spec_version,
        s_pillar_1e9: FixedU64(0),
        c_onchain_1e9: FixedU64(0),
        c_attested_1e9: FixedU64(0),
        p_pillar_1e9: FixedU64(0),
        a_pillar_1e9: FixedU64(0),
        gate_s_1e9: FixedU64(0),
        gate_c_1e9: FixedU64(0),
        w_current_1e9: FixedU64(0),
        s_breached: false,
        c_breached: false,
        reserve_flag,
    }
}

/// The greatest active version of the registered sets, or zero.
pub fn current_spec_version(state: &WelfareState, epoch: EpochId) -> (r: MetricSpecVersion)
    ensures
        r == spec_current_version(state.model(), epoch),
{
    let n = state.specs.len();
    let mut best: Option<MetricSpecVersion> = None;
    let mut i: usize = 0;
    while i < n
        invariant
            n == state.specs@.len(),
            i <= n,
            best == max_active_version(state.model().specs.take(i as int), epoch),
        decreases n - i,
    {
        let ghost sets = state.model().specs;
        assert(sets.take(i + 1).drop_last() =~= sets.take(i as int));
        assert(sets.take(i + 1).last() == sets[i as int]);
        let v = state.specs[i].0;
        if is_active(&state.specs[i].1, epoch) {
            best = match best {
                Some(b) => if b >= v {
                    Some(b)
                } else {
                    Some(v)
                },
                None => Some(v),
            };
        }
        i = i + 1;
    }
    assert(state.model().specs.take(n as int) =~= state.model().specs);
    match best {
        Some(v) => v,
        None => 0,
    }
}

/// The current welfare view: the snapshot of `epoch` under the greatest
/// active version, or the zero sentinel when there is none.
pub fn welfare_current(state: &WelfareState, epoch: EpochId, reserve_flag: bool) -> (r: WelfareView)
    ensures
        r == match state.model().current_view(epoch, spec_current_version(state.model(), epoch), reserve_flag) {
            Ok(v) => v,
            Err(_) => spec_welfare_sentinel(epoch, spec_current_version(state.model(), epoch), reserve_flag),
        },
{
    let version = current_spec_version(state, epoch);
    match state.current_view(epoch, version, reserve_flag) {
        Ok(v) => v,
        Err(_) => welfare_sentinel(epoch, version, reserve_flag),
    }
}

/// A market quote.
#[derive(Clone, Copy, Debug, PartialEq, Eq, Structural)]
pub struct QuoteView {
    pub cost: Balance,
    pub fee: Balance,
    pub p_after_1e9: FixedU64,
    pub max_trade: Balance,
    pub within_domain: bool,
}

/// The zero quote, keeping the book's maximum trade.
pub open spec fn spec_quote_sentinel(max_trade: Balance) -> QuoteView {
    QuoteView { cost: 0, fee: 0, p_after_1e9: FixedU64(0), max_trade, within_domain: false }
}

/// The zero quote of a book with the given maximum trade.
pub fn quote_sentinel(max_trade: Balance) -> (r: QuoteView)
    ensures
        r == spec_quote_sentinel(max_trade),
{
    QuoteView { cost: 0, fee: 0, p_after_1e9: FixedU64(0), max_trade, within_domain: false }
}

/// The quote shown for a market: the zero quote with no maximum when the
/// book is missing; the book's quote when it has one; otherwise the zero
/// quote keeping the book's maximum trade.
pub fn quote(book_max_trade: Option<Balance>, quoted: Option<QuoteView>) -> (r: QuoteView)
    ensures
        r == match book_max_trade {
            None => spec_quote_sentinel(0),
            Some(max_trade) => match quoted {
                Some(q) => q,
                None => spec_quote_sentinel(max_trade),
            },
        },
{
    match book_max_trade {
        None => quote_sentinel(0),
        Some(max_trade) => match quoted {
            Some(q) => q,
            None => quote_sentinel(max_trade),
        },
    }
}

/// A bounded list holds the whole list when it fits, and nothing otherwise.
pub open spec fn spec_bound_or_empty<T>(items: Seq<T>, bound: nat) -> Seq<T> {
    if items.len() <= bound {
        items
    } else {
        Seq::empty()
    }
}

/// Converts a list to a bounded list: kept whole when it fits, emptied
/// otherwise.
pub fn bound_or_empty<T>(items: Vec<T>, bound: usize) -> (r: Vec<T>)
    ensures
        r@ == spec_bound_or_empty(items@, bound as nat),
{
    if items.len() <= bound {
        items
    } else {
        Vec::new()
    }
}

/// The non-zero entries of a list, in order, up to `bound` of them.
pub open spec fn nonzero_prefix<T>(entries: Seq<(Balance, T)>, bound: nat) -> Seq<(Balance, T)>
    decreases entries.len(),
{
    if entries.len() == 0 || bound == 0 {
        Seq::empty()
    } else if entries[0].0 == 0 {
        nonzero_prefix(entries.drop_first(), bound)
    } else {
        seq![entries[0]] + nonzero_prefix(entries.drop_first(), (bound - 1) as nat)
    }
}

/// Pushes a position of an account onto its list: a zero balance is skipped,
/// a full list refuses it. Returns whether listing may go on.
pub fn push_position<T>(out: &mut Vec<(Balance, T)>, balance: Balance, view: T) -> (r: bool)
    ensures
        balance == 0 ==> r && final(out)@ == old(out)@,
        balance != 0 && old(out)@.len() >= MAX_ACCOUNT_POSITIONS ==> !r && final(out)@ == old(out)@,
        balance != 0 && old(out)@.len() < MAX_ACCOUNT_POSITIONS ==> r && final(out)@ == old(out)@.push(
            (balance, view),
        ),
{
    if balance == 0 {
        return true;
    }
    if out.len() >= MAX_ACCOUNT_POSITIONS {
        return false;
    }
    out.push((balance, view));
    true
}

/// The positions of an account, in the canonical order of `entries`: those
/// with a non-zero balance, truncated to the first `MAX_ACCOUNT_POSITIONS`.
pub fn account_positions<T>(entries: Vec<(Balance, T)>) -> (r: Vec<(Balance, T)>)
    ensures
        r@ == nonzero_prefix(entries@, MAX_ACCOUNT_POSITIONS as nat),
{
    let mut out: Vec<(Balance, T)> = Vec::new();
    let mut rest = entries;
    let ghost all = rest@;
    while rest.len() > 0
        invariant
            all == entries@,
            out@.len() <= MAX_ACCOUNT_POSITIONS,
            out@ + nonzero_prefix(rest@, (MAX_ACCOUNT_POSITIONS - out@.len()) as nat) == nonzero_prefix(
                all,
                MAX_ACCOUNT_POSITIONS as nat,
            ),
        decreases rest@.len(),
    {
        let ghost tail = rest@;
        let (balance, view) = rest.remove(0);
        assert(rest@ =~= tail.drop_first());
        if out.len() >= MAX_ACCOUNT_POSITIONS {
            assert(nonzero_prefix(tail, 0) =~= Seq::<(Balance, T)>::empty());
            assert(out@ + Seq::<(Balance, T)>::empty() =~= out@);
            return out;
        }
        let ghost before = out@;
        let go_on = push_position(&mut out, balance, view);
        if balance != 0 {
            assert(before + nonzero_prefix(tail, (MAX_ACCOUNT_POSITIONS - before.len()) as nat) =~= out@
                + nonzero_prefix(rest@, (MAX_ACCOUNT_POSITIONS - out@.len()) as nat));
        }
    }
    assert(nonzero_prefix(rest@, (MAX_ACCOUNT_POSITIONS - out@.len()) as nat) =~= Seq::<
        (Balance, T),
    >::empty());
    assert(out@ + Seq::<(Balance, T)>::empty() =~= out@);
    out
}

/// Cooldown of a parameter in blocks: zero without a cooldown; otherwise its
/// cooldown epochs times the live epoch length, saturating at `u32::MAX`,
/// and `u32::MAX` when the epoch length is unknown.
pub open spec fn spec_cooldown_blocks(cooldown_epochs: u32, epoch_length: Option<u32>) -> u32 {
    if cooldown_epochs == 0 {
        0
    } else {
        match epoch_length {
            Some(length) => if cooldown_epochs * length > u32::MAX {
                u32::MAX
            } else {
                (cooldown_epochs * length) as u32
            },
            None => u32::MAX,
        }
    }
}

/// Computes a parameter's cooldown in blocks.
pub fn cooldown_blocks(cooldown_epochs: u32, epoch_length: Option<u32>) -> (r: u32)
    ensures
        r == spec_cooldown_blocks(cooldown_epochs, epoch_length),
{
    if cooldown_epochs == 0 {
        return 0;
    }
    match epoch_length {
        Some(length) => match cooldown_epochs.checked_mul(length) {
            Some(v) => v,
            None => u32::MAX,
        },
        None => u32::MAX,
    }
}

/// Class of a constitutional parameter.
#[derive(Clone, Copy, Debug, PartialEq, Eq, Structural)]
pub enum ParamClass {
    Param,
    Treasury,
    Meta,
    Const,
    Entrenched,
    MetaAndValues,
}

/// The proposal class that may change a parameter of the given class:
/// constant, entrenched and values parameters are constitutional.
pub open spec fn spec_param_class(value: ParamClass) -> ProposalClass {
    match value {
        ParamClass::Param => ProposalClass::Param,
        ParamClass::Treasury => ProposalClass::Treasury,
        ParamClass::Meta => ProposalClass::Meta,
        _ => ProposalClass::Constitutional,
    }
}

/// Maps a parameter class to the proposal class that may change it.
pub fn param_class(value: ParamClass) -> (r: ProposalClass)
    ensures
        r == spec_param_class(value),
{
    match value {
        ParamClass::Param => ProposalClass::Param,
        ParamClass::Treasury => ProposalClass::Treasury,
        ParamClass::Meta => ProposalClass::Meta,
        ParamClass::Const | ParamClass::Entrenched | ParamClass::MetaAndValues => {
            ProposalClass::Constitutional
        },
    }
}

/// Key of an oracle round: the component, epoch and specification version
/// that it reports on.
#[derive(Clone, Copy, Debug, PartialEq, Eq, Structural)]
pub struct RoundKey {
    pub component: crate::primitives::MetricId,
    pub epoch: EpochId,
    pub spec_version: MetricSpecVersion,
}

/// Lexicographic order of round keys.
pub open spec fn key_le(a: RoundKey, b: RoundKey) -> bool {
    a.component < b.component || (a.component == b.component && (a.epoch < b.epoch || (a.epoch
        == b.epoch && a.spec_version <= b.spec_version)))
}

/// Whether `a` comes after `b`.
fn key_gt(a: RoundKey, b: RoundKey) -> (r: bool)
    ensures
        r == !key_le(a, b),
{
    if a.component != b.component {
        return a.component > b.component;
    }
    if a.epoch != b.epoch {
        return a.epoch > b.epoch;
    }
    a.spec_version > b.spec_version
}

/// Inserts `x` after every element whose key is at most its own.
pub open spec fn insert_by_key<T>(sorted: Seq<(RoundKey, T)>, x: (RoundKey, T)) -> Seq<(RoundKey, T)>
    decreases sorted.len(),
{
    if sorted.len() == 0 {
        seq![x]
    } else if key_le(sorted.last().0, x.0) {
        sorted.push(x)
    } else {
        insert_by_key(sorted.drop_last(), x).push(sorted.last())
    }
}

/// The rounds ordered by key, keeping the given order among equal keys.
pub open spec fn sort_by_key<T>(s: Seq<(RoundKey, T)>) -> Seq<(RoundKey, T)>
    decreases s.len(),
{
    if s.len() == 0 {
        s
    } else {
        insert_by_key(sort_by_key(s.drop_last()), s.last())
    }
}

proof fn lemma_insert_by_key<T>(sorted: Seq<(RoundKey, T)>, x: (RoundKey, T), j: int)
    requires
        0 <= j <= sorted.len(),
        forall|k: int| j <= k < sorted.len() ==> !key_le((#[trigger] sorted[k]).0, x.0),
        j == 0 || key_le(sorted[j - 1].0, x.0),
    ensures
        insert_by_key(sorted, x) == sorted.insert(j, x),
    decreases sorted.len(),
{
    if sorted.len() == 0 {
        assert(sorted.insert(j, x) =~= seq![x]);
    } else if j == sorted.len() {
        assert(sorted.insert(j, x) =~= sorted.push(x));
    } else {
        let d = sorted.drop_last();
        assert forall|k: int| j <= k < d.len() implies !key_le((#[trigger] d[k]).0, x.0) by {
            assert(d[k] == sorted[k]);
        }
        lemma_insert_by_key(d, x, j);
        assert(d.insert(j, x).push(sorted.last()) =~= sorted.insert(j, x));
    }
}

proof fn lemma_insert_by_key_len<T>(sorted: Seq<(RoundKey, T)>, x: (RoundKey, T))
    ensures
        insert_by_key(sorted, x).len() == sorted.len() + 1,
    decreases sorted.len(),
{
    if sorted.len() > 0 && !key_le(sorted.last().0, x.0) {
        lemma_insert_by_key_len(sorted.drop_last(), x);
    }
}

/// Sorting keeps the length.
pub proof fn lemma_sort_by_key_len<T>(s: Seq<(RoundKey, T)>)
    ensures
        sort_by_key(s).len() == s.len(),
    decreases s.len(),
{
    if s.len() > 0 {
        lemma_sort_by_key_len(s.drop_last());
        lemma_insert_by_key_len(sort_by_key(s.drop_last()), s.last());
    }
}

/// The open oracle rounds in key order, truncated to the first
/// `MAX_OPEN_ORACLE_ROUNDS`.
pub fn order_open_rounds<T>(rounds: Vec<(RoundKey, T)>) -> (r: Vec<(RoundKey, T)>)
    ensures
        r@ == sort_by_key(rounds@).take(
            if rounds@.len() <= MAX_OPEN_ORACLE_ROUNDS {
                rounds@.len() as int
            } else {
                MAX_OPEN_ORACLE_ROUNDS as int
            },
        ),
{
    let mut out: Vec<(RoundKey, T)> = Vec::new();
    let mut rest = rounds;
    let ghost all = rest@;
    let mut consumed: usize = 0;
    let total = rest.len();
    assert(all.take(0) =~= Seq::<(RoundKey, T)>::empty());
    while rest.len() > 0
        invariant
            all == rounds@,
            all.len() == total,
            consumed + rest@.len() == all.len(),
            rest@ == all.subrange(consumed as int, all.len() as int),
            out@ == sort_by_key(all.take(consumed as int)),
        decreases rest@.len(),
    {
        let ghost before = rest@;
        let x = rest.remove(0);
        assert(rest@ =~= all.subrange(consumed + 1, all.len() as int));
        let mut j: usize = out.len();
        while j > 0 && key_gt(out[j - 1].0, x.0)
            invariant
                j <= out@.len(),
                forall|k: int| j <= k < out@.len() ==> !key_le((#[trigger] out@[k]).0, x.0),
            decreases j,
        {
            j = j - 1;
        }
        proof {
            lemma_insert_by_key(out@, x, j as int);
            assert(all.take(consumed + 1).drop_last() =~= all.take(consumed as int));
            assert(all.take(consumed + 1).last() == x);
        }
        out.insert(j, x);
        consumed = consumed + 1;
    }
    assert(all.take(all.len() as int) =~= all);
    proof {
        lemma_sort_by_key_len(all);
    }
    out.truncate(MAX_OPEN_ORACLE_ROUNDS);
    assert(out@ =~= sort_by_key(all).take(
        if all.len() <= MAX_OPEN_ORACLE_ROUNDS {
            all.len() as int
        } else {
            MAX_OPEN_ORACLE_ROUNDS as int
        },
    ));
    out
}

/// Most executions listed in the queue view.
pub const MAX_LIVE_PROPOSALS: usize = 32;

/// The execution queue view: the guard's queued executions in queue order,
/// truncated to the first `MAX_LIVE_PROPOSALS`.
pub fn execution_queue(guard: &ExecutionGuard) -> (r: Vec<QueuedExecutionView>)
    ensures
        r@.len() == if guard.queue@.len() <= MAX_LIVE_PROPOSALS {
            guard.queue@.len()
        } else {
            MAX_LIVE_PROPOSALS as nat
        },
        forall|i: int| 0 <= i < r@.len() ==> #[trigger] queued_view_of(
            r@[i],
            guard.queue@[i],
            guard.blocked_meters@,
        ),
{
    let mut out = guard.view();
    out.truncate(MAX_LIVE_PROPOSALS);
    out
}

/// The welfare view of the runtime state model: the snapshot of `epoch`
/// under version zero, or the zero sentinel.
pub fn runtime_welfare_current(state: &WelfareState, epoch: EpochId, reserve_flag: bool) -> (r:
    WelfareView)
    ensures
        r == match state.model().current_view(epoch, 0, reserve_flag) {
            Ok(v) => v,
            Err(_) => spec_welfare_sentinel(epoch, 0, reserve_flag),
        },
{
    match state.current_view(epoch, 0, reserve_flag) {
        Ok(v) => v,
        Err(_) => welfare_sentinel(epoch, 0, reserve_flag),
    }
}

/// Most parameter keys asked for at once.
pub const MAX_PARAM_KEYS: usize = 64;

/// A stored constitutional parameter, its values widened to `u128`.
#[derive(Clone, Copy, Debug, PartialEq, Eq)]
pub struct StoredParam {
    pub value: u128,
    pub min: u128,
    pub max: u128,
    /// The largest step allowed from the current value (zero: no per-step
    /// rule), or `None` for a malformed record.
    pub max_delta: Option<u128>,
    pub cooldown_epochs: u32,
    pub last_change_block: BlockNumber,
    pub class: ParamClass,
}

/// Read-only view of a constitutional parameter.
#[derive(Clone, Copy, Debug, PartialEq, Eq)]
pub struct ParamView {
    pub key: ParamKey,
    pub value: u128,
    pub min: u128,
    pub max: u128,
    pub max_delta: u128,
    pub cooldown_blocks: u32,
    pub last_change: BlockNumber,
    pub class: ProposalClass,
}

/// The view of a well-formed stored parameter.
pub open spec fn spec_param_view(key: ParamKey, p: StoredParam, max_delta: u128, epoch_length: Option<
    u32,
>) -> ParamView {
    ParamView {
        key,
        value: p.value,
        min: p.min,
        max: p.max,
        max_delta,
        cooldown_blocks: spec_cooldown_blocks(p.cooldown_epochs, epoch_length),
        last_change: p.last_change_block,
        class: spec_param_class(p.class),
    }
}

/// The views of the requested parameters, in request order: unknown keys and
/// malformed records are skipped.
pub open spec fn spec_params(entries: Seq<(ParamKey, Option<StoredParam>)>, epoch_length: Option<
    u32,
>) -> Seq<ParamView>
    decreases entries.len(),
{
    if entries.len() == 0 {
        Seq::empty()
    } else {
        let rest = spec_params(entries.drop_last(), epoch_length);
        match entries.last().1 {
            Some(p) => match p.max_delta {
                Some(d) => rest.push(spec_param_view(entries.last().0, p, d, epoch_length)),
                None => rest,
            },
            None => rest,
        }
    }
}

/// No more views than keys asked for.
pub proof fn lemma_params_len(entries: Seq<(ParamKey, Option<StoredParam>)>, epoch_length: Option<u32>)
    ensures
        spec_params(entries, epoch_length).len() <= entries.len(),
    decreases entries.len(),
{
    if entries.len() > 0 {
        lemma_params_len(entries.drop_last(), epoch_length);
    }
}

/// The parameter views of the requested keys, in request order with
/// duplicates kept. `entries[i]` is the `i`-th key asked for with its stored
/// record, if any; `epoch_length` is the live epoch length, if readable.
pub fn params(entries: &Vec<(ParamKey, Option<StoredParam>)>, epoch_length: Option<u32>) -> (r: Vec<
    ParamView,
>)
    requires
        entries@.len() <= MAX_PARAM_KEYS,
    ensures
        r@ == spec_params(entries@, epoch_length),
        r@.len() <= MAX_PARAM_KEYS,
{
    let mut out: Vec<ParamView> = Vec::new();
    let n = entries.len();
    let mut i: usize = 0;
    while i < n
        invariant
            n == entries@.len(),
            i <= n,
            out@ == spec_params(entries@.take(i as int), epoch_length),
        decreases n - i,
    {
        let (key, record) = entries[i];
        assert(entries@.take(i + 1).drop_last() =~= entries@.take(i as int));
        assert(entries@.take(i + 1).last() == entries@[i as int]);
        match record {
            Some(p) => match p.max_delta {
                Some(d) => {
                    out.push(
                        ParamView {
                            key,
                            value: p.value,
                            min: p.min,
                            max: p.max,
                            max_delta: d,
                            cooldown_blocks: cooldown_blocks(p.cooldown_epochs, epoch_length),
                            last_change: p.last_change_block,
                            class: param_class(p.class),
                        },
                    );
                },
                None => {},
            },
            None => {},
        }
        i = i + 1;
    }
    assert(entries@.take(n as int) =~= entries@);
    proof {
        lemma_params_len(entries@, epoch_length);
    }
    out
}

/// The treasury figures that the NAV view is assembled from.
#[derive(Clone, Copy, Debug, PartialEq, Eq)]
pub struct NavParts {
    pub total: Balance,
    pub main: Balance,
    pub proposal_pol: Balance,
    pub baseline_pol: Balance,
    pub insurance: Balance,
    pub keeper: Balance,
    pub oracle: Balance,
    pub rewards: Balance,
    pub stream_remainders: Balance,
    pub obligations: Balance,
    pub haircut_flag: bool,
    pub spendable_nav: Balance,
    pub meter_utilization_bps: u32,
    /// Class floors of parameter, treasury, code and meta proposals.
    pub class_floors: [Balance; 4],
}

/// Read-only view of the treasury's net asset value.
#[derive(Clone, Copy, Debug, PartialEq, Eq)]
pub struct NavView {
    pub total: Balance,
    pub main: Balance,
    pub pol: Balance,
    pub insurance: Balance,
    pub keeper: Balance,
    pub oracle: Balance,
    pub rewards: Balance,
    pub stream_remainders: Balance,
    pub obligations: Balance,
    pub haircut_flag: bool,
    pub spendable_nav: Balance,
    pub meter_utilization_bps: u32,
    pub class_floors: [Balance; 4],
}

/// Sum of two balances, saturating at `u128::MAX`.
pub open spec fn saturating_sum(a: Balance, b: Balance) -> Balance {
    if a + b > u128::MAX {
        u128::MAX
    } else {
        (a + b) as u128
    }
}

/// The NAV view: protocol-owned liquidity counts the proposal and the
/// baseline lines together (saturating); every other figure is shown as read.
pub fn nav(parts: NavParts) -> (r: NavView)
    ensures
        r == (NavView {
            total: parts.total,
            main: parts.main,
            pol: saturating_sum(parts.proposal_pol, parts.baseline_pol),
            insurance: parts.insurance,
            keeper: parts.keeper,
            oracle: parts.oracle,
            rewards: parts.rewards,
            stream_remainders: parts.stream_remainders,
            obligations: parts.obligations,
            haircut_flag: parts.haircut_flag,
            spendable_nav: parts.spendable_nav,
            meter_utilization_bps: parts.meter_utilization_bps,
            class_floors: parts.class_floors,
        }),
{
    NavView {
        total: parts.total,
        main: parts.main,
        pol: parts.proposal_pol.saturating_add(parts.baseline_pol),
        insurance: parts.insurance,
        keeper: parts.keeper,
        oracle: parts.oracle,
        rewards: parts.rewards,
        stream_remainders: parts.stream_remainders,
        obligations: parts.obligations,
        haircut_flag: parts.haircut_flag,
        spendable_nav: parts.spendable_nav,
        meter_utilization_bps: parts.meter_utilization_bps,
        class_floors: parts.class_floors,
    }
}

/// An open oracle round as stored.
#[derive(Clone, Copy, Debug, PartialEq, Eq)]
pub struct OracleRound {
    pub component: MetricId,
    pub epoch: EpochId,
    pub spec_version: MetricSpecVersion,
    pub round: u32,
    pub reporter: [u8; 32],
    pub value: FixedU64,
    pub evidence_hash: H256,
    pub bond: Balance,
    pub challenge_deadline: BlockNumber,
    pub acks: u32,
}

/// Read-only view of an open oracle round.
#[derive(Clone, Copy, Debug, PartialEq, Eq)]
pub struct OracleRoundView {
    pub component: MetricId,
    pub epoch: EpochId,
    pub spec_version: MetricSpecVersion,
    pub round: u32,
    pub reporter: [u8; 32],
    pub value_1e9: FixedU64,
    pub evidence_hash: H256,
    pub bond: Balance,
    pub challenge_deadline: BlockNumber,
    pub acked_by_watchtowers: u32,
    pub escalated: bool,
}

/// The key a round is ordered by.
pub open spec fn round_key(r: OracleRound) -> RoundKey {
    RoundKey { component: r.component, epoch: r.epoch, spec_version: r.spec_version }
}

/// The view of a round: escalated once a prior round advanced the game.
pub open spec fn spec_round_view(r: OracleRound) -> OracleRoundView {
    OracleRoundView {
        component: r.component,
        epoch: r.epoch,
        spec_version: r.spec_version,
        round: r.round,
        reporter: r.reporter,
        value_1e9: r.value,
        evidence_hash: r.evidence_hash,
        bond: r.bond,
        challenge_deadline: r.challenge_deadline,
        acked_by_watchtowers: r.acks,
        escalated: r.round > 1,
    }
}

/// The rounds paired with their keys.
pub open spec fn keyed_rounds(rounds: Seq<OracleRound>) -> Seq<(RoundKey, OracleRound)> {
    rounds.map_values(|r: OracleRound| (round_key(r), r))
}

/// The open oracle rounds' views, ordered by (component, epoch, version) and
/// truncated to the first `MAX_OPEN_ORACLE_ROUNDS`.
pub fn open_oracle_rounds(rounds: Vec<OracleRound>) -> (r: Vec<OracleRoundView>)
    ensures
        r@ == sort_by_key(keyed_rounds(rounds@)).take(
            if rounds@.len() <= MAX_OPEN_ORACLE_ROUNDS {
                rounds@.len() as int
            } else {
                MAX_OPEN_ORACLE_ROUNDS as int
            },
        ).map_values(|e: (RoundKey, OracleRound)| spec_round_view(e.1)),
{
    let n = rounds.len();
    let mut keyed: Vec<(RoundKey, OracleRound)> = Vec::new();
    let mut i: usize = 0;
    while i < n
        invariant
            n == rounds@.len(),
            i <= n,
            keyed@.len() == i,
            forall|j: int| 0 <= j < i ==> #[trigger] keyed@[j] == (round_key(rounds@[j]), rounds@[j]),
        decreases n - i,
    {
        let r = rounds[i];
        keyed.push((RoundKey { component: r.component, epoch: r.epoch, spec_version: r.spec_version }, r));
        i = i + 1;
    }
    assert(keyed@ =~= keyed_rounds(rounds@));
    let ordered = order_open_rounds(keyed);
    let m = ordered.len();
    let mut out: Vec<OracleRoundView> = Vec::new();
    let mut k: usize = 0;
    while k < m
        invariant
            m == ordered@.len(),
            k <= m,
            out@.len() == k,
            forall|j: int| 0 <= j < k ==> #[trigger] out@[j] == spec_round_view(ordered@[j].1),
        decreases m - k,
    {
        let r = ordered[k].1;
        out.push(
            OracleRoundView {
                component: r.component,
                epoch: r.epoch,
                spec_version: r.spec_version,
                round: r.round,
                reporter: r.reporter,
                value_1e9: r.value,
                evidence_hash: r.evidence_hash,
                bond: r.bond,
                challenge_deadline: r.challenge_deadline,
                acked_by_watchtowers: r.acks,
                escalated: r.round > 1,
            },
        );
        k = k + 1;
    }
    assert(out@ =~= ordered@.map_values(|e: (RoundKey, OracleRound)| spec_round_view(e.1)));
    out
}

/// The vault that a position belongs to: a proposal's, or an epoch's
/// baseline vault.
#[derive(Clone, Copy, Debug, PartialEq, Eq, Structural)]
pub enum VaultKey {
    Proposal(ProposalId),
    Baseline(EpochId),
}

/// Matches the vault of a proposal.
pub open spec fn proposal_vault_is<S>(id: ProposalId) -> spec_fn((ProposalId, S)) -> bool {
    |e: (ProposalId, S)| e.0 == id
}

/// Matches the baseline vault of an epoch.
pub open spec fn baseline_vault_is<S>(epoch: EpochId) -> spec_fn((EpochId, S)) -> bool {
    |e: (EpochId, S)| e.0 == epoch
}

/// The state shown for a position: that of the first vault with its key, or
/// `open_state` where there is none.
pub open spec fn spec_vault_state_for<S>(
    key: VaultKey,
    proposal_vaults: Seq<(ProposalId, S)>,
    baseline_vaults: Seq<(EpochId, S)>,
    open_state: S,
) -> S {
    match key {
        VaultKey::Proposal(p) => match first_match(proposal_vaults, proposal_vault_is(p)) {
            Some(i) => proposal_vaults[i].1,
            None => open_state,
        },
        VaultKey::Baseline(e) => match first_match(baseline_vaults, baseline_vault_is(e)) {
            Some(i) => baseline_vaults[i].1,
            None => open_state,
        },
    }
}

/// The state of a position's vault. Baseline vault states come already in
/// the form shown for proposal vaults; `open_state` is the open state.
pub fn vault_state_for<S: Copy>(
    key: VaultKey,
    proposal_vaults: &Vec<(ProposalId, S)>,
    baseline_vaults: &Vec<(EpochId, S)>,
    open_state: S,
) -> (r: S)
    ensures
        r == spec_vault_state_for(key, proposal_vaults@, baseline_vaults@, open_state),
{
    match key {
        VaultKey::Proposal(p) => {
            let n = proposal_vaults.len();
            let mut i: usize = 0;
            while i < n
                invariant
                    n == proposal_vaults@.len(),
                    i <= n,
                    key == VaultKey::Proposal(p),
                    forall|j: int| 0 <= j < i ==> !proposal_vault_is::<S>(p)(#[trigger] proposal_vaults@[j]),
                decreases n - i,
            {
                let entry = proposal_vaults[i];
                if entry.0 == p {
                    assert(proposal_vault_is::<S>(p)(proposal_vaults@[i as int]));
                    proof {
                        lemma_first_match(proposal_vaults@, proposal_vault_is::<S>(p), i as int);
                    }
                    return entry.1;
                }
                i = i + 1;
            }
            proof {
                lemma_first_match(proposal_vaults@, proposal_vault_is::<S>(p), n as int);
            }
            open_state
        },
        VaultKey::Baseline(e) => {
            let n = baseline_vaults.len();
            let mut i: usize = 0;
            while i < n
                invariant
                    n == baseline_vaults@.len(),
                    i <= n,
                    key == VaultKey::Baseline(e),
                    forall|j: int| 0 <= j < i ==> !baseline_vault_is::<S>(e)(#[trigger] baseline_vaults@[j]),
                decreases n - i,
            {
                let entry = baseline_vaults[i];
                if entry.0 == e {
                    assert(baseline_vault_is::<S>(e)(baseline_vaults@[i as int]));
                    proof {
                        lemma_first_match(baseline_vaults@, baseline_vault_is::<S>(e), i as int);
                    }
                    return entry.1;
                }
                i = i + 1;
            }
            proof {
                lemma_first_match(baseline_vaults@, baseline_vault_is::<S>(e), n as int);
            }
            open_state
        },
    }
}

/// Branch of a proposal's decision market.
#[derive(Clone, Copy, Debug, PartialEq, Eq, Structural)]
pub enum Branch {
    Accept,
    Reject,
}

/// State of a baseline vault: open, or settled at a scalar `s`.
#[derive(Clone, Copy, Debug, PartialEq, Eq)]
pub enum BaselineState<T> {
    Open,
    Settled(T),
}

/// The vault state shown with a position: a proposal vault's own state, or
/// the proposal-vault form of a baseline vault's state.
#[derive(Clone, Copy, Debug, PartialEq, Eq)]
pub enum ShownVaultState<S, T> {
    Proposal(S),
    Open,
    ScalarSettled { winner: Branch, s: T },
}

/// A baseline vault's state in the proposal-vault form: open stays open, and
/// a settlement at `s` is shown as a scalar settlement with the accept
/// branch standing in as winner (a baseline instrument has no branch).
pub open spec fn spec_baseline_shown<S, T>(b: BaselineState<T>) -> ShownVaultState<S, T> {
    match b {
        BaselineState::Open => ShownVaultState::Open,
        BaselineState::Settled(s) => ShownVaultState::ScalarSettled { winner: Branch::Accept, s },
    }
}

/// Shows a baseline vault's state in the proposal-vault form.
pub fn baseline_shown<S, T: Copy>(b: &BaselineState<T>) -> (r: ShownVaultState<S, T>)
    ensures
        r == spec_baseline_shown::<S, T>(*b),
{
    match b {
        BaselineState::Open => ShownVaultState::Open,
        BaselineState::Settled(s) => ShownVaultState::ScalarSettled { winner: Branch::Accept, s: *s },
    }
}

/// A vault keyed for ordering, with its shown state and the account's
/// holdings in it: each position, in the vault's canonical instrument
/// order, with its balance.
pub type KeyedVault<P, S, T> = (u64, (ShownVaultState<S, T>, Vec<(P, Balance)>));

/// Inserts `x` after every element whose key is at most its own.
pub open spec fn insert_by_u64<V>(sorted: Seq<(u64, V)>, x: (u64, V)) -> Seq<(u64, V)>
    decreases sorted.len(),
{
    if sorted.len() == 0 {
        seq![x]
    } else if sorted.last().0 <= x.0 {
        sorted.push(x)
    } else {
        insert_by_u64(sorted.drop_last(), x).push(sorted.last())
    }
}

/// The elements ordered by key, keeping the given order among equal keys.
pub open spec fn sort_by_u64<V>(s: Seq<(u64, V)>) -> Seq<(u64, V)>
    decreases s.len(),
{
    if s.len() == 0 {
        s
    } else {
        insert_by_u64(sort_by_u64(s.drop_last()), s.last())
    }
}

proof fn lemma_insert_by_u64<V>(sorted: Seq<(u64, V)>, x: (u64, V), j: int)
    requires
        0 <= j <= sorted.len(),
        forall|k: int| j <= k < sorted.len() ==> (#[trigger] sorted[k]).0 > x.0,
        j == 0 || sorted[j - 1].0 <= x.0,
    ensures
        insert_by_u64(sorted, x) == sorted.insert(j, x),
    decreases sorted.len(),
{
    if sorted.len() == 0 {
        assert(sorted.insert(j, x) =~= seq![x]);
    } else if j == sorted.len() {
        assert(sorted.insert(j, x) =~= sorted.push(x));
    } else {
        let d = sorted.drop_last();
        assert forall|k: int| j <= k < d.len() implies (#[trigger] d[k]).0 > x.0 by {
            assert(d[k] == sorted[k]);
        }
        lemma_insert_by_u64(d, x, j);
        assert(d.insert(j, x).push(sorted.last()) =~= sorted.insert(j, x));
    }
}

/// Inserts `x` into a list ordered by key, after every element whose key is
/// at most its own.
fn insert_sorted<V>(out: &mut Vec<(u64, V)>, x: (u64, V))
    ensures
        final(out)@ == insert_by_u64(old(out)@, x),
{
    let mut j: usize = out.len();
    while j > 0 && out[j - 1].0 > x.0
        invariant
            j <= out@.len(),
            forall|k: int| j <= k < out@.len() ==> (#[trigger] out@[k]).0 > x.0,
        decreases j,
    {
        j = j - 1;
    }
    proof {
        lemma_insert_by_u64(out@, x, j as int);
    }
    out.insert(j, x);
}

/// The proposal vaults keyed by proposal id, each shown with its own state.
pub open spec fn proposal_keyed<P, S, T>(vaults: Seq<(ProposalId, S, Vec<(P, Balance)>)>) -> Seq<
    KeyedVault<P, S, T>,
> {
    vaults.map_values(
        |v: (ProposalId, S, Vec<(P, Balance)>)|
            (v.0, (ShownVaultState::<S, T>::Proposal(v.1), v.2)),
    )
}

/// The baseline vaults keyed by epoch, each shown in the proposal-vault form.
pub open spec fn baseline_keyed<P, S, T>(vaults: Seq<(EpochId, BaselineState<T>, Vec<(P, Balance)>)>) -> Seq<
    KeyedVault<P, S, T>,
> {
    vaults.map_values(
        |v: (EpochId, BaselineState<T>, Vec<(P, Balance)>)|
            (v.0 as u64, (spec_baseline_shown::<S, T>(v.1), v.2)),
    )
}

/// The holdings of one vault as listed: balance, then position and state.
pub open spec fn holdings_entries<P, S, T>(h: Seq<(P, Balance)>, state: ShownVaultState<S, T>) -> Seq<
    (Balance, (P, ShownVaultState<S, T>)),
> {
    h.map_values(|e: (P, Balance)| (e.1, (e.0, state)))
}

/// The holdings of the vaults, vault after vault.
pub open spec fn vault_entries<P, S, T>(vaults: Seq<KeyedVault<P, S, T>>) -> Seq<
    (Balance, (P, ShownVaultState<S, T>)),
>
    decreases vaults.len(),
{
    if vaults.len() == 0 {
        Seq::empty()
    } else {
        vault_entries(vaults.drop_last()) + holdings_entries(vaults.last().1.1@, vaults.last().1.0)
    }
}

/// Appends the holdings of the vaults, vault after vault.
fn append_vault_entries<P: Copy, S: Copy, T: Copy>(
    entries: &mut Vec<(Balance, (P, ShownVaultState<S, T>))>,
    vaults: Vec<KeyedVault<P, S, T>>,
)
    ensures
        final(entries)@ == old(entries)@ + vault_entries(vaults@),
{
    let ghost start = entries@;
    let ghost all = vaults@;
    let mut rest = vaults;
    let mut consumed: usize = 0;
    let total = rest.len();
    assert(all.take(0) =~= Seq::<KeyedVault<P, S, T>>::empty());
    assert(start + Seq::<(Balance, (P, ShownVaultState<S, T>))>::empty() =~= start);
    while rest.len() > 0
        invariant
            all.len() == total,
            consumed + rest@.len() == all.len(),
            rest@ == all.subrange(consumed as int, all.len() as int),
            entries@ == start + vault_entries(all.take(consumed as int)),
        decreases rest@.len(),
    {
        let v = rest.remove(0);
        assert(rest@ =~= all.subrange(consumed + 1, all.len() as int));
        let state = v.1.0;
        let holdings = v.1.1;
        let ghost before = entries@;
        let n = holdings.len();
        let mut i: usize = 0;
        assert(holdings@.take(0) =~= Seq::<(P, Balance)>::empty());
        assert(before + holdings_entries(holdings@.take(0), state) =~= before);
        while i < n
            invariant
                n == holdings@.len(),
                i <= n,
                entries@ == before + holdings_entries(holdings@.take(i as int), state),
            decreases n - i,
        {
            let (position, balance) = holdings[i];
            entries.push((balance, (position, state)));
            assert(holdings@.take(i + 1) =~= holdings@.take(i as int).push(holdings@[i as int]));
            assert(holdings_entries(holdings@.take(i + 1), state) =~= holdings_entries(
                holdings@.take(i as int),
                state,
            ).push((balance, (position, state))));
            i = i + 1;
        }
        assert(holdings@.take(n as int) =~= holdings@);
        assert(all.take(consumed + 1).drop_last() =~= all.take(consumed as int));
        assert(all.take(consumed + 1).last() == v);
        assert(entries@ =~= start + vault_entries(all.take(consumed + 1)));
        consumed = consumed + 1;
    }
    assert(all.take(all.len() as int) =~= all);
}

/// The positions of an account: the proposal vaults in ascending proposal
/// id, then the baseline vaults in ascending epoch, each vault's holdings in
/// its canonical instrument order with the vault's state (a baseline vault's
/// in the proposal-vault form); zero balances are skipped and the list is
/// cut after `MAX_ACCOUNT_POSITIONS` entries. Each vault comes with the
/// account's holdings in it, as the ledger reads them.
pub fn assemble_account_positions<P: Copy, S: Copy, T: Copy>(
    proposal_vaults: Vec<(ProposalId, S, Vec<(P, Balance)>)>,
    baseline_vaults: Vec<(EpochId, BaselineState<T>, Vec<(P, Balance)>)>,
) -> (r: Vec<(Balance, (P, ShownVaultState<S, T>))>)
    ensures
        r@ == nonzero_prefix(
            vault_entries(sort_by_u64(proposal_keyed::<P, S, T>(proposal_vaults@))) + vault_entries(
                sort_by_u64(baseline_keyed::<P, S, T>(baseline_vaults@)),
            ),
            MAX_ACCOUNT_POSITIONS as nat,
        ),
{
    let ghost pall = proposal_vaults@;
    let mut proposals: Vec<KeyedVault<P, S, T>> = Vec::new();
    let mut rest = proposal_vaults;
    let mut consumed: usize = 0;
    let total = rest.len();
    assert(proposal_keyed::<P, S, T>(pall.take(0)) =~= Seq::<KeyedVault<P, S, T>>::empty());
    while rest.len() > 0
        invariant
            pall.len() == total,
            consumed + rest@.len() == pall.len(),
            rest@ == pall.subrange(consumed as int, pall.len() as int),
            proposals@ == sort_by_u64(proposal_keyed::<P, S, T>(pall.take(consumed as int))),
        decreases rest@.len(),
    {
        let v = rest.remove(0);
        assert(rest@ =~= pall.subrange(consumed + 1, pall.len() as int));
        let (id, state, holdings) = v;
        let ghost keyed = proposal_keyed::<P, S, T>(pall.take(consumed + 1));
        assert(keyed.drop_last() =~= proposal_keyed::<P, S, T>(pall.take(consumed as int)));
        insert_sorted(&mut proposals, (id, (ShownVaultState::Proposal(state), holdings)));
        consumed = consumed + 1;
    }
    assert(pall.take(pall.len() as int) =~= pall);
    let ghost ball = baseline_vaults@;
    let mut baselines: Vec<KeyedVault<P, S, T>> = Vec::new();
    let mut rest = baseline_vaults;
    let mut consumed: usize = 0;
    let total = rest.len();
    assert(baseline_keyed::<P, S, T>(ball.take(0)) =~= Seq::<KeyedVault<P, S, T>>::empty());
    while rest.len() > 0
        invariant
            ball.len() == total,
            consumed + rest@.len() == ball.len(),
            rest@ == ball.subrange(consumed as int, ball.len() as int),
            baselines@ == sort_by_u64(baseline_keyed::<P, S, T>(ball.take(consumed as int))),
        decreases rest@.len(),
    {
        let v = rest.remove(0);
        assert(rest@ =~= ball.subrange(consumed + 1, ball.len() as int));
        let (epoch, state, holdings) = v;
        let shown = baseline_shown::<S, T>(&state);
        let ghost keyed = baseline_keyed::<P, S, T>(ball.take(consumed + 1));
        assert(keyed.drop_last() =~= baseline_keyed::<P, S, T>(ball.take(consumed as int)));
        insert_sorted(&mut baselines, (epoch as u64, (shown, holdings)));
        consumed = consumed + 1;
    }
    assert(ball.take(ball.len() as int) =~= ball);
    let mut entries: Vec<(Balance, (P, ShownVaultState<S, T>))> = Vec::new();
    append_vault_entries(&mut entries, proposals);
    append_vault_entries(&mut entries, baselines);
    assert(entries@ =~= vault_entries(sort_by_u64(proposal_keyed::<P, S, T>(pall))) + vault_entries(
        sort_by_u64(baseline_keyed::<P, S, T>(ball)),
    ));
    account_positions(entries)
}

} // verus!
