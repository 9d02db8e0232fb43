//! Runtime composition: the pallet sets, system call domains, the base call
//! filter's upgrade rule, fee and USDC configuration, genesis validation and
//! the filter's exhaustive call sample.

use vstd::prelude::*;
use crate::primitives::{Balance, BlockNumber, H256, ParamKey};
use crate::origins::{CallDomain, Origin, RuntimeCall};

verus! {

/// Runtime spec version.
pub const RUNTIME_SPEC_VERSION: u32 = 1;
/// Asset id of USDC among the foreign assets.
pub const USDC_ASSET_ID: u32 = 1;
/// Compact model of USDC's location: `Location { parents: 1, X3(Parachain(1000),
/// PalletInstance(50), GeneralIndex(1337)) }`.
pub const USDC_LOCATION: [u8; 32] = [
    1, 0, 0, 0, 232, 3, 0, 0, 50, 0, 0, 0, 57, 5, 0, 0, 0, 0, 0, 0, 0, 0, 0, 0, 0, 0, 0, 0, 0, 0,
    0, 0,
];
/// Parameter key of the VIT/USDC fee conversion rate (`fee.vit_usdc_rat`).
pub const FEE_VIT_USDC_RATE_KEY: ParamKey = [
    102, 101, 101, 46, 118, 105, 116, 95, 117, 115, 100, 99, 95, 114, 97, 116,
];

/// Pallets of the runtime.
#[derive(Clone, Copy, Debug, PartialEq, Eq, Structural)]
pub enum RuntimePallet {
    System,
    Timestamp,
    Balances,
    ForeignAssets,
    TransactionPayment,
    AssetTxPayment,
    Referenda,
    ConvictionVoting,
    Preimage,
    Scheduler,
    Utility,
    Proxy,
    Multisig,
    Migrations,
    MetadataHashExtension,
    Sudo,
    ParachainSystem,
    XcmpQueue,
    MessageQueue,
    Xcm,
    CollatorSelection,
    Session,
    Aura,
    Authorship,
    Constitution,
    ConditionalLedger,
    Market,
    Epoch,
    Welfare,
    Oracle,
    Registry,
    ExecutionGuard,
    FutarchyTreasury,
    Guardian,
    Attestor,
    Origins,
}

/// The standard pallets of the runtime.
pub const STANDARD_PALLETS: [RuntimePallet; 24] = [
    RuntimePallet::System,
    RuntimePallet::Timestamp,
    RuntimePallet::Balances,
    RuntimePallet::ForeignAssets,
    RuntimePallet::TransactionPayment,
    RuntimePallet::AssetTxPayment,
    RuntimePallet::Referenda,
    RuntimePallet::ConvictionVoting,
    RuntimePallet::Preimage,
    RuntimePallet::Scheduler,
    RuntimePallet::Utility,
    RuntimePallet::Proxy,
    RuntimePallet::Multisig,
    RuntimePallet::Migrations,
    RuntimePallet::MetadataHashExtension,
    RuntimePallet::Sudo,
    RuntimePallet::ParachainSystem,
    RuntimePallet::XcmpQueue,
    RuntimePallet::MessageQueue,
    RuntimePallet::Xcm,
    RuntimePallet::CollatorSelection,
    RuntimePallet::Session,
    RuntimePallet::Aura,
    RuntimePallet::Authorship,
];

/// The futarchy pallets of the runtime.
pub const CUSTOM_PALLETS: [RuntimePallet; 12] = [
    RuntimePallet::Constitution,
    RuntimePallet::ConditionalLedger,
    RuntimePallet::Market,
    RuntimePallet::Epoch,
    RuntimePallet::Welfare,
    RuntimePallet::Oracle,
    RuntimePallet::Registry,
    RuntimePallet::ExecutionGuard,
    RuntimePallet::FutarchyTreasury,
    RuntimePallet::Guardian,
    RuntimePallet::Attestor,
    RuntimePallet::Origins,
];

/// Calls of the system pallet.
#[derive(Clone, Copy, Debug, PartialEq, Eq, Structural)]
pub enum SystemCall {
    Remark,
    SetHeapPages,
    SetCode,
    SetCodeWithoutChecks,
    SetStorage,
    KillStorage,
    KillPrefix,
    AuthorizeUpgrade,
    AuthorizeUpgradeWithoutChecks,
    ApplyAuthorizedUpgrade,
}

/// Capability domain of a system call: remarks and the permissionless
/// application of an authorized upgrade are public, authorization is
/// internal-root, and every storage or code rewrite belongs to nobody.
pub open spec fn spec_system_domain(call: SystemCall) -> CallDomain {
    match call {
        SystemCall::Remark => CallDomain::Public,
        SystemCall::AuthorizeUpgrade => CallDomain::InternalRoot,
        SystemCall::ApplyAuthorizedUpgrade => CallDomain::Public,
        _ => CallDomain::Nobody,
    }
}

impl SystemCall {
    /// The capability domain of the call.
    pub fn domain(self) -> (r: CallDomain)
        ensures
            r == spec_system_domain(self),
    {
        match self {
            SystemCall::Remark => CallDomain::Public,
            SystemCall::AuthorizeUpgrade => CallDomain::InternalRoot,
            SystemCall::ApplyAuthorizedUpgrade => CallDomain::Public,
            SystemCall::SetHeapPages
            | SystemCall::SetCode
            | SystemCall::SetCodeWithoutChecks
            | SystemCall::SetStorage
            | SystemCall::KillStorage
            | SystemCall::KillPrefix
            | SystemCall::AuthorizeUpgradeWithoutChecks => CallDomain::Nobody,
        }
    }
}

/// A call as the runtime filter receives it.
#[derive(Debug, PartialEq, Eq)]
pub enum BleavitCall {
    System(SystemCall),
    Domain(CallDomain),
    Wrapped(RuntimeCall),
}

impl BleavitCall {
    /// The domain of the leaf call that the safety filter judges for a system
    /// or domain call; `None` for a wrapped call, which is judged as it is.
    pub fn leaf_domain(&self) -> (r: Option<CallDomain>)
        ensures
            r == match *self {
                BleavitCall::System(c) => Some(spec_system_domain(c)),
                BleavitCall::Domain(d) => Some(d),
                BleavitCall::Wrapped(_) => None::<CallDomain>,
            },
    {
        match self {
            BleavitCall::System(c) => Some(c.domain()),
            BleavitCall::Domain(d) => Some(*d),
            BleavitCall::Wrapped(_) => None,
        }
    }
}

/// A runtime upgrade authorized at the system level.
#[derive(Clone, Copy, Debug, PartialEq, Eq)]
pub struct PendingUpgrade {
    pub code_hash: H256,
    pub authorized_at: BlockNumber,
    pub applicable_at: BlockNumber,
}

/// Why the runtime filter refuses a call.
#[derive(Clone, Copy, Debug, PartialEq, Eq, Structural)]
pub enum RuntimeFilterError {
    SafetyFilter,
    PendingUpgradeMissing,
    PendingUpgradeTooEarly,
}

/// The runtime's base call filter.
pub struct BaseCallFilter;

/// What the base filter decides of a call at block `now`, given the safety
/// filter's verdict on it for the dispatching origin.
pub open spec fn spec_validate_at(
    call: BleavitCall,
    now: BlockNumber,
    pending_upgrade: Option<PendingUpgrade>,
    safety_admits: bool,
) -> Result<(), RuntimeFilterError> {
    if !safety_admits {
        Err(RuntimeFilterError::SafetyFilter)
    } else if call == BleavitCall::System(SystemCall::ApplyAuthorizedUpgrade) {
        match pending_upgrade {
            None => Err(RuntimeFilterError::PendingUpgradeMissing),
            Some(p) => if now < p.applicable_at {
                Err(RuntimeFilterError::PendingUpgradeTooEarly)
            } else {
                Ok(())
            },
        }
    } else {
        Ok(())
    }
}

impl BaseCallFilter {
    /// Validates a call at block `now`. `safety_admits` is the safety
    /// filter's verdict on the call for the dispatching origin (or for an
    /// unsigned call when there is none); the application of an authorized
    /// upgrade further needs a pending upgrade whose lead time has passed.
    pub fn validate_at(
        call: &BleavitCall,
        now: BlockNumber,
        pending_upgrade: Option<PendingUpgrade>,
        safety_admits: bool,
    ) -> (r: Result<(), RuntimeFilterError>)
        ensures
            r == spec_validate_at(*call, now, pending_upgrade, safety_admits),
    {
        if !safety_admits {
            return Err(RuntimeFilterError::SafetyFilter);
        }
        let is_apply = match call {
            BleavitCall::System(SystemCall::ApplyAuthorizedUpgrade) => true,
            _ => false,
        };
        if is_apply {
            let pending = match pending_upgrade {
                Some(p) => p,
                None => {
                    return Err(RuntimeFilterError::PendingUpgradeMissing);
                },
            };
            if now < pending.applicable_at {
                return Err(RuntimeFilterError::PendingUpgradeTooEarly);
            }
        }
        Ok(())
    }
}

/// Asset in which fees are paid.
#[derive(Clone, Copy, Debug, PartialEq, Eq, Structural)]
pub enum FeeAsset {
    Vit,
    Usdc,
}

/// Fee configuration.
#[derive(Clone, Copy, Debug, PartialEq, Eq)]
pub struct FeeConfig {
    pub native_asset: FeeAsset,
    pub foreign_fee_asset: u32,
    pub conversion_rate_key: ParamKey,
}

impl Default for FeeConfig {
    /// Fees in VIT, with USDC accepted at the rate under `fee.vit_usdc_rat`.
    fn default() -> (r: FeeConfig)
        ensures
            r.native_asset == FeeAsset::Vit,
            r.foreign_fee_asset == USDC_ASSET_ID,
            r.conversion_rate_key == FEE_VIT_USDC_RATE_KEY,
    {
        FeeConfig {
            native_asset: FeeAsset::Vit,
            foreign_fee_asset: USDC_ASSET_ID,
            conversion_rate_key: FEE_VIT_USDC_RATE_KEY,
        }
    }
}

/// Constants of the chain's identity that the configuration is built from.
#[derive(Clone, Copy, Debug, PartialEq, Eq, Structural)]
pub struct ChainConstants {
    pub millisecs_per_block: u64,
    pub ss58_prefix: u16,
    pub usdc_decimals: u8,
}

/// Registration of a foreign asset.
#[derive(Clone, Copy, Debug, PartialEq, Eq)]
pub struct ForeignAssetConfig {
    pub asset_id: u32,
    pub location: [u8; 32],
    pub decimals: u8,
    pub is_sufficient: bool,
    pub admin_origin: Origin,
    pub mint_burn_enabled: bool,
}

/// The USDC registration: sufficient, administered by the constitutional
/// values origin, with minting and burning disabled.
pub open spec fn spec_usdc_config(usdc_decimals: u8) -> ForeignAssetConfig {
    ForeignAssetConfig {
        asset_id: USDC_ASSET_ID,
        location: USDC_LOCATION,
        decimals: usdc_decimals,
        is_sufficient: true,
        admin_origin: Origin::ConstitutionalValues,
        mint_burn_enabled: false,
    }
}

impl ForeignAssetConfig {
    /// The USDC registration for a chain whose USDC has the given decimals.
    pub fn usdc(usdc_decimals: u8) -> (r: ForeignAssetConfig)
        ensures
            r == spec_usdc_config(usdc_decimals),
    {
        ForeignAssetConfig {
            asset_id: USDC_ASSET_ID,
            location: USDC_LOCATION,
            decimals: usdc_decimals,
            is_sufficient: true,
            admin_origin: Origin::ConstitutionalValues,
            mint_burn_enabled: false,
        }
    }

    /// Whether two registrations are the same.
    pub fn same_as(&self, other: &ForeignAssetConfig) -> (r: bool)
        ensures
            r == (*self == *other),
    {
        let mut i: usize = 0;
        while i < 32
            invariant
                i <= 32,
                forall|j: int| 0 <= j < i ==> self.location@[j] == other.location@[j],
            decreases 32 - i,
        {
            if self.location[i] != other.location[i] {
                return false;
            }
            i = i + 1;
        }
        assert(self.location =~= other.location);
        self.asset_id == other.asset_id && self.decimals == other.decimals && self.is_sufficient
            == other.is_sufficient && self.admin_origin == other.admin_origin
            && self.mint_burn_enabled == other.mint_burn_enabled
    }
}

/// The runtime's base filter.
#[derive(Clone, Copy, Debug, PartialEq, Eq, Structural)]
pub enum RuntimeFilter {
    SafetyFilter,
}

/// Runtime configuration.
#[derive(Clone, Copy, Debug, PartialEq, Eq)]
pub struct RuntimeConfig {
    pub millisecs_per_block: u64,
    pub ss58_prefix: u16,
    pub base_call_filter: RuntimeFilter,
    pub usdc: ForeignAssetConfig,
    pub fees: FeeConfig,
    pub sudo_phase_enabled: bool,
}

impl RuntimeConfig {
    /// The runtime's configuration: the safety filter as base filter, the
    /// USDC registration, the default fees, and the sudo phase enabled.
    pub fn for_chain(chain: ChainConstants) -> (r: RuntimeConfig)
        ensures
            r.millisecs_per_block == chain.millisecs_per_block,
            r.ss58_prefix == chain.ss58_prefix,
            r.base_call_filter == RuntimeFilter::SafetyFilter,
            r.usdc == spec_usdc_config(chain.usdc_decimals),
            r.fees.native_asset == FeeAsset::Vit,
            r.fees.foreign_fee_asset == USDC_ASSET_ID,
            r.fees.conversion_rate_key == FEE_VIT_USDC_RATE_KEY,
            r.sudo_phase_enabled,
    {
        RuntimeConfig {
            millisecs_per_block: chain.millisecs_per_block,
            ss58_prefix: chain.ss58_prefix,
            base_call_filter: RuntimeFilter::SafetyFilter,
            usdc: ForeignAssetConfig::usdc(chain.usdc_decimals),
            fees: FeeConfig::default(),
            sudo_phase_enabled: true,
        }
    }
}

/// Genesis configuration of the runtime.
#[derive(Debug, PartialEq, Eq)]
pub struct GenesisConfig {
    pub endowed_vit: Vec<([u8; 32], Balance)>,
    pub usdc_asset: ForeignAssetConfig,
    pub sudo: Option<[u8; 32]>,
    pub bootstrap_calls: Vec<BleavitCall>,
}

/// Why a genesis configuration is refused.
#[derive(Clone, Copy, Debug, PartialEq, Eq, Structural)]
pub enum GenesisError {
    FilteredBootstrapCall,
    UsdcMisconfigured,
}

/// What genesis validation decides: the USDC registration must be the
/// chain's, and every bootstrap call must pass the base filter.
pub open spec fn spec_validate_genesis(
    g: GenesisConfig,
    usdc_decimals: u8,
    admitted: Seq<bool>,
) -> Result<(), GenesisError> {
    if g.usdc_asset != spec_usdc_config(usdc_decimals) {
        Err(GenesisError::UsdcMisconfigured)
    } else if exists|i: int| 0 <= i < admitted.len() && !#[trigger] admitted[i] {
        Err(GenesisError::FilteredBootstrapCall)
    } else {
        Ok(())
    }
}

impl GenesisConfig {
    /// Validates the genesis configuration. `admitted[i]` is the base
    /// filter's verdict on bootstrap call `i` (the safety filter's verdict on
    /// it without an origin).
    pub fn validate(&self, usdc_decimals: u8, admitted: &Vec<bool>) -> (r: Result<(), GenesisError>)
        requires
            admitted@.len() == self.bootstrap_calls@.len(),
        ensures
            r == spec_validate_genesis(*self, usdc_decimals, admitted@),
    {
        let expected = ForeignAssetConfig::usdc(usdc_decimals);
        if !self.usdc_asset.same_as(&expected) {
            return Err(GenesisError::UsdcMisconfigured);
        }
        let n = admitted.len();
        let mut i: usize = 0;
        while i < n
            invariant
                n == admitted@.len(),
                i <= n,
                self.usdc_asset == spec_usdc_config(usdc_decimals),
                forall|j: int| 0 <= j < i ==> #[trigger] admitted@[j],
            decreases n - i,
        {
            if !admitted[i] {
                assert(!admitted@[i as int]);
                return Err(GenesisError::FilteredBootstrapCall);
            }
            i = i + 1;
        }
        Ok(())
    }
}

/// A call of each shape that the runtime filter must judge: every system
/// call, every domain, and every wrapper around a public leaf.
pub fn exhaustive_filter_sample() -> (r: Vec<BleavitCall>)
    ensures
        r@.len() == 34,
        r@[0] == BleavitCall::System(SystemCall::Remark),
        r@[1] == BleavitCall::System(SystemCall::SetHeapPages),
        r@[2] == BleavitCall::System(SystemCall::SetCode),
        r@[3] == BleavitCall::System(SystemCall::SetCodeWithoutChecks),
        r@[4] == BleavitCall::System(SystemCall::SetStorage),
        r@[5] == BleavitCall::System(SystemCall::KillStorage),
        r@[6] == BleavitCall::System(SystemCall::KillPrefix),
        r@[7] == BleavitCall::System(SystemCall::AuthorizeUpgrade),
        r@[8] == BleavitCall::System(SystemCall::AuthorizeUpgradeWithoutChecks),
        r@[9] == BleavitCall::System(SystemCall::ApplyAuthorizedUpgrade),
        r@[10] == BleavitCall::Domain(CallDomain::Public),
        r@[11] == BleavitCall::Domain(CallDomain::Nobody),
        r@[12] == BleavitCall::Domain(CallDomain::Param),
        r@[13] == BleavitCall::Domain(CallDomain::Treasury),
        r@[14] == BleavitCall::Domain(CallDomain::Code),
        r@[15] == BleavitCall::Domain(CallDomain::Meta),
        r@[16] == BleavitCall::Domain(CallDomain::ConstitutionalValues),
        r@[17] == BleavitCall::Domain(CallDomain::OracleResolution),
        r@[18] == BleavitCall::Domain(CallDomain::GuardianHold),
        r@[19] == BleavitCall::Domain(CallDomain::EmergencyPlaybook),
        r@[20] == BleavitCall::Domain(CallDomain::InternalRoot),
        r@[21] matches BleavitCall::Wrapped(RuntimeCall::UtilityBatch(v)) && v@ == seq![
            RuntimeCall::Leaf(CallDomain::Public),
        ],
        r@[22] matches BleavitCall::Wrapped(RuntimeCall::UtilityBatchAll(v)) && v@ == seq![
            RuntimeCall::Leaf(CallDomain::Public),
        ],
        r@[23] matches BleavitCall::Wrapped(RuntimeCall::UtilityForceBatch(v)) && v@ == seq![
            RuntimeCall::Leaf(CallDomain::Public),
        ],
        r@[24] == BleavitCall::Wrapped(
            RuntimeCall::UtilityDispatchAs(Box::new(RuntimeCall::Leaf(CallDomain::Public))),
        ),
        r@[25] == BleavitCall::Wrapped(
            RuntimeCall::UtilityAsDerivative(Box::new(RuntimeCall::Leaf(CallDomain::Public))),
        ),
        r@[26] == BleavitCall::Wrapped(
            RuntimeCall::UtilityWithWeight(Box::new(RuntimeCall::Leaf(CallDomain::Public))),
        ),
        r@[27] == BleavitCall::Wrapped(
            RuntimeCall::Proxy(Box::new(RuntimeCall::Leaf(CallDomain::Public))),
        ),
        r@[28] == BleavitCall::Wrapped(
            RuntimeCall::ProxyAnnounced(Box::new(RuntimeCall::Leaf(CallDomain::Public))),
        ),
        r@[29] == BleavitCall::Wrapped(
            RuntimeCall::MultisigAsMulti(Box::new(RuntimeCall::Leaf(CallDomain::Public))),
        ),
        r@[30] == BleavitCall::Wrapped(
            RuntimeCall::MultisigAsMultiThreshold1(Box::new(RuntimeCall::Leaf(CallDomain::Public))),
        ),
        r@[31] == BleavitCall::Wrapped(RuntimeCall::MultisigApproveAsMulti),
        r@[32] == BleavitCall::Wrapped(
            RuntimeCall::Scheduler {
                origin: Origin::ConstitutionalValues,
                call: Box::new(RuntimeCall::Leaf(CallDomain::ConstitutionalValues)),
            },
        ),
        r@[33] == BleavitCall::Wrapped(
            RuntimeCall::Sudo(Box::new(RuntimeCall::Leaf(CallDomain::Public))),
        ),
{
    let mut r: Vec<BleavitCall> = Vec::new();
    r.push(BleavitCall::System(SystemCall::Remark));
    r.push(BleavitCall::System(SystemCall::SetHeapPages));
    r.push(BleavitCall::System(SystemCall::SetCode));
    r.push(BleavitCall::System(SystemCall::SetCodeWithoutChecks));
    r.push(BleavitCall::System(SystemCall::SetStorage));
    r.push(BleavitCall::System(SystemCall::KillStorage));
    r.push(BleavitCall::System(SystemCall::KillPrefix));
    r.push(BleavitCall::System(SystemCall::AuthorizeUpgrade));
    r.push(BleavitCall::System(SystemCall::AuthorizeUpgradeWithoutChecks));
    r.push(BleavitCall::System(SystemCall::ApplyAuthorizedUpgrade));
    r.push(BleavitCall::Domain(CallDomain::Public));
    r.push(BleavitCall::Domain(CallDomain::Nobody));
    r.push(BleavitCall::Domain(CallDomain::Param));
    r.push(BleavitCall::Domain(CallDomain::Treasury));
    r.push(BleavitCall::Domain(CallDomain::Code));
    r.push(BleavitCall::Domain(CallDomain::Meta));
    r.push(BleavitCall::Domain(CallDomain::ConstitutionalValues));
    r.push(BleavitCall::Domain(CallDomain::OracleResolution));
    r.push(BleavitCall::Domain(CallDomain::GuardianHold));
    r.push(BleavitCall::Domain(CallDomain::EmergencyPlaybook));
    r.push(BleavitCall::Domain(CallDomain::InternalRoot));
    let mut b1: Vec<RuntimeCall> = Vec::new();
    b1.push(RuntimeCall::leaf(CallDomain::Public));
    r.push(BleavitCall::Wrapped(RuntimeCall::UtilityBatch(b1)));
    let mut b2: Vec<RuntimeCall> = Vec::new();
    b2.push(RuntimeCall::leaf(CallDomain::Public));
    r.push(BleavitCall::Wrapped(RuntimeCall::UtilityBatchAll(b2)));
    let mut b3: Vec<RuntimeCall> = Vec::new();
    b3.push(RuntimeCall::leaf(CallDomain::Public));
    r.push(BleavitCall::Wrapped(RuntimeCall::UtilityForceBatch(b3)));
    r.push(
        BleavitCall::Wrapped(
            RuntimeCall::UtilityDispatchAs(Box::new(RuntimeCall::leaf(CallDomain::Public))),
        ),
    );
    r.push(
        BleavitCall::Wrapped(
            RuntimeCall::UtilityAsDerivative(Box::new(RuntimeCall::leaf(CallDomain::Public))),
        ),
    );
    r.push(
        BleavitCall::Wrapped(
            RuntimeCall::UtilityWithWeight(Box::new(RuntimeCall::leaf(CallDomain::Public))),
        ),
    );
    r.push(BleavitCall::Wrapped(RuntimeCall::Proxy(Box::new(RuntimeCall::leaf(CallDomain::Public)))));
    r.push(
        BleavitCall::Wrapped(
            RuntimeCall::ProxyAnnounced(Box::new(RuntimeCall::leaf(CallDomain::Public))),
        ),
    );
    r.push(
        BleavitCall::Wrapped(
            RuntimeCall::MultisigAsMulti(Box::new(RuntimeCall::leaf(CallDomain::Public))),
        ),
    );
    r.push(
        BleavitCall::Wrapped(
            RuntimeCall::MultisigAsMultiThreshold1(Box::new(RuntimeCall::leaf(CallDomain::Public))),
        ),
    );
    r.push(BleavitCall::Wrapped(RuntimeCall::MultisigApproveAsMulti));
    r.push(
        BleavitCall::Wrapped(
            RuntimeCall::Scheduler {
                origin: Origin::ConstitutionalValues,
                call: Box::new(RuntimeCall::leaf(CallDomain::ConstitutionalValues)),
            },
        ),
    );
    r.push(BleavitCall::Wrapped(RuntimeCall::Sudo(Box::new(RuntimeCall::leaf(CallDomain::Public)))));
    r
}

} // verus!
