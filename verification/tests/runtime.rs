use bleavit::origins::{all_custom_origins, origin_for_proposal_class, CallDomain, Origin, RuntimeCall};
use bleavit::primitives::ProposalClass;
use bleavit::runtime::{
    exhaustive_filter_sample, BaseCallFilter, BleavitCall, ChainConstants, FeeAsset, FeeConfig,
    ForeignAssetConfig, GenesisConfig, GenesisError, PendingUpgrade, RuntimeConfig, RuntimeFilter,
    RuntimeFilterError, RuntimePallet, SystemCall, CUSTOM_PALLETS, FEE_VIT_USDC_RATE_KEY,
    STANDARD_PALLETS, USDC_ASSET_ID, USDC_LOCATION,
};

const USDC_DECIMALS: u8 = 6;

fn chain() -> ChainConstants {
    ChainConstants { millisecs_per_block: 6000, ss58_prefix: 42, usdc_decimals: USDC_DECIMALS }
}

#[test]
fn runtime_includes_standard_and_custom_pallet_sets() {
    assert_eq!(STANDARD_PALLETS.len(), 24);
    assert_eq!(CUSTOM_PALLETS.len(), 12);
    assert!(STANDARD_PALLETS.contains(&RuntimePallet::ForeignAssets));
    assert!(STANDARD_PALLETS.contains(&RuntimePallet::AssetTxPayment));
    assert!(CUSTOM_PALLETS.contains(&RuntimePallet::ExecutionGuard));
    assert_eq!(RuntimeConfig::for_chain(chain()).base_call_filter, RuntimeFilter::SafetyFilter);
}

#[test]
fn usdc_and_fee_configuration_match_contract_surface() {
    let cfg = RuntimeConfig::for_chain(chain());
    assert_eq!(cfg.usdc.asset_id, USDC_ASSET_ID);
    assert_eq!(cfg.usdc.location, USDC_LOCATION);
    assert!(cfg.usdc.is_sufficient);
    assert_eq!(cfg.usdc.admin_origin, Origin::ConstitutionalValues);
    assert!(!cfg.usdc.mint_burn_enabled);
    assert_eq!(cfg.fees.native_asset, FeeAsset::Vit);
    assert_eq!(cfg.fees.foreign_fee_asset, USDC_ASSET_ID);
    assert_eq!(cfg.fees.conversion_rate_key, FEE_VIT_USDC_RATE_KEY);
}

#[test]
fn genesis_filter_denies_d13_system_calls_even_for_sudo_bootstrap() {
    for call in [
        SystemCall::SetHeapPages,
        SystemCall::SetCode,
        SystemCall::SetCodeWithoutChecks,
        SystemCall::SetStorage,
        SystemCall::KillStorage,
        SystemCall::KillPrefix,
        SystemCall::AuthorizeUpgradeWithoutChecks,
    ] {
        let bootstrap = BleavitCall::System(call);
        assert_eq!(bootstrap.leaf_domain(), Some(CallDomain::Nobody));
        let genesis = GenesisConfig {
            endowed_vit: Vec::new(),
            usdc_asset: ForeignAssetConfig::usdc(USDC_DECIMALS),
            sudo: Some([7; 32]),
            bootstrap_calls: vec![bootstrap],
        };
        // The safety filter refuses every call of the nobody domain.
        assert_eq!(
            genesis.validate(USDC_DECIMALS, &vec![false]),
            Err(GenesisError::FilteredBootstrapCall)
        );
        assert_eq!(
            BaseCallFilter::validate_at(&BleavitCall::System(call), 1, None, false),
            Err(RuntimeFilterError::SafetyFilter)
        );
    }
    let remark = BleavitCall::System(SystemCall::Remark);
    assert_eq!(remark.leaf_domain(), Some(CallDomain::Public));
    assert!(GenesisConfig {
        endowed_vit: Vec::new(),
        usdc_asset: ForeignAssetConfig::usdc(USDC_DECIMALS),
        sudo: Some([7; 32]),
        bootstrap_calls: vec![remark],
    }
    .validate(USDC_DECIMALS, &vec![true])
    .is_ok());
}

#[test]
fn authorize_upgrade_is_internal_but_apply_is_permissionless_after_lead_time() {
    assert_eq!(SystemCall::AuthorizeUpgrade.domain(), CallDomain::InternalRoot);
    assert_eq!(
        BaseCallFilter::validate_at(&BleavitCall::System(SystemCall::AuthorizeUpgrade), 1, None, false),
        Err(RuntimeFilterError::SafetyFilter)
    );

    let apply = BleavitCall::System(SystemCall::ApplyAuthorizedUpgrade);
    assert_eq!(apply.leaf_domain(), Some(CallDomain::Public));
    let pending = PendingUpgrade { code_hash: [9; 32], authorized_at: 10, applicable_at: 20 };
    assert_eq!(
        BaseCallFilter::validate_at(&apply, 19, Some(pending), true),
        Err(RuntimeFilterError::PendingUpgradeTooEarly)
    );
    assert_eq!(BaseCallFilter::validate_at(&apply, 20, Some(pending), true), Ok(()));
    assert_eq!(
        BaseCallFilter::validate_at(&apply, 20, None, true),
        Err(RuntimeFilterError::PendingUpgradeMissing)
    );
}

#[test]
fn custom_origin_mapping_is_wired_to_proposal_classes() {
    assert_eq!(origin_for_proposal_class(ProposalClass::Param), Some(Origin::FutarchyParam));
    assert_eq!(origin_for_proposal_class(ProposalClass::Treasury), Some(Origin::FutarchyTreasury));
    assert_eq!(origin_for_proposal_class(ProposalClass::Code), Some(Origin::FutarchyCode));
    assert_eq!(origin_for_proposal_class(ProposalClass::Meta), Some(Origin::FutarchyMeta));
    assert_eq!(origin_for_proposal_class(ProposalClass::Constitutional), None);
    assert_eq!(all_custom_origins().len(), 8);
}

#[test]
fn filter_exhaustiveness_sample_covers_every_runtime_shape() {
    let sample = exhaustive_filter_sample();
    assert_eq!(sample.len(), 34);
    for call in &sample {
        let _ = call.leaf_domain();
    }
    assert!(sample.iter().any(|c| matches!(c, BleavitCall::Wrapped(RuntimeCall::ProxyAnnounced(_)))));
    assert!(sample
        .iter()
        .any(|c| matches!(c, BleavitCall::Wrapped(RuntimeCall::MultisigAsMultiThreshold1(_)))));
    assert!(sample.iter().any(|c| matches!(c, BleavitCall::Wrapped(RuntimeCall::Scheduler { .. }))));
}

#[test]
fn system_call_domains() {
    assert_eq!(SystemCall::Remark.domain(), CallDomain::Public);
    assert_eq!(SystemCall::ApplyAuthorizedUpgrade.domain(), CallDomain::Public);
    assert_eq!(SystemCall::SetCode.domain(), CallDomain::Nobody);
    assert_eq!(BleavitCall::Domain(CallDomain::Treasury).leaf_domain(), Some(CallDomain::Treasury));
    assert_eq!(BleavitCall::Wrapped(RuntimeCall::leaf(CallDomain::Public)).leaf_domain(), None);
}

#[test]
fn filter_passes_other_admitted_calls_at_any_block() {
    let call = BleavitCall::Domain(CallDomain::Public);
    assert_eq!(BaseCallFilter::validate_at(&call, 0, None, true), Ok(()));
    assert_eq!(BaseCallFilter::validate_at(&call, 0, None, false), Err(RuntimeFilterError::SafetyFilter));
}

#[test]
fn genesis_rejects_wrong_usdc_registration() {
    let mut usdc = ForeignAssetConfig::usdc(USDC_DECIMALS);
    usdc.mint_burn_enabled = true;
    let genesis = GenesisConfig { endowed_vit: Vec::new(), usdc_asset: usdc, sudo: None, bootstrap_calls: Vec::new() };
    assert_eq!(genesis.validate(USDC_DECIMALS, &Vec::new()), Err(GenesisError::UsdcMisconfigured));
    let genesis = GenesisConfig {
        endowed_vit: vec![([1; 32], 100)],
        usdc_asset: ForeignAssetConfig::usdc(USDC_DECIMALS),
        sudo: None,
        bootstrap_calls: Vec::new(),
    };
    assert_eq!(genesis.validate(USDC_DECIMALS, &Vec::new()), Ok(()));
    assert_eq!(genesis.validate(18, &Vec::new()), Err(GenesisError::UsdcMisconfigured));
}

#[test]
fn usdc_registration_equality() {
    let a = ForeignAssetConfig::usdc(USDC_DECIMALS);
    let mut b = a;
    assert!(a.same_as(&b));
    b.location[31] = 1;
    assert!(!a.same_as(&b));
    let cfg = RuntimeConfig::for_chain(chain());
    assert_eq!(cfg.millisecs_per_block, 6000);
    assert_eq!(cfg.ss58_prefix, 42);
    assert_eq!(cfg.usdc.decimals, USDC_DECIMALS);
    assert!(cfg.sudo_phase_enabled);
    let fees = FeeConfig::default();
    assert_eq!(fees.native_asset, FeeAsset::Vit);
}
