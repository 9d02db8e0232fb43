use bleavit::xcm_filter::{
    classify_pallet_xcm_call, AssetClass, Junction, Location, PalletXcmCall, ReserveTransferFilter,
    XcmCallDisposition,
};

fn signed() -> Location {
    Location { parents: 0, interior: vec![Junction::AccountId32] }
}

#[test]
fn only_the_asset_hub_exit_and_claims_are_allowed() {
    assert_eq!(
        classify_pallet_xcm_call(&PalletXcmCall::LimitedReserveTransferAssets { dest_is_asset_hub: true }),
        XcmCallDisposition::SignedAllowed
    );
    assert_eq!(
        classify_pallet_xcm_call(&PalletXcmCall::LimitedReserveTransferAssets { dest_is_asset_hub: false }),
        XcmCallDisposition::DeniedAllOrigins
    );
    assert_eq!(classify_pallet_xcm_call(&PalletXcmCall::ClaimAssets), XcmCallDisposition::SignedAllowed);
    for call in [
        PalletXcmCall::Send,
        PalletXcmCall::TeleportAssets,
        PalletXcmCall::ReserveTransferAssets,
        PalletXcmCall::Execute,
        PalletXcmCall::ForceXcmVersion,
        PalletXcmCall::ForceDefaultXcmVersion,
        PalletXcmCall::ForceSubscribeVersionNotify,
        PalletXcmCall::ForceUnsubscribeVersionNotify,
        PalletXcmCall::LimitedTeleportAssets,
        PalletXcmCall::ForceSuspension,
        PalletXcmCall::TransferAssets,
        PalletXcmCall::TransferAssetsUsingTypeAndThen,
        PalletXcmCall::AddAuthorizedAlias,
        PalletXcmCall::RemoveAuthorizedAlias,
        PalletXcmCall::RemoveAllAuthorizedAliases,
    ] {
        assert_eq!(classify_pallet_xcm_call(&call), XcmCallDisposition::DeniedAllOrigins);
    }
}

#[test]
fn reserve_transfer_filter_admits_signed_dot_and_usdc_only() {
    assert!(ReserveTransferFilter::contains(&signed(), &vec![AssetClass::Usdc, AssetClass::Dot]));
    assert!(!ReserveTransferFilter::contains(&signed(), &Vec::new()));
    assert!(!ReserveTransferFilter::contains(&signed(), &vec![AssetClass::Usdc, AssetClass::Other]));
    let parent = Location { parents: 1, interior: vec![Junction::AccountId32] };
    assert!(!ReserveTransferFilter::contains(&parent, &vec![AssetClass::Usdc]));
    let nested = Location { parents: 0, interior: vec![Junction::AccountId32, Junction::Other] };
    assert!(!ReserveTransferFilter::contains(&nested, &vec![AssetClass::Usdc]));
    let here = Location { parents: 0, interior: Vec::new() };
    assert!(!ReserveTransferFilter::contains(&here, &vec![AssetClass::Dot]));
}
