//! Classification of cross-chain (XCM) pallet calls and the filter of
//! outbound reserve transfers.

use vstd::prelude::*;

verus! {

/// How the runtime's safety filter treats an XCM pallet call.
#[derive(Clone, Copy, Debug, PartialEq, Eq, Structural)]
pub enum XcmCallDisposition {
    DeniedAllOrigins,
    SignedAllowed,
    TreasuryOnly,
}

/// The calls of the XCM pallet. A limited reserve transfer carries whether
/// its destination converts to the latest location format and is Asset Hub.
#[derive(Clone, Copy, Debug, PartialEq, Eq, Structural)]
pub enum PalletXcmCall {
    Send,
    TeleportAssets,
    ReserveTransferAssets,
    Execute,
    ForceXcmVersion,
    ForceDefaultXcmVersion,
    ForceSubscribeVersionNotify,
    ForceUnsubscribeVersionNotify,
    LimitedReserveTransferAssets { dest_is_asset_hub: bool },
    LimitedTeleportAssets,
    ForceSuspension,
    TransferAssets,
    ClaimAssets,
    TransferAssetsUsingTypeAndThen,
    AddAuthorizedAlias,
    RemoveAuthorizedAlias,
    RemoveAllAuthorizedAliases,
}

/// Only the limited reserve transfer to Asset Hub and the self-scoped claim
/// of trapped assets are open to signed origins; every other call is denied.
pub open spec fn spec_classify(call: PalletXcmCall) -> XcmCallDisposition {
    match call {
        PalletXcmCall::LimitedReserveTransferAssets { dest_is_asset_hub } => if dest_is_asset_hub {
            XcmCallDisposition::SignedAllowed
        } else {
            XcmCallDisposition::DeniedAllOrigins
        },
        PalletXcmCall::ClaimAssets => XcmCallDisposition::SignedAllowed,
        _ => XcmCallDisposition::DeniedAllOrigins,
    }
}

/// Classifies an XCM pallet call.
pub fn classify_pallet_xcm_call(call: &PalletXcmCall) -> (r: XcmCallDisposition)
    ensures
        r == spec_classify(*call),
{
    match call {
        PalletXcmCall::LimitedReserveTransferAssets { dest_is_asset_hub } => {
            if *dest_is_asset_hub {
                XcmCallDisposition::SignedAllowed
            } else {
                XcmCallDisposition::DeniedAllOrigins
            }
        },
        PalletXcmCall::ClaimAssets => XcmCallDisposition::SignedAllowed,
        PalletXcmCall::Send
        | PalletXcmCall::TeleportAssets
        | PalletXcmCall::ReserveTransferAssets
        | PalletXcmCall::Execute
        | PalletXcmCall::ForceXcmVersion
        | PalletXcmCall::ForceDefaultXcmVersion
        | PalletXcmCall::ForceSubscribeVersionNotify
        | PalletXcmCall::ForceUnsubscribeVersionNotify
        | PalletXcmCall::LimitedTeleportAssets
        | PalletXcmCall::ForceSuspension
        | PalletXcmCall::TransferAssets
        | PalletXcmCall::TransferAssetsUsingTypeAndThen
        | PalletXcmCall::AddAuthorizedAlias
        | PalletXcmCall::RemoveAuthorizedAlias
        | PalletXcmCall::RemoveAllAuthorizedAliases => XcmCallDisposition::DeniedAllOrigins,
    }
}

/// A junction of a location's interior.
#[derive(Clone, Copy, Debug, PartialEq, Eq, Structural)]
pub enum Junction {
    AccountId32,
    Other,
}

/// An XCM location: how many parents up, then the interior junctions.
#[derive(Clone, Debug, PartialEq, Eq)]
pub struct Location {
    pub parents: u8,
    pub interior: Vec<Junction>,
}

/// Which frozen asset an asset id is.
#[derive(Clone, Copy, Debug, PartialEq, Eq, Structural)]
pub enum AssetClass {
    Usdc,
    Dot,
    Other,
}

/// The outbound user-exit filter: a signed local 32-byte account sending a
/// non-empty list of only USDC and DOT.
pub open spec fn spec_reserve_transfer_allowed(origin: Location, assets: Seq<AssetClass>) -> bool {
    &&& origin.parents == 0
    &&& origin.interior@ == seq![Junction::AccountId32]
    &&& assets.len() > 0
    &&& forall|i: int|
        0 <= i < assets.len() ==> #[trigger] assets[i] == AssetClass::Usdc || assets[i]
            == AssetClass::Dot
}

/// The canonical outbound reserve-transfer filter.
pub struct ReserveTransferFilter;

impl ReserveTransferFilter {
    /// Whether an outbound transfer from `origin` of `assets` is admitted.
    pub fn contains(origin: &Location, assets: &Vec<AssetClass>) -> (r: bool)
        ensures
            r == spec_reserve_transfer_allowed(*origin, assets@),
    {
        let signed_origin = origin.parents == 0 && origin.interior.len() == 1
            && origin.interior[0] == Junction::AccountId32;
        assert(signed_origin == (origin.parents == 0 && origin.interior@ == seq![
            Junction::AccountId32,
        ])) by {
            if origin.interior@.len() == 1 && origin.interior@[0] == Junction::AccountId32 {
                assert(origin.interior@ =~= seq![Junction::AccountId32]);
            }
        }
        if !signed_origin || assets.len() == 0 {
            return false;
        }
        let n = assets.len();
        let mut i: usize = 0;
        while i < n
            invariant
                n == assets@.len(),
                i <= n,
                forall|j: int|
                    0 <= j < i ==> #[trigger] assets@[j] == AssetClass::Usdc || assets@[j]
                        == AssetClass::Dot,
            decreases n - i,
        {
            if !(assets[i] == AssetClass::Usdc || assets[i] == AssetClass::Dot) {
                return false;
            }
            i = i + 1;
        }
        true
    }
}

/// A reserve transfer is admitted exactly when it comes from a signed local
/// account and carries at least one asset, every one of them USDC or DOT:
/// any other asset, at any position, refuses the whole transfer.
pub proof fn law_reserve_transfer_needs_every_asset_known(origin: Location, assets: Seq<AssetClass>)
    ensures
        spec_reserve_transfer_allowed(origin, assets) <==> (origin.parents == 0
            && origin.interior@.len() == 1 && origin.interior@[0] == Junction::AccountId32
            && assets.len() > 0 && !assets.contains(AssetClass::Other)),
        forall|i: int|
            0 <= i < assets.len() && #[trigger] assets[i] == AssetClass::Other
                ==> !spec_reserve_transfer_allowed(origin, assets),
{
    if origin.interior@.len() == 1 && origin.interior@[0] == Junction::AccountId32 {
        assert(origin.interior@ =~= seq![Junction::AccountId32]);
    }
    if !assets.contains(AssetClass::Other) {
        assert forall|i: int| 0 <= i < assets.len() implies #[trigger] assets[i] == AssetClass::Usdc
            || assets[i] == AssetClass::Dot by {
            if assets[i] == AssetClass::Other {
                assert(assets.contains(AssetClass::Other));
            }
        }
    }
}

/// Adding an asset never turns a refused transfer into an admitted one, and
/// an admitted transfer stays admitted only with a USDC or DOT asset added.
pub proof fn law_reserve_transfer_monotone(origin: Location, assets: Seq<AssetClass>, extra: AssetClass)
    requires
        assets.len() > 0,
    ensures
        spec_reserve_transfer_allowed(origin, assets.push(extra)) <==> (spec_reserve_transfer_allowed(
            origin,
            assets,
        ) && extra != AssetClass::Other),
{
    let t = assets.push(extra);
    if spec_reserve_transfer_allowed(origin, t) {
        assert forall|i: int| 0 <= i < assets.len() implies #[trigger] assets[i] == AssetClass::Usdc
            || assets[i] == AssetClass::Dot by {
            assert(t[i] == assets[i]);
        }
        assert(t[assets.len() as int] == extra);
    }
    if spec_reserve_transfer_allowed(origin, assets) && extra != AssetClass::Other {
        assert forall|i: int| 0 <= i < t.len() implies #[trigger] t[i] == AssetClass::Usdc || t[i]
            == AssetClass::Dot by {
            if i < assets.len() {
                assert(t[i] == assets[i]);
            }
        }
    }
}

} // verus!
