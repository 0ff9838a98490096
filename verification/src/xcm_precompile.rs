//! The pallet-xcm precompile: how an EVM call to transfer assets over XCM
//! becomes a pallet-xcm call.

use vstd::prelude::*;
use crate::xcm::{Asset, Fungibility, Junction, Location, LocationView, clone_location, same_location,
    XcmLocalBeneficiary20Generator, XcmLocalBeneficiary32Generator, XcmSiblingDestinationGenerator};
use crate::location_matcher::AccountIdToLocationMatcher;

verus! {

/// Largest number of assets a call may transfer.
pub const MAX_ASSETS_ARRAY_LIMIT: u32 = 2;

/// Largest size of the custom XCM message, in bytes.
pub const XCM_SIZE_LIMIT: u32 = 65536;

/// The transfer types a caller may choose by number.
#[derive(Clone, Copy, Debug, PartialEq, Eq, Structural)]
pub enum TransferTypeHelper {
    /// Number 0.
    Teleport,
    /// Number 1.
    LocalReserve,
    /// Number 2.
    DestinationReserve,
}

/// How assets travel to their destination.
#[derive(Clone, Debug)]
pub enum TransferType {
    /// Burnt here and minted there.
    Teleport,
    /// Reserved here.
    LocalReserve,
    /// Reserved at the destination.
    DestinationReserve,
    /// Reserved at a third chain.
    RemoteReserve(Location),
}

/// Why the precompile reverts.
#[derive(Clone, Copy, Debug, PartialEq, Eq, Structural)]
pub enum RevertReason {
    /// An asset address matches no asset location.
    AssetNotFound,
    /// The index of the remote fee asset is out of range.
    RemoteFeesIdNotFound,
    /// A transfer type number is unknown.
    FailedDecodingTransferType,
}

/// A call of pallet-xcm that the precompile dispatches, with an unlimited
/// weight limit.
#[derive(Clone, Debug)]
pub enum PalletXcmCall {
    /// Transfers `assets` to `beneficiary` at `dest`, paying fees with the
    /// asset at `fee_asset_item`.
    TransferAssets { dest: Location, beneficiary: Location, assets: Vec<Asset>, fee_asset_item: u32 },
    /// Transfers `assets` to `dest` with the given transfer types, paying
    /// remote fees with `remote_fees_id`, then runs the custom XCM message
    /// (SCALE-encoded in `custom_xcm_on_dest`) there.
    TransferAssetsUsingTypeAndThen {
        dest: Location,
        assets: Vec<Asset>,
        assets_transfer_type: TransferType,
        remote_fees_id: Location,
        fees_transfer_type: TransferType,
        custom_xcm_on_dest: Vec<u8>,
    },
}

/// Maps an EVM address to a runtime account.
pub trait AddressMapping {
    /// The account of `address`.
    spec fn spec_into_account_id(&self, address: [u8; 20]) -> [u8; 20];

    /// The account of `address`.
    fn into_account_id(&self, address: [u8; 20]) -> (a: [u8; 20])
        ensures
            a == self.spec_into_account_id(address),
    ;
}

/// Every address is its own account.
#[derive(Clone, Copy, Debug, PartialEq, Eq, Structural)]
pub struct IdentityAddressMapping;

impl AddressMapping for IdentityAddressMapping {
    open spec fn spec_into_account_id(&self, address: [u8; 20]) -> [u8; 20] {
        address
    }

    fn into_account_id(&self, address: [u8; 20]) -> (a: [u8; 20]) {
        address
    }
}

/// The view of the pairs of an asset list: location and amount.
pub open spec fn pairs_view(pairs: Seq<(Location, u128)>) -> Seq<(LocationView, u128)> {
    pairs.map_values(|p: (Location, u128)| (p.0@, p.1))
}

/// The view of an asset list.
pub open spec fn assets_view(assets: Seq<Asset>) -> Seq<(LocationView, Fungibility)> {
    assets.map_values(|a: Asset| (a.id@, a.fun))
}

/// Whether no two of `assets` share a location, as in an XCM asset set.
pub open spec fn distinct_asset_ids(assets: Seq<Asset>) -> bool {
    forall|a: int, b: int| 0 <= a < assets.len() && 0 <= b < assets.len() && a != b
        ==> #[trigger] assets[a].id@ != #[trigger] assets[b].id@
}

/// The precompile.
pub struct PalletXcmPrecompile;

impl PalletXcmPrecompile {
    /// The transfer type of number `transfer_type`, if it has one.
    pub fn parse_transfer_type(transfer_type: u8) -> (r: Result<TransferType, RevertReason>)
        ensures
            transfer_type == 0 ==> r matches Ok(TransferType::Teleport),
            transfer_type == 1 ==> r matches Ok(TransferType::LocalReserve),
            transfer_type == 2 ==> r matches Ok(TransferType::DestinationReserve),
            transfer_type > 2 ==> r matches Err(RevertReason::FailedDecodingTransferType),
    {
        let helper = if transfer_type == 0 {
            TransferTypeHelper::Teleport
        } else if transfer_type == 1 {
            TransferTypeHelper::LocalReserve
        } else if transfer_type == 2 {
            TransferTypeHelper::DestinationReserve
        } else {
            return Err(RevertReason::FailedDecodingTransferType);
        };
        match helper {
            TransferTypeHelper::Teleport => Ok(TransferType::Teleport),
            TransferTypeHelper::LocalReserve => Ok(TransferType::LocalReserve),
            TransferTypeHelper::DestinationReserve => Ok(TransferType::DestinationReserve),
        }
    }

    /// The location of each asset address, through `mapping` and `matcher`;
    /// reverts when one has none.
    pub fn convert_assets<A: AddressMapping, L: AccountIdToLocationMatcher>(
        mapping: &A,
        matcher: &L,
        assets: &Vec<([u8; 20], u128)>,
    ) -> (r: Result<Vec<(Location, u128)>, RevertReason>)
        ensures
            r is Err <==> exists|i: int| 0 <= i < assets@.len()
                && matcher.spec_convert(mapping.spec_into_account_id(#[trigger] assets@[i].0)@) is None,
            r is Err ==> r == Err::<Vec<(Location, u128)>, RevertReason>(RevertReason::AssetNotFound),
            r matches Ok(v) ==> v@.len() == assets@.len() && forall|i: int| 0 <= i < assets@.len() ==>
                Some(#[trigger] v@[i].0@) == matcher.spec_convert(mapping.spec_into_account_id(assets@[i].0)@)
                && v@[i].1 == assets@[i].1,
    {
        let mut assets_to_send: Vec<(Location, u128)> = Vec::new();
        let mut i: usize = 0;
        while i < assets.len()
            invariant
                i <= assets@.len(),
                assets_to_send@.len() == i,
                forall|k: int| 0 <= k < i ==> matcher.spec_convert(mapping.spec_into_account_id(#[trigger] assets@[k].0)@) is Some,
                forall|k: int| 0 <= k < i ==>
                    Some(#[trigger] assets_to_send@[k].0@) == matcher.spec_convert(mapping.spec_into_account_id(assets@[k].0)@)
                    && assets_to_send@[k].1 == assets@[k].1,
            decreases assets@.len() - i,
        {
            let (address, amount) = assets[i];
            let account = mapping.into_account_id(address);
            match matcher.convert(account) {
                Some(location) => { assets_to_send.push((location, amount)); },
                None => { return Err(RevertReason::AssetNotFound); },
            }
            i = i + 1;
        }
        Ok(assets_to_send)
    }

    /// The fungible assets of the given (location, amount) pairs, in order,
    /// before the XCM asset set sorts and merges them.
    pub fn fungible_assets(pairs: Vec<(Location, u128)>) -> (assets: Vec<Asset>)
        ensures
            assets_view(assets@) == pairs_view(pairs@).map_values(|p: (LocationView, u128)| (p.0, Fungibility::Fungible(p.1))),
    {
        let mut assets: Vec<Asset> = Vec::new();
        let mut i: usize = 0;
        while i < pairs.len()
            invariant
                i <= pairs@.len(),
                assets@.len() == i,
                forall|k: int| 0 <= k < i ==> (#[trigger] assets@[k]).id@ == pairs@[k].0@
                    && assets@[k].fun == Fungibility::Fungible(pairs@[k].1),
            decreases pairs@.len() - i,
        {
            let id = clone_location(&pairs[i].0);
            assets.push(Asset { id, fun: Fungibility::Fungible(pairs[i].1) });
            i = i + 1;
        }
        proof {
            assert(assets_view(assets@) =~= pairs_view(pairs@).map_values(|p: (LocationView, u128)| (p.0, Fungibility::Fungible(p.1))));
        }
        assets
    }

    /// Whether `assets` is an XCM asset set as far as indexing it goes: no
    /// two assets share a location. The set the precompile indexes is the
    /// one the XCM asset collection makes of the list, which sorts it and
    /// merges the amounts of equal locations.
    pub fn is_asset_set(assets: &Vec<Asset>) -> (r: bool)
        ensures
            r == distinct_asset_ids(assets@),
    {
        let mut i: usize = 0;
        while i < assets.len()
            invariant
                i <= assets@.len(),
                forall|a: int, b: int| 0 <= a < i && 0 <= b < assets@.len() && a != b
                    ==> #[trigger] assets@[a].id@ != #[trigger] assets@[b].id@,
            decreases assets@.len() - i,
        {
            let mut j: usize = 0;
            while j < assets.len()
                invariant
                    i < assets@.len(),
                    j <= assets@.len(),
                    forall|a: int, b: int| 0 <= a < i && 0 <= b < assets@.len() && a != b
                        ==> #[trigger] assets@[a].id@ != #[trigger] assets@[b].id@,
                    forall|b: int| 0 <= b < j && b != i ==> assets@[i as int].id@ != #[trigger] assets@[b].id@,
                decreases assets@.len() - j,
            {
                if j != i && same_location(&assets[i].id, &assets[j].id) {
                    return false;
                }
                j = j + 1;
            }
            i = i + 1;
        }
        true
    }

    /// The location of the asset at `remote_fees_id_index` in the asset set
    /// to send, when an index is given; reverts when it is out of range. The
    /// index counts in the order of the set as given, which is the order the
    /// XCM asset collection puts the set in (it sorts the assets and merges
    /// those at one location, so no location occurs twice).
    pub fn remote_fees_id(assets_to_send: &Vec<Asset>, remote_fees_id_index: Option<usize>) -> (r: Result<Option<Location>, RevertReason>)
        requires
            distinct_asset_ids(assets_to_send@),
        ensures
            match remote_fees_id_index {
                None => r matches Ok(None),
                Some(i) => if i >= assets_to_send@.len() {
                    r == Err::<Option<Location>, RevertReason>(RevertReason::RemoteFeesIdNotFound)
                } else {
                    r matches Ok(Some(l)) && l@ == assets_to_send@[i as int].id@
                },
            },
    {
        match remote_fees_id_index {
            None => Ok(None),
            Some(index) => {
                if index < assets_to_send.len() {
                    Ok(Some(clone_location(&assets_to_send[index].id)))
                } else {
                    Err(RevertReason::RemoteFeesIdNotFound)
                }
            },
        }
    }

    /// The call for `transferAssetsLocation`.
    pub fn transfer_assets_location(dest: Location, beneficiary: Location, assets_to_send: Vec<Asset>, fee_asset_item: u32)
        -> (call: PalletXcmCall)
        ensures
            call matches PalletXcmCall::TransferAssets { dest: d, beneficiary: b, assets: a, fee_asset_item: f }
                && d@ == dest@ && b@ == beneficiary@ && assets_view(a@) == assets_view(assets_to_send@) && f == fee_asset_item,
    {
        PalletXcmCall::TransferAssets { dest, beneficiary, assets: assets_to_send, fee_asset_item }
    }

    /// The call for `transferAssetsToPara20`: to the 20-byte account
    /// `beneficiary` on sibling parachain `para_id`.
    pub fn transfer_assets_to_para_20(para_id: u32, beneficiary: [u8; 20], assets_to_send: Vec<Asset>, fee_asset_item: u32)
        -> (call: PalletXcmCall)
        ensures
            call matches PalletXcmCall::TransferAssets { dest: d, beneficiary: b, assets: a, fee_asset_item: f }
                && d@ == (LocationView { parents: 1, interior: seq![Junction::Parachain(para_id)] })
                && b@ == (LocationView { parents: 0, interior: seq![Junction::AccountKey20 { network: None, key: beneficiary }] })
                && assets_view(a@) == assets_view(assets_to_send@) && f == fee_asset_item,
    {
        let dest = XcmSiblingDestinationGenerator::generate(para_id);
        let beneficiary = XcmLocalBeneficiary20Generator::generate(beneficiary);
        PalletXcmCall::TransferAssets { dest, beneficiary, assets: assets_to_send, fee_asset_item }
    }

    /// The call for `transferAssetsToPara32`: to the 32-byte account
    /// `beneficiary` on sibling parachain `para_id`.
    pub fn transfer_assets_to_para_32(para_id: u32, beneficiary: [u8; 32], assets_to_send: Vec<Asset>, fee_asset_item: u32)
        -> (call: PalletXcmCall)
        ensures
            call matches PalletXcmCall::TransferAssets { dest: d, beneficiary: b, assets: a, fee_asset_item: f }
                && d@ == (LocationView { parents: 1, interior: seq![Junction::Parachain(para_id)] })
                && b@ == (LocationView { parents: 0, interior: seq![Junction::AccountId32 { network: None, id: beneficiary }] })
                && assets_view(a@) == assets_view(assets_to_send@) && f == fee_asset_item,
    {
        let dest = XcmSiblingDestinationGenerator::generate(para_id);
        let beneficiary = XcmLocalBeneficiary32Generator::generate(beneficiary);
        PalletXcmCall::TransferAssets { dest, beneficiary, assets: assets_to_send, fee_asset_item }
    }

    /// The call for `transferAssetsToRelay`: to the 32-byte account
    /// `beneficiary` on the relay chain.
    pub fn transfer_assets_to_relay(beneficiary: [u8; 32], assets_to_send: Vec<Asset>, fee_asset_item: u32)
        -> (call: PalletXcmCall)
        ensures
            call matches PalletXcmCall::TransferAssets { dest: d, beneficiary: b, assets: a, fee_asset_item: f }
                && d@ == (LocationView { parents: 1, interior: Seq::<Junction>::empty() })
                && b@ == (LocationView { parents: 0, interior: seq![Junction::AccountId32 { network: None, id: beneficiary }] })
                && assets_view(a@) == assets_view(assets_to_send@) && f == fee_asset_item,
    {
        let dest = Location::parent();
        let beneficiary = XcmLocalBeneficiary32Generator::generate(beneficiary);
        PalletXcmCall::TransferAssets { dest, beneficiary, assets: assets_to_send, fee_asset_item }
    }

    /// The assets to send of a transfer given by asset addresses: each
    /// address converted to its location, in order, as fungible assets;
    /// reverts with "Asset not found" before any call is built when one
    /// address has no location. The list is the one the XCM asset collection
    /// then makes a set of.
    pub fn assets_to_send<A: AddressMapping, L: AccountIdToLocationMatcher>(
        mapping: &A,
        matcher: &L,
        assets: &Vec<([u8; 20], u128)>,
    ) -> (r: Result<Vec<Asset>, RevertReason>)
        ensures
            r is Err <==> exists|i: int| 0 <= i < assets@.len()
                && matcher.spec_convert(mapping.spec_into_account_id(#[trigger] assets@[i].0)@) is None,
            r is Err ==> r == Err::<Vec<Asset>, RevertReason>(RevertReason::AssetNotFound),
            r matches Ok(sent) ==> converted_assets(*mapping, *matcher, assets@, sent@),
    {
        let pairs = match Self::convert_assets(mapping, matcher, assets) {
            Ok(p) => p,
            Err(e) => { return Err(e); },
        };
        let ghost pv = pairs@;
        let sent = Self::fungible_assets(pairs);
        proof {
            assert(assets_view(sent@).len() == sent@.len());
            assert(pairs_view(pv).len() == pv.len());
            assert(sent@.len() == assets@.len());
            assert forall|k: int| 0 <= k < assets@.len() implies
                Some(#[trigger] sent@[k].id@) == matcher.spec_convert(mapping.spec_into_account_id(assets@[k].0)@)
                && sent@[k].fun == Fungibility::Fungible(assets@[k].1) by {
                assert(assets_view(sent@)[k] == (sent@[k].id@, sent@[k].fun));
                assert(pairs_view(pv)[k] == (pv[k].0@, pv[k].1));
                assert(assets_view(sent@)[k] == (pv[k].0@, Fungibility::Fungible(pv[k].1)));
            }
        }
        Ok(sent)
    }

    /// The call for `transferAssetsToPara20` from asset addresses: converts
    /// them (reverting when one has no location) and then builds the
    /// transfer to `beneficiary` on sibling parachain `para_id`.
    pub fn transfer_assets_to_para_20_call<A: AddressMapping, L: AccountIdToLocationMatcher>(
        mapping: &A,
        matcher: &L,
        para_id: u32,
        beneficiary: [u8; 20],
        assets: &Vec<([u8; 20], u128)>,
        fee_asset_item: u32,
    ) -> (r: Result<PalletXcmCall, RevertReason>)
        ensures
            r is Err <==> exists|i: int| 0 <= i < assets@.len()
                && matcher.spec_convert(mapping.spec_into_account_id(#[trigger] assets@[i].0)@) is None,
            r is Err ==> r == Err::<PalletXcmCall, RevertReason>(RevertReason::AssetNotFound),
            r matches Ok(call) ==> call matches PalletXcmCall::TransferAssets { dest: d, beneficiary: b, assets: a, fee_asset_item: f }
                && d@ == (LocationView { parents: 1, interior: seq![Junction::Parachain(para_id)] })
                && b@ == (LocationView { parents: 0, interior: seq![Junction::AccountKey20 { network: None, key: beneficiary }] })
                && converted_assets(*mapping, *matcher, assets@, a@) && f == fee_asset_item,
    {
        match Self::assets_to_send(mapping, matcher, assets) {
            Err(e) => Err(e),
            Ok(sent) => {
                let ghost sv = sent@;
                let call = Self::transfer_assets_to_para_20(para_id, beneficiary, sent, fee_asset_item);
                proof { lemma_same_assets_view(mapping, matcher, assets@, sv, call); }
                Ok(call)
            },
        }
    }

    /// The call for `transferAssetsToPara32` from asset addresses: converts
    /// them (reverting when one has no location) and then builds the
    /// transfer to `beneficiary` on sibling parachain `para_id`.
    pub fn transfer_assets_to_para_32_call<A: AddressMapping, L: AccountIdToLocationMatcher>(
        mapping: &A,
        matcher: &L,
        para_id: u32,
        beneficiary: [u8; 32],
        assets: &Vec<([u8; 20], u128)>,
        fee_asset_item: u32,
    ) -> (r: Result<PalletXcmCall, RevertReason>)
        ensures
            r is Err <==> exists|i: int| 0 <= i < assets@.len()
                && matcher.spec_convert(mapping.spec_into_account_id(#[trigger] assets@[i].0)@) is None,
            r is Err ==> r == Err::<PalletXcmCall, RevertReason>(RevertReason::AssetNotFound),
            r matches Ok(call) ==> call matches PalletXcmCall::TransferAssets { dest: d, beneficiary: b, assets: a, fee_asset_item: f }
                && d@ == (LocationView { parents: 1, interior: seq![Junction::Parachain(para_id)] })
                && b@ == (LocationView { parents: 0, interior: seq![Junction::AccountId32 { network: None, id: beneficiary }] })
                && converted_assets(*mapping, *matcher, assets@, a@) && f == fee_asset_item,
    {
        match Self::assets_to_send(mapping, matcher, assets) {
            Err(e) => Err(e),
            Ok(sent) => {
                let ghost sv = sent@;
                let call = Self::transfer_assets_to_para_32(para_id, beneficiary, sent, fee_asset_item);
                proof { lemma_same_assets_view(mapping, matcher, assets@, sv, call); }
                Ok(call)
            },
        }
    }

    /// The call for `transferAssetsToRelay` from asset addresses: converts
    /// them (reverting when one has no location) and then builds the
    /// transfer to `beneficiary` on the relay chain.
    pub fn transfer_assets_to_relay_call<A: AddressMapping, L: AccountIdToLocationMatcher>(
        mapping: &A,
        matcher: &L,
        beneficiary: [u8; 32],
        assets: &Vec<([u8; 20], u128)>,
        fee_asset_item: u32,
    ) -> (r: Result<PalletXcmCall, RevertReason>)
        ensures
            r is Err <==> exists|i: int| 0 <= i < assets@.len()
                && matcher.spec_convert(mapping.spec_into_account_id(#[trigger] assets@[i].0)@) is None,
            r is Err ==> r == Err::<PalletXcmCall, RevertReason>(RevertReason::AssetNotFound),
            r matches Ok(call) ==> call matches PalletXcmCall::TransferAssets { dest: d, beneficiary: b, assets: a, fee_asset_item: f }
                && d@ == (LocationView { parents: 1, interior: Seq::<Junction>::empty() })
                && b@ == (LocationView { parents: 0, interior: seq![Junction::AccountId32 { network: None, id: beneficiary }] })
                && converted_assets(*mapping, *matcher, assets@, a@) && f == fee_asset_item,
    {
        match Self::assets_to_send(mapping, matcher, assets) {
            Err(e) => Err(e),
            Ok(sent) => {
                let ghost sv = sent@;
                let call = Self::transfer_assets_to_relay(beneficiary, sent, fee_asset_item);
                proof { lemma_same_assets_view(mapping, matcher, assets@, sv, call); }
                Ok(call)
            },
        }
    }

    /// The call for `transferAssetsUsingTypeAndThen` with transfer types
    /// given by number: reverts when the fee asset index is out of range or
    /// a transfer type number is unknown, in that order.
    pub fn transfer_assets_using_type_and_then_no_remote_reserve(
        dest: Location,
        assets_to_send: Vec<Asset>,
        assets_transfer_type: u8,
        remote_fees_id_index: u8,
        fees_transfer_type: u8,
        custom_xcm_on_dest: Vec<u8>,
    ) -> (r: Result<PalletXcmCall, RevertReason>)
        requires
            distinct_asset_ids(assets_to_send@),
        ensures
            remote_fees_id_index as int >= assets_to_send@.len()
                ==> r matches Err(RevertReason::RemoteFeesIdNotFound),
            remote_fees_id_index as int >= assets_to_send@.len() || assets_transfer_type > 2 || fees_transfer_type > 2
                <==> r is Err,
            remote_fees_id_index as int <= assets_to_send@.len() - 1 && (assets_transfer_type > 2 || fees_transfer_type > 2)
                ==> r matches Err(RevertReason::FailedDecodingTransferType),
            r matches Ok(call) ==> call matches PalletXcmCall::TransferAssetsUsingTypeAndThen {
                dest: d, assets: a, assets_transfer_type: at, remote_fees_id: f, fees_transfer_type: ft, custom_xcm_on_dest: c }
                && d@ == dest@ && assets_view(a@) == assets_view(assets_to_send@)
                && f@ == assets_to_send@[remote_fees_id_index as int].id@
                && transfer_type_of(at, assets_transfer_type) && transfer_type_of(ft, fees_transfer_type)
                && c@ == custom_xcm_on_dest@,
    {
        let remote_fees_id = match Self::remote_fees_id(&assets_to_send, Some(remote_fees_id_index as usize)) {
            Ok(Some(l)) => l,
            _ => { return Err(RevertReason::RemoteFeesIdNotFound); },
        };
        let assets_transfer_type = match Self::parse_transfer_type(assets_transfer_type) {
            Ok(t) => t,
            Err(e) => { return Err(e); },
        };
        let fees_transfer_type = match Self::parse_transfer_type(fees_transfer_type) {
            Ok(t) => t,
            Err(e) => { return Err(e); },
        };
        Ok(PalletXcmCall::TransferAssetsUsingTypeAndThen {
            dest,
            assets: assets_to_send,
            assets_transfer_type,
            remote_fees_id,
            fees_transfer_type,
            custom_xcm_on_dest,
        })
    }

    /// The call for `transferAssetsUsingTypeAndThen` through the remote
    /// reserve `remote_reserve`, for assets and fees alike: reverts when the
    /// fee asset index is out of range.
    pub fn transfer_assets_using_type_and_then_remote_reserve(
        dest: Location,
        assets_to_send: Vec<Asset>,
        remote_fees_id_index: u8,
        custom_xcm_on_dest: Vec<u8>,
        remote_reserve: Location,
    ) -> (r: Result<PalletXcmCall, RevertReason>)
        requires
            distinct_asset_ids(assets_to_send@),
        ensures
            remote_fees_id_index as int >= assets_to_send@.len()
                <==> r matches Err(RevertReason::RemoteFeesIdNotFound),
            r is Err ==> r matches Err(RevertReason::RemoteFeesIdNotFound),
            r matches Ok(call) ==> call matches PalletXcmCall::TransferAssetsUsingTypeAndThen {
                dest: d, assets: a, assets_transfer_type: at, remote_fees_id: f, fees_transfer_type: ft, custom_xcm_on_dest: c }
                && d@ == dest@ && assets_view(a@) == assets_view(assets_to_send@)
                && f@ == assets_to_send@[remote_fees_id_index as int].id@
                && (at matches TransferType::RemoteReserve(l) && l@ == remote_reserve@)
                && (ft matches TransferType::RemoteReserve(l) && l@ == remote_reserve@)
                && c@ == custom_xcm_on_dest@,
    {
        let remote_fees_id = match Self::remote_fees_id(&assets_to_send, Some(remote_fees_id_index as usize)) {
            Ok(Some(l)) => l,
            _ => { return Err(RevertReason::RemoteFeesIdNotFound); },
        };
        let reserve_copy = clone_location(&remote_reserve);
        Ok(PalletXcmCall::TransferAssetsUsingTypeAndThen {
            dest,
            assets: assets_to_send,
            assets_transfer_type: TransferType::RemoteReserve(reserve_copy),
            remote_fees_id,
            fees_transfer_type: TransferType::RemoteReserve(remote_reserve),
            custom_xcm_on_dest,
        })
    }
}

/// Whether `sent` holds, in order, one fungible asset per asset address
/// of `assets`: at the location the address stands for, of its amount.
pub open spec fn converted_assets<A: AddressMapping, L: AccountIdToLocationMatcher>(
    mapping: A,
    matcher: L,
    assets: Seq<([u8; 20], u128)>,
    sent: Seq<Asset>,
) -> bool {
    &&& sent.len() == assets.len()
    &&& forall|k: int| 0 <= k < assets.len() ==>
        Some(#[trigger] sent[k].id@) == matcher.spec_convert(mapping.spec_into_account_id(assets[k].0)@)
        && sent[k].fun == Fungibility::Fungible(assets[k].1)
}

/// Assets with the same views are converted from the same addresses.
proof fn lemma_same_assets_view<A: AddressMapping, L: AccountIdToLocationMatcher>(
    mapping: &A,
    matcher: &L,
    assets: Seq<([u8; 20], u128)>,
    sent: Seq<Asset>,
    call: PalletXcmCall,
)
    requires
        converted_assets(*mapping, *matcher, assets, sent),
        call matches PalletXcmCall::TransferAssets { assets: a, .. } && assets_view(a@) == assets_view(sent),
    ensures
        call matches PalletXcmCall::TransferAssets { assets: a, .. } && converted_assets(*mapping, *matcher, assets, a@),
{
    match call {
        PalletXcmCall::TransferAssets { assets: a, .. } => {
            assert(a@.len() == assets_view(a@).len());
            assert forall|k: int| 0 <= k < assets.len() implies
                Some(#[trigger] a@[k].id@) == matcher.spec_convert(mapping.spec_into_account_id(assets[k].0)@)
                && a@[k].fun == Fungibility::Fungible(assets[k].1) by {
                assert(assets_view(a@)[k] == assets_view(sent)[k]);
                assert(sent[k].id@ == a@[k].id@);
            }
        },
        _ => {},
    }
}

/// Whether `t` is the transfer type of number `n`.
pub open spec fn transfer_type_of(t: TransferType, n: u8) -> bool {
    ||| n == 0 && t is Teleport
    ||| n == 1 && t is LocalReserve
    ||| n == 2 && t is DestinationReserve
}

} // verus!
