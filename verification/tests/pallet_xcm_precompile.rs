use moonkit::location_converter::{AssetIdInfoGetter, AssetLocationTable, GetAssetIdInfo, MatchThroughEquivalence};
use moonkit::location_matcher::{AccountIdToLocationMatcher, SingleAddressMatcher};
use moonkit::xcm::{h160_from_low_u64_be, Asset, Fungibility, Junction, Location};
use moonkit::xcm_precompile::{IdentityAddressMapping, PalletXcmCall, PalletXcmPrecompile, RevertReason};
use std::marker::PhantomData;

/// The index of pallet-balances in the test runtime.
const BALANCES_INDEX: u8 = 1;

/// Bob, the beneficiary of the 20-byte transfers.
const BOB: [u8; 20] = [0xbb; 20];

/// The foreign asset of id 5 under the `[255; 18]` prefix.
fn foreign_asset_address() -> [u8; 20] {
    let mut address = [0xffu8; 20];
    address[18] = 0;
    address[19] = 5;
    address
}

fn location(parents: u8, interior: Vec<Junction>) -> Location {
    Location::new(parents, interior)
}

type ForeignAssetMatch = MatchThroughEquivalence<u16, AssetIdInfoGetter, AssetLocationTable>;

/// The matcher of the test runtime: pallet-balances at address 2050, then
/// the foreign assets registered at `registered`.
fn matcher(registered: Location) -> (SingleAddressMatcher, ForeignAssetMatch) {
    (
        SingleAddressMatcher { address: 2050, pallet_index: BALANCES_INDEX },
        MatchThroughEquivalence { locations: AssetLocationTable { entries: vec![(5, registered)] }, layout: PhantomData },
    )
}

/// The assets of a call, as (location, amount) pairs.
fn sent(call: &PalletXcmCall) -> Vec<(u8, Vec<Junction>, Fungibility)> {
    match call {
        PalletXcmCall::TransferAssets { assets, .. } => {
            assets.iter().map(|a| (a.id.parents, a.id.interior.clone(), a.fun)).collect()
        }
        _ => panic!("expected a plain transfer"),
    }
}

fn transfer_parts(call: &PalletXcmCall) -> (&Location, &Location, u32) {
    match call {
        PalletXcmCall::TransferAssets { dest, beneficiary, fee_asset_item, .. } => (dest, beneficiary, *fee_asset_item),
        _ => panic!("expected a plain transfer"),
    }
}

fn fungible(pairs: Vec<(Location, u128)>) -> Vec<Asset> {
    PalletXcmPrecompile::fungible_assets(pairs)
}

#[test]
fn test_transfer_assets_works() {
    let dest = location(1, vec![Junction::Parachain(2)]);
    // Specify the beneficiary from the destination's point of view
    let beneficiary = location(0, vec![Junction::AccountKey20 { network: None, key: [1; 20] }]);
    let destination_asset_location = location(1, vec![Junction::Parachain(2), Junction::PalletInstance(3)]);
    let origin_asset_location = location(0, vec![Junction::PalletInstance(1)]);
    let assets = fungible(vec![(origin_asset_location, 100), (destination_asset_location, 150)]);
    assert!(PalletXcmPrecompile::is_asset_set(&assets));
    let call = PalletXcmPrecompile::transfer_assets_location(dest, beneficiary, assets, 0);
    let (d, b, fee) = transfer_parts(&call);
    assert_eq!((d.parents, d.interior.clone()), (1, vec![Junction::Parachain(2)]));
    assert_eq!(b.interior, vec![Junction::AccountKey20 { network: None, key: [1; 20] }]);
    assert_eq!(fee, 0);
    assert_eq!(
        sent(&call),
        vec![
            (0, vec![Junction::PalletInstance(1)], Fungibility::Fungible(100)),
            (1, vec![Junction::Parachain(2), Junction::PalletInstance(3)], Fungibility::Fungible(150)),
        ]
    );
}

#[test]
fn test_transfer_assets_success_when_paying_fees_with_foreign_asset() {
    let dest = location(1, vec![Junction::Parachain(2)]);
    let beneficiary = location(0, vec![Junction::AccountKey20 { network: None, key: [1; 20] }]);
    let destination_asset_location = location(1, vec![Junction::Parachain(2), Junction::PalletInstance(3)]);
    let origin_asset_location = location(0, vec![Junction::PalletInstance(1)]);
    let assets = fungible(vec![(origin_asset_location, 100), (destination_asset_location, 150)]);
    // We also act as a reserve for the foreign asset thus when can pay local
    // fees with it.
    let call = PalletXcmPrecompile::transfer_assets_location(dest, beneficiary, assets, 1);
    let (_, _, fee) = transfer_parts(&call);
    assert_eq!(fee, 1);
    assert_eq!(sent(&call)[1].1, vec![Junction::Parachain(2), Junction::PalletInstance(3)]);
}

#[test]
fn test_transfer_assets_to_para_20_native_asset() {
    // We send the native currency of the origin chain.
    let pallet_balances_address = h160_from_low_u64_be(2050);
    let call = PalletXcmPrecompile::transfer_assets_to_para_20_call(
        &IdentityAddressMapping, &matcher(Location::parent()), 2, BOB, &vec![(pallet_balances_address, 500)], 0)
        .unwrap_or_else(|_| panic!("every asset has a location"));
    let (d, b, fee) = transfer_parts(&call);
    assert_eq!((d.parents, d.interior.clone()), (1, vec![Junction::Parachain(2)]));
    assert_eq!(b.interior, vec![Junction::AccountKey20 { network: None, key: BOB }]);
    assert_eq!(fee, 0);
    assert_eq!(sent(&call), vec![(0, vec![Junction::PalletInstance(BALANCES_INDEX)], Fungibility::Fungible(500))]);
}

#[test]
fn test_transfer_assets_to_para_32_native_asset() {
    let pallet_balances_address = h160_from_low_u64_be(2050);
    let call = PalletXcmPrecompile::transfer_assets_to_para_32_call(
        &IdentityAddressMapping, &matcher(Location::parent()), 2, [1u8; 32], &vec![(pallet_balances_address, 500)], 0)
        .unwrap_or_else(|_| panic!("every asset has a location"));
    let (d, b, _) = transfer_parts(&call);
    assert_eq!(d.interior, vec![Junction::Parachain(2)]);
    assert_eq!(b.interior, vec![Junction::AccountId32 { network: None, id: [1u8; 32] }]);
    assert_eq!(sent(&call), vec![(0, vec![Junction::PalletInstance(BALANCES_INDEX)], Fungibility::Fungible(500))]);
}

#[test]
fn test_transfer_assets_to_relay_native_asset() {
    let pallet_balances_address = h160_from_low_u64_be(2050);
    let call = PalletXcmPrecompile::transfer_assets_to_relay_call(
        &IdentityAddressMapping, &matcher(Location::parent()), [1u8; 32], &vec![(pallet_balances_address, 500)], 0)
        .unwrap_or_else(|_| panic!("every asset has a location"));
    let (d, b, _) = transfer_parts(&call);
    assert_eq!((d.parents, d.interior.len()), (1, 0));
    assert_eq!(b.interior, vec![Junction::AccountId32 { network: None, id: [1u8; 32] }]);
    assert_eq!(sent(&call), vec![(0, vec![Junction::PalletInstance(BALANCES_INDEX)], Fungibility::Fungible(500))]);
}

#[test]
fn test_transfer_assets_to_para_20_foreign_asset() {
    let registered = location(1, vec![Junction::Parachain(2), Junction::PalletInstance(3)]);
    // Foreign asset with prefix [255; 18] and assetId of 5u16.
    let asset_address = foreign_asset_address();
    // We send the native currency of the origin chain and pay fees with it.
    let pallet_balances_address = h160_from_low_u64_be(2050);
    let call = PalletXcmPrecompile::transfer_assets_to_para_20_call(
        &IdentityAddressMapping, &matcher(registered), 2, BOB, &vec![(pallet_balances_address, 500), (asset_address, 500)], 0)
        .unwrap_or_else(|_| panic!("every asset has a location"));
    assert_eq!(
        sent(&call),
        vec![
            (0, vec![Junction::PalletInstance(BALANCES_INDEX)], Fungibility::Fungible(500)),
            (1, vec![Junction::Parachain(2), Junction::PalletInstance(3)], Fungibility::Fungible(500)),
        ]
    );
}

#[test]
fn test_transfer_assets_to_para_32_foreign_asset() {
    let registered = location(1, vec![Junction::Parachain(2), Junction::PalletInstance(3)]);
    let asset_address = foreign_asset_address();
    let pallet_balances_address = h160_from_low_u64_be(2050);
    let call = PalletXcmPrecompile::transfer_assets_to_para_32_call(
        &IdentityAddressMapping, &matcher(registered), 2, [0u8; 32], &vec![(pallet_balances_address, 500), (asset_address, 500)], 0)
        .unwrap_or_else(|_| panic!("every asset has a location"));
    let (_, b, _) = transfer_parts(&call);
    assert_eq!(b.interior, vec![Junction::AccountId32 { network: None, id: [0u8; 32] }]);
    assert_eq!(sent(&call)[1].1, vec![Junction::Parachain(2), Junction::PalletInstance(3)]);
}

#[test]
fn test_transfer_assets_to_relay_foreign_asset() {
    let asset_address = foreign_asset_address();
    let pallet_balances_address = h160_from_low_u64_be(2050);
    let call = PalletXcmPrecompile::transfer_assets_to_relay_call(
        &IdentityAddressMapping, &matcher(Location::parent()), [0u8; 32], &vec![(pallet_balances_address, 500), (asset_address, 500)], 0)
        .unwrap_or_else(|_| panic!("every asset has a location"));
    assert_eq!(
        sent(&call),
        vec![
            (0, vec![Junction::PalletInstance(BALANCES_INDEX)], Fungibility::Fungible(500)),
            (1, vec![], Fungibility::Fungible(500)),
        ]
    );
}

#[test]
fn foreign_asset_account_decodes_its_id() {
    let info16 = <AssetIdInfoGetter as GetAssetIdInfo<u16>>::get_asset_id_info();
    assert_eq!(ForeignAssetMatch::account_to_asset_id(foreign_asset_address(), &info16), Some((vec![255u8; 18], 5u16)));
    let mut other = foreign_asset_address();
    other[0] = 0;
    assert_eq!(ForeignAssetMatch::account_to_asset_id(other, &info16), None);

    let mut account128 = [0u8; 20];
    account128[..4].copy_from_slice(&[255u8; 4]);
    account128[19] = 7;
    account128[18] = 1;
    let info128 = <AssetIdInfoGetter as GetAssetIdInfo<u128>>::get_asset_id_info();
    assert_eq!(
        MatchThroughEquivalence::<u128, AssetIdInfoGetter, AssetLocationTable>::account_to_asset_id(account128, &info128),
        Some((vec![255u8; 4], 263u128))
    );
    let mut big = [255u8; 20];
    big[18] = 0xff;
    big[19] = 0xff;
    assert_eq!(ForeignAssetMatch::account_to_asset_id(big, &info16), Some((vec![255u8; 18], 0xffffu16)));
}

#[test]
fn unregistered_foreign_asset_has_no_location() {
    let unregistered = (
        SingleAddressMatcher { address: 2050, pallet_index: BALANCES_INDEX },
        ForeignAssetMatch { locations: AssetLocationTable { entries: vec![(6, Location::parent())] }, layout: PhantomData },
    );
    assert!(unregistered.convert(foreign_asset_address()).is_none());
    let r = PalletXcmPrecompile::convert_assets(&IdentityAddressMapping, &unregistered, &vec![(foreign_asset_address(), 1)]);
    assert!(matches!(r, Err(RevertReason::AssetNotFound)));
}

#[test]
fn asset_sets_have_distinct_locations() {
    let twice = fungible(vec![(Location::parent(), 1), (Location::parent(), 2)]);
    assert!(!PalletXcmPrecompile::is_asset_set(&twice));
    let once = fungible(vec![(Location::parent(), 1), (location(0, vec![Junction::PalletInstance(1)]), 2)]);
    assert!(PalletXcmPrecompile::is_asset_set(&once));
}

#[test]
fn transfer_with_an_unknown_asset_reverts_before_any_call() {
    let pairs = vec![(h160_from_low_u64_be(2050), 500), (h160_from_low_u64_be(7), 1)];
    let m = matcher(Location::parent());
    assert!(matches!(
        PalletXcmPrecompile::transfer_assets_to_para_20_call(&IdentityAddressMapping, &m, 2, BOB, &pairs, 0),
        Err(RevertReason::AssetNotFound)
    ));
    assert!(matches!(
        PalletXcmPrecompile::transfer_assets_to_para_32_call(&IdentityAddressMapping, &m, 2, [0; 32], &pairs, 0),
        Err(RevertReason::AssetNotFound)
    ));
    assert!(matches!(
        PalletXcmPrecompile::transfer_assets_to_relay_call(&IdentityAddressMapping, &m, [0; 32], &pairs, 0),
        Err(RevertReason::AssetNotFound)
    ));
}
