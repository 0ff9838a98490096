use moonkit::collator::{encode_u64, override_timestamp, pre_digest_logs, RelayParentData, SlotClaim, TIMESTAMP_INHERENT_IDENTIFIER};
use moonkit::collators::{
    allowed_pov_size, ancestry_lookback, claim_slot, cores_scheduled_for_para, find_parent, is_para_scheduled,
    lookahead_pov_size, max_ancestry_lookback, para_slot, scheduling_lookahead, unincluded_segment_slot,
    validation_code_status, BasicCollatorAction, BasicCollatorThrottle, ClaimError, PotentialParent, ValidationCodeStatus,
    lookahead_plan, LookaheadPlan, LookaheadRound, LOOKAHEAD_BLOCKS_PER_RELAY_PARENT,
    lookahead_parent_search_params, parent_search_params, ParentSearchParams,
};
use moonkit::digest::{nimbus_seal, DigestItem, NIMBUS_ENGINE_ID};
use moonkit::executive::{BlockExecutor, SealFailure};
use moonkit::holding::HoldingCredit;
use moonkit::inherents::{InherentData, InherentDataError, InherentDataProvider};
use moonkit::location_converter::{AssetIdInfoGetter, GetAssetIdInfo};
use moonkit::location_matcher::{AccountIdToLocationMatcher, Erc20PalletMatcher, SingleAddressMatcher};
use moonkit::slots::{relay_chain_timestamp, slot_from_timestamp};
use moonkit::weights::{RuntimeDbWeight, Weight};
use moonkit::xcm::{
    h160_from_low_u64_be, Asset, Fungibility, Junction, Location, XcmLocalBeneficiary20Generator,
    XcmLocalBeneficiary32Generator, XcmSiblingDestinationGenerator,
};
use moonkit::xcm_precompile::{IdentityAddressMapping, PalletXcmCall, PalletXcmPrecompile, RevertReason, TransferType};

// ---- weights and slots ----

#[test]
fn weights_saturate() {
    let w = Weight::from_parts(u64::MAX - 1, 5).saturating_add(Weight::from_parts(10, 6));
    assert_eq!(w, Weight { ref_time: u64::MAX, proof_size: 11 });
    let db = RuntimeDbWeight::rocks_db();
    assert_eq!(db.reads(2), Weight { ref_time: 50_000_000, proof_size: 0 });
    assert_eq!(db.writes(3), Weight { ref_time: 300_000_000, proof_size: 0 });
    assert_eq!(db.reads_writes(1, 1), Weight { ref_time: 125_000_000, proof_size: 0 });
    assert_eq!(RuntimeDbWeight { read: u64::MAX, write: 1 }.reads_writes(2, 1).ref_time, u64::MAX);
    assert_eq!(Weight::zero().add(Weight::from_parts(3, 4)), Weight { ref_time: 3, proof_size: 4 });
}

#[test]
fn slots_number_time() {
    assert_eq!(slot_from_timestamp(12_345, 6_000), 2);
    assert_eq!(relay_chain_timestamp(6_000, 3), 18_000);
    assert_eq!(relay_chain_timestamp(6_000, u64::MAX), u64::MAX);
}

// ---- XCM locations and matchers ----

#[test]
fn h160_from_low_u64_is_big_endian() {
    let a = h160_from_low_u64_be(2050);
    let mut expected = [0u8; 20];
    expected[18] = 8;
    expected[19] = 2;
    assert_eq!(a, expected);
    let b = h160_from_low_u64_be(0x0102030405060708);
    assert_eq!(&b[12..], &[1, 2, 3, 4, 5, 6, 7, 8]);
    assert_eq!(&b[..12], &[0u8; 12]);
}

#[test]
fn generators_build_the_expected_locations() {
    let dest = XcmSiblingDestinationGenerator::generate(2);
    assert_eq!(dest.parents, 1);
    assert_eq!(dest.interior, vec![Junction::Parachain(2)]);
    let b20 = XcmLocalBeneficiary20Generator::generate([3u8; 20]);
    assert_eq!(b20.parents, 0);
    assert_eq!(b20.interior, vec![Junction::AccountKey20 { network: None, key: [3u8; 20] }]);
    let b32 = XcmLocalBeneficiary32Generator::generate([4u8; 32]);
    assert_eq!(b32.parents, 0);
    assert_eq!(b32.interior, vec![Junction::AccountId32 { network: None, id: [4u8; 32] }]);
}

#[test]
fn matchers_find_locations() {
    let balances = SingleAddressMatcher { address: 2050, pallet_index: 3 };
    let found = balances.convert(h160_from_low_u64_be(2050)).unwrap();
    assert_eq!(found.parents, 0);
    assert_eq!(found.interior, vec![Junction::PalletInstance(3)]);
    assert!(balances.convert(h160_from_low_u64_be(2051)).is_none());

    let erc20 = Erc20PalletMatcher { pallet_index: 48 };
    let token = erc20.convert([9u8; 20]).unwrap();
    assert_eq!(token.interior, vec![Junction::PalletInstance(48), Junction::AccountKey20 { network: None, key: [9u8; 20] }]);

    // The first matcher that knows the account wins.
    let both = (balances, erc20);
    assert_eq!(both.convert(h160_from_low_u64_be(2050)).unwrap().interior, vec![Junction::PalletInstance(3)]);
    assert_eq!(both.convert([9u8; 20]).unwrap().interior.len(), 2);
}

#[test]
fn standard_asset_id_layouts() {
    let info128 = <AssetIdInfoGetter as GetAssetIdInfo<u128>>::get_asset_id_info();
    assert_eq!(info128.foreign_asset_prefix, vec![255u8; 4]);
    assert_eq!(info128.size_of, 16);
    let info16 = <AssetIdInfoGetter as GetAssetIdInfo<u16>>::get_asset_id_info();
    assert_eq!(info16.foreign_asset_prefix, vec![255u8; 18]);
    assert_eq!(info16.size_of, 2);
}

// ---- the XCM precompile ----

#[test]
fn transfer_types_decode() {
    assert!(matches!(PalletXcmPrecompile::parse_transfer_type(0), Ok(TransferType::Teleport)));
    assert!(matches!(PalletXcmPrecompile::parse_transfer_type(1), Ok(TransferType::LocalReserve)));
    assert!(matches!(PalletXcmPrecompile::parse_transfer_type(2), Ok(TransferType::DestinationReserve)));
    assert!(matches!(PalletXcmPrecompile::parse_transfer_type(3), Err(RevertReason::FailedDecodingTransferType)));
}

#[test]
fn transfer_native_asset_to_para_20() {
    // The native currency of the origin chain, at the pallet-balances address.
    let pallet_balances_address = h160_from_low_u64_be(2050);
    let matcher = SingleAddressMatcher { address: 2050, pallet_index: 3 };
    let pairs = PalletXcmPrecompile::convert_assets(&IdentityAddressMapping, &matcher, &vec![(pallet_balances_address, 500)])
        .unwrap();
    let assets = PalletXcmPrecompile::fungible_assets(pairs);
    assert_eq!(assets.len(), 1);
    assert_eq!(assets[0].id.interior, vec![Junction::PalletInstance(3)]);
    assert_eq!(assets[0].fun, Fungibility::Fungible(500));
    match PalletXcmPrecompile::transfer_assets_to_para_20(2, [0xbb; 20], assets, 0) {
        PalletXcmCall::TransferAssets { dest, beneficiary, assets, fee_asset_item } => {
            assert_eq!((dest.parents, dest.interior), (1, vec![Junction::Parachain(2)]));
            assert_eq!(beneficiary.interior, vec![Junction::AccountKey20 { network: None, key: [0xbb; 20] }]);
            assert_eq!(assets.len(), 1);
            assert_eq!(fee_asset_item, 0);
        }
        _ => panic!("expected a plain transfer"),
    }
}

#[test]
fn unknown_asset_address_reverts() {
    let matcher = SingleAddressMatcher { address: 2050, pallet_index: 3 };
    let r = PalletXcmPrecompile::convert_assets(
        &IdentityAddressMapping,
        &matcher,
        &vec![(h160_from_low_u64_be(2050), 1), (h160_from_low_u64_be(7), 1)],
    );
    assert!(matches!(r, Err(RevertReason::AssetNotFound)));
}

#[test]
fn transfer_to_relay_and_para_32() {
    let asset = || vec![Asset { id: Location::parent(), fun: Fungibility::Fungible(500) }];
    match PalletXcmPrecompile::transfer_assets_to_relay([1u8; 32], asset(), 0) {
        PalletXcmCall::TransferAssets { dest, beneficiary, .. } => {
            assert_eq!((dest.parents, dest.interior.len()), (1, 0));
            assert_eq!(beneficiary.interior, vec![Junction::AccountId32 { network: None, id: [1u8; 32] }]);
        }
        _ => panic!("expected a plain transfer"),
    }
    match PalletXcmPrecompile::transfer_assets_to_para_32(2, [1u8; 32], asset(), 0) {
        PalletXcmCall::TransferAssets { dest, .. } => assert_eq!(dest.interior, vec![Junction::Parachain(2)]),
        _ => panic!("expected a plain transfer"),
    }
}

#[test]
fn transfer_using_type_and_then_checks_its_arguments() {
    let assets = || vec![Asset { id: Location::parent(), fun: Fungibility::Fungible(5) }];
    let r = PalletXcmPrecompile::transfer_assets_using_type_and_then_no_remote_reserve(
        Location::parent(), assets(), 0, 1, 0, vec![]);
    assert!(matches!(r, Err(RevertReason::RemoteFeesIdNotFound)));
    let r = PalletXcmPrecompile::transfer_assets_using_type_and_then_no_remote_reserve(
        Location::parent(), assets(), 3, 0, 0, vec![]);
    assert!(matches!(r, Err(RevertReason::FailedDecodingTransferType)));
    let r = PalletXcmPrecompile::transfer_assets_using_type_and_then_no_remote_reserve(
        Location::parent(), assets(), 1, 0, 2, vec![4, 5]);
    match r {
        Ok(PalletXcmCall::TransferAssetsUsingTypeAndThen { assets_transfer_type, fees_transfer_type, custom_xcm_on_dest, .. }) => {
            assert!(matches!(assets_transfer_type, TransferType::LocalReserve));
            assert!(matches!(fees_transfer_type, TransferType::DestinationReserve));
            assert_eq!(custom_xcm_on_dest, vec![4, 5]);
        }
        _ => panic!("expected a typed transfer"),
    }
}

#[test]
fn remote_fees_id_is_the_indexed_asset() {
    let assets = vec![
        Asset { id: Location::parent(), fun: Fungibility::Fungible(5) },
        Asset { id: XcmSiblingDestinationGenerator::generate(9), fun: Fungibility::Fungible(6) },
    ];
    assert!(matches!(PalletXcmPrecompile::remote_fees_id(&assets, None), Ok(None)));
    let fees = PalletXcmPrecompile::remote_fees_id(&assets, Some(1)).unwrap().unwrap();
    assert_eq!(fees.interior, vec![Junction::Parachain(9)]);
    assert!(matches!(PalletXcmPrecompile::remote_fees_id(&assets, Some(2)), Err(RevertReason::RemoteFeesIdNotFound)));
}

// ---- holding credit ----

#[test]
fn credit_is_conserved_by_take_and_subsume() {
    let mut credit = HoldingCredit::new(100);
    let taken = credit.saturating_take(30);
    assert_eq!((credit.amount(), taken.amount()), (70, 30));
    credit.saturating_subsume(taken);
    assert_eq!(credit.amount(), 100);
    let all = credit.saturating_take(1_000);
    assert_eq!((credit.amount(), all.amount()), (0, 100));
    let mut max = HoldingCredit::new(u128::MAX);
    max.saturating_subsume(HoldingCredit::new(1));
    assert_eq!(max.amount(), u128::MAX);
    let mut copy = max.unsafe_clone();
    assert_eq!(copy.forget_imbalance(), u128::MAX);
    assert_eq!(copy.amount(), 0);
}

// ---- inherent data ----

#[test]
fn inherent_data_put_and_replace() {
    let mut data = InherentData::new();
    assert!(data.put_data(*b"testinh0", vec![1, 2]).is_ok());
    match data.put_data(*b"testinh0", vec![3]) {
        Err(InherentDataError::InherentDataExists(id)) => assert_eq!(&id, b"testinh0"),
        _ => panic!("a second put must fail"),
    }
    assert_eq!(data.get_data(b"testinh0"), Some(vec![1, 2]));
    data.replace_data(*b"testinh0", vec![3]);
    assert_eq!(data.get_data(b"testinh0"), Some(vec![3]));
    assert_eq!(data.get_data(b"testinh1"), None);
}

#[test]
fn author_inherent_data_is_empty_and_errors_are_fatal() {
    let provider = InherentDataProvider;
    let mut data = InherentData::new();
    assert!(provider.provide_inherent_data(&mut data).is_ok());
    assert_eq!(data.get_data(b"author__"), Some(vec![]));
    assert!(matches!(provider.provide_inherent_data(&mut data), Err(InherentDataError::InherentDataExists(_))));
    match provider.try_handle_error(b"author__", &[]) {
        Some(Err(InherentDataError::Application(m))) => assert_eq!(m, "Error processing dummy nimbus inherent"),
        _ => panic!("errors of the author inherent are fatal"),
    }
    assert!(provider.try_handle_error(b"timstap0", &[]).is_none());
}

#[test]
fn timestamp_override_is_scale_encoded() {
    assert_eq!(encode_u64(0x0102030405060708), vec![8, 7, 6, 5, 4, 3, 2, 1]);
    let mut data = InherentData::new();
    data.put_data(TIMESTAMP_INHERENT_IDENTIFIER, encode_u64(1)).unwrap();
    override_timestamp(&mut data, Some(258));
    assert_eq!(data.get_data(&TIMESTAMP_INHERENT_IDENTIFIER), Some(vec![2, 1, 0, 0, 0, 0, 0, 0]));
    override_timestamp(&mut data, None);
    assert_eq!(data.get_data(&TIMESTAMP_INHERENT_IDENTIFIER), Some(vec![2, 1, 0, 0, 0, 0, 0, 0]));
}

// ---- the collator ----

#[test]
fn slot_claim_and_pre_digest() {
    let claim = SlotClaim::unchecked([6u8; 32], 42);
    assert_eq!(claim.timestamp(), 42);
    assert_eq!(claim.author_id(), [6u8; 32]);
    let logs = pre_digest_logs([6u8; 32], Some(vec![DigestItem::Other(vec![1])]));
    assert_eq!(logs.len(), 2);
    match &logs[0] {
        DigestItem::PreRuntime(id, data) => {
            assert_eq!(id, &NIMBUS_ENGINE_ID);
            assert_eq!(data, &vec![6u8; 32]);
        }
        _ => panic!("the author comes first"),
    }
    assert_eq!(pre_digest_logs([6u8; 32], None).len(), 1);
}

#[test]
fn relay_parent_descendants() {
    assert_eq!(RelayParentData::new(1u32).into_inherent_descendant_list(), Vec::<u32>::new());
    let data = RelayParentData::new_with_descendants(1u32, vec![2, 3]);
    assert_eq!(*data.relay_parent(), 1);
    assert_eq!(data.descendants_len(), 2);
    assert_eq!(data.into_inherent_descendant_list(), vec![1, 2, 3]);
}

#[test]
fn parent_search_picks_included_and_deepest() {
    let p = |depth: usize, tag: u8| PotentialParent { header: tag, hash: [tag; 32], depth };
    let parents = vec![p(0, 1), p(2, 2), p(3, 3), p(3, 4), p(1, 5)];
    assert_eq!(find_parent(&parents), Some((0, 3)));
    assert_eq!(find_parent(&vec![p(1, 1)]), None);
}

#[test]
fn scheduling_and_lookback() {
    assert_eq!(ancestry_lookback(Some(3)), 2);
    assert_eq!(ancestry_lookback(Some(0)), 0);
    assert_eq!(ancestry_lookback(None), 2);
    assert_eq!(scheduling_lookahead(Some(12), 12, Some(5)), Some(5));
    assert_eq!(scheduling_lookahead(Some(11), 12, Some(5)), None);
    assert_eq!(cores_scheduled_for_para(&vec![(0, 7), (1, 8), (2, 7)], 7), vec![0, 2]);
    assert!(is_para_scheduled(&vec![None, Some(7)], 7));
    assert!(!is_para_scheduled(&vec![None, Some(8)], 7));
    assert_eq!(max_ancestry_lookback(Some(4)), 4);
    assert_eq!(unincluded_segment_slot(2, 10, 20), 10);
    assert_eq!(unincluded_segment_slot(1, 10, 20), 20);
    assert_eq!(para_slot(10, 60_000, Some(12_000)), 5);
    assert_eq!(para_slot(10, 60_000, None), 10);
}

#[test]
fn validation_code_is_compared_with_the_relay_chain() {
    assert_eq!(validation_code_status(&[1; 32], Some([1; 32])), ValidationCodeStatus::Matches);
    assert_eq!(validation_code_status(&[1; 32], Some([2; 32])), ValidationCodeStatus::Mismatch);
    assert_eq!(validation_code_status(&[1; 32], None), ValidationCodeStatus::Missing);
}

#[test]
fn slot_is_claimed_with_the_right_key() {
    let keys = vec![vec![1u8; 32], vec![2u8; 32]];
    assert_eq!(claim_slot(&keys, &vec![false, true], false, false), Ok(Some([2u8; 32])));
    assert_eq!(claim_slot(&keys, &vec![false, false], false, false), Ok(None));
    assert_eq!(claim_slot(&keys, &vec![false, false], true, false), Ok(Some([1u8; 32])));
    assert_eq!(claim_slot(&vec![vec![1u8; 31]], &vec![true], false, true), Err(ClaimError::InvalidNimbusId));
    assert_eq!(claim_slot(&vec![], &vec![], true, false), Ok(None));
}

#[test]
fn pov_sizes() {
    assert_eq!(allowed_pov_size(5_000_000, 50), 2_500_000);
    assert_eq!(allowed_pov_size(5_000_000, 100), 4_250_000);
    assert_eq!(allowed_pov_size(u32::MAX, 255), (u32::MAX as usize * 85) / 100);
    assert_eq!(lookahead_pov_size(5_000_001), 2_500_000);
}

#[test]
fn basic_collator_builds_once_per_slot() {
    let mut throttle = BasicCollatorThrottle::new();
    assert!(!throttle.should_skip(5, 10));
    throttle.record(5, 10);
    assert!(throttle.should_skip(5, 11));
    assert!(throttle.should_skip(4, 11));
    assert!(!throttle.should_skip(6, 11));
    assert!(!throttle.should_skip(5, 10));
}

// ---- the block executor ----

#[test]
fn seal_is_removed_and_checked_against_the_author() {
    let mut logs = vec![
        DigestItem::PreRuntime(NIMBUS_ENGINE_ID, vec![8u8; 32]),
        nimbus_seal([9u8; 64]),
    ];
    assert_eq!(BlockExecutor::seal_failure(&logs), None);
    let (signature, author) = BlockExecutor::remove_seal(&mut logs);
    assert_eq!(signature, [9u8; 64]);
    assert_eq!(author, [8u8; 32]);
    assert_eq!(logs.len(), 1);
}

#[test]
fn unsealed_blocks_are_told_apart() {
    assert_eq!(BlockExecutor::seal_failure(&vec![]), Some(SealFailure::MissingSeal));
    let unsealed = vec![DigestItem::PreRuntime(NIMBUS_ENGINE_ID, vec![8u8; 32])];
    assert_eq!(BlockExecutor::seal_failure(&unsealed), Some(SealFailure::HeaderUnsealed));
    let short_seal = vec![DigestItem::Seal(NIMBUS_ENGINE_ID, vec![9u8; 63])];
    assert_eq!(BlockExecutor::seal_failure(&short_seal), Some(SealFailure::HeaderUnsealed));
    let no_author = vec![nimbus_seal([9u8; 64])];
    assert_eq!(BlockExecutor::seal_failure(&no_author), Some(SealFailure::MissingAuthor));
    let bad_author = vec![DigestItem::PreRuntime(NIMBUS_ENGINE_ID, vec![8u8; 33]), nimbus_seal([9u8; 64])];
    assert_eq!(BlockExecutor::seal_failure(&bad_author), Some(SealFailure::InvalidAuthor));
}

#[test]
fn nimbus_seal_decodes_its_first_64_bytes() {
    let mut payload = vec![3u8; 64];
    payload.push(4);
    let item = DigestItem::Seal(NIMBUS_ENGINE_ID, payload);
    assert_eq!(item.as_nimbus_seal(), Some([3u8; 64]));
    assert_eq!(DigestItem::Seal(*b"aura", vec![3u8; 64]).as_nimbus_seal(), None);
}

#[test]
fn basic_collator_step_decides_per_request() {
    let mut throttle = BasicCollatorThrottle::new();
    assert_eq!(throttle.step(None, Some((10, 60_000)), None, 5, 1_000, 50), BasicCollatorAction::Skip);
    assert_eq!(throttle.step(Some([1; 32]), None, None, 5, 1_000, 50), BasicCollatorAction::Skip);
    let action = throttle.step(Some([1; 32]), Some((10, 60_000)), Some(12_000), 5, 1_000, 50);
    assert_eq!(action, BasicCollatorAction::Build { author: [1; 32], slot: 5, timestamp: 60_000, pov_limit: 500 });
    throttle.record(5, 5);
    // The same slot on a later relay block is skipped.
    assert_eq!(throttle.step(Some([1; 32]), Some((10, 60_000)), Some(12_000), 6, 1_000, 50), BasicCollatorAction::Skip);
    // A later slot is built on.
    assert!(matches!(
        throttle.step(Some([1; 32]), Some((11, 66_000)), None, 6, 1_000, 200),
        BasicCollatorAction::Build { slot: 11, pov_limit: 850, .. }
    ));
}

#[test]
fn lookahead_plan_picks_parents_and_limits() {
    let p = |depth: usize, tag: u8| PotentialParent { header: tag, hash: [tag; 32], depth };
    let parents = vec![p(1, 1), p(0, 2), p(2, 3), p(2, 4)];
    assert_eq!(
        lookahead_plan(true, Some(1_001), Some((7, 42_000)), None, &parents),
        Some(LookaheadPlan { slot: 7, included: 1, parent: 3, pov_limit: 500 })
    );
    assert_eq!(lookahead_plan(false, Some(1_001), Some((7, 42_000)), None, &parents), None);
    assert_eq!(lookahead_plan(true, None, Some((7, 42_000)), None, &parents), None);
    assert_eq!(lookahead_plan(true, Some(1_001), None, None, &parents), None);
    assert_eq!(lookahead_plan(true, Some(1_001), Some((7, 42_000)), None, &vec![p(1, 1)]), None);
    assert_eq!(lookahead_plan(true, Some(10), Some((7, 42_000)), Some(6_000), &parents).unwrap().slot, 7);
}

#[test]
fn lookahead_round_builds_at_most_two_blocks_in_a_chain() {
    let mut round = LookaheadRound::start(10u32);
    assert!(round.may_build());
    assert_eq!(round.parent, 10);
    round.record_built(11);
    assert_eq!(round.parent, 11);
    assert!(round.may_build());
    round.record_built(12);
    assert_eq!(round.built, LOOKAHEAD_BLOCKS_PER_RELAY_PARENT);
    assert!(!round.may_build());

    let mut failing = LookaheadRound::start(10u32);
    failing.record_failure();
    assert!(!failing.may_build());
    assert_eq!(failing.built, 0);
}

#[test]
fn parent_search_parameters() {
    assert_eq!(
        parent_search_params(None),
        ParentSearchParams { ancestry_lookback: 2, max_depth: 30, ignore_alternative_branches: true }
    );
    assert_eq!(parent_search_params(Some(5)).ancestry_lookback, 4);
    assert_eq!(
        lookahead_parent_search_params(Some(7)),
        ParentSearchParams { ancestry_lookback: 7, max_depth: 10, ignore_alternative_branches: true }
    );
    assert_eq!(lookahead_parent_search_params(None).ancestry_lookback, 0);
}
