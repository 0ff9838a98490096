//! Matchers from (20-byte) accounts to the XCM locations of the assets they
//! stand for.

use vstd::prelude::*;
use crate::xcm::{Junction, Location, LocationView, opt_location_view, location_of,
    spec_h160_from_low_u64_be, h160_from_low_u64_be, same_h160};

verus! {

/// Maps an account to the location of the asset it stands for, if any.
pub trait AccountIdToLocationMatcher {
    /// The location that `account` stands for.
    spec fn spec_convert(&self, account: Seq<u8>) -> Option<LocationView>;

    /// The location that `account` stands for.
    fn convert(&self, account: [u8; 20]) -> (r: Option<Location>)
        ensures
            opt_location_view(r) == self.spec_convert(account@),
    ;
}

/// Two matchers in turn: the first match wins.
impl<A: AccountIdToLocationMatcher, B: AccountIdToLocationMatcher> AccountIdToLocationMatcher for (A, B) {
    open spec fn spec_convert(&self, account: Seq<u8>) -> Option<LocationView> {
        match self.0.spec_convert(account) {
            Some(l) => Some(l),
            None => self.1.spec_convert(account),
        }
    }

    fn convert(&self, account: [u8; 20]) -> (r: Option<Location>) {
        match self.0.convert(account) {
            Some(l) => Some(l),
            None => self.1.convert(account),
        }
    }
}

/// Matches a single address, `address` as a big-endian low-order number,
/// to the pallet of index `pallet_index`.
#[derive(Clone, Copy, Debug, PartialEq, Eq, Structural)]
pub struct SingleAddressMatcher {
    pub address: u64,
    pub pallet_index: u8,
}

impl AccountIdToLocationMatcher for SingleAddressMatcher {
    open spec fn spec_convert(&self, account: Seq<u8>) -> Option<LocationView> {
        if account == spec_h160_from_low_u64_be(self.address) {
            Some(LocationView { parents: 0, interior: seq![Junction::PalletInstance(self.pallet_index)] })
        } else {
            None
        }
    }

    fn convert(&self, account: [u8; 20]) -> (r: Option<Location>) {
        let address = h160_from_low_u64_be(self.address);
        if same_h160(&account, &address) {
            Some(location_of(0, Junction::PalletInstance(self.pallet_index)))
        } else {
            None
        }
    }
}

/// Matches every account to itself inside the ERC-20 pallet of index
/// `pallet_index`.
#[derive(Clone, Copy, Debug, PartialEq, Eq, Structural)]
pub struct Erc20PalletMatcher {
    pub pallet_index: u8,
}

/// The location of the ERC-20 token `key` in pallet `pallet_index`.
pub open spec fn erc20_location(pallet_index: u8, key: [u8; 20]) -> LocationView {
    LocationView {
        parents: 0,
        interior: seq![Junction::PalletInstance(pallet_index), Junction::AccountKey20 { network: None, key }],
    }
}

impl AccountIdToLocationMatcher for Erc20PalletMatcher {
    open spec fn spec_convert(&self, account: Seq<u8>) -> Option<LocationView> {
        if account.len() == 20 {
            Some(erc20_location(self.pallet_index, choose|k: [u8; 20]| k@ == account))
        } else {
            None
        }
    }

    fn convert(&self, account: [u8; 20]) -> (r: Option<Location>) {
        let mut interior: Vec<Junction> = Vec::new();
        interior.push(Junction::PalletInstance(self.pallet_index));
        interior.push(Junction::AccountKey20 { network: None, key: account });
        proof {
            let k = choose|k: [u8; 20]| k@ == account@;
            assert(k@ == account@);
            assert(k =~= account);
            assert(interior@ =~= erc20_location(self.pallet_index, k).interior);
        }
        Some(Location::new(0, interior))
    }
}

/// Finds the asset id an account stands for.
pub trait AccountIdAssetIdConversion<AssetId> {
    /// The prefix and the asset id that `account` stands for.
    spec fn spec_account_to_asset_id(&self, account: Seq<u8>) -> Option<(Seq<u8>, AssetId)>;

    /// The prefix and the asset id that `account` stands for.
    fn account_to_asset_id(&self, account: [u8; 20]) -> (r: Option<(Vec<u8>, AssetId)>)
        ensures
            match (r, self.spec_account_to_asset_id(account@)) {
                (Some((p, a)), Some((sp, sa))) => p@ == sp && a == sa,
                (None, None) => true,
                _ => false,
            },
    ;
}

/// Finds the location of an asset id.
pub trait AssetIdToLocation<AssetId> {
    /// The location of asset `asset_id`.
    spec fn spec_convert_back(&self, asset_id: AssetId) -> Option<LocationView>;

    /// The location of asset `asset_id`, if it is known.
    fn convert_back(&self, asset_id: &AssetId) -> (r: Option<Location>)
        ensures
            opt_location_view(r) == self.spec_convert_back(*asset_id),
    ;
}

/// Matches the accounts of foreign assets: the account gives an asset id,
/// whose location is looked up.
pub struct ForeignAssetMatcher<AssetId, C, M> {
    pub converter: C,
    pub locations: M,
    pub asset_id: core::marker::PhantomData<AssetId>,
}

impl<AssetId, C: AccountIdAssetIdConversion<AssetId>, M: AssetIdToLocation<AssetId>>
    AccountIdToLocationMatcher for ForeignAssetMatcher<AssetId, C, M> {
    open spec fn spec_convert(&self, account: Seq<u8>) -> Option<LocationView> {
        match self.converter.spec_account_to_asset_id(account) {
            Some((_, asset_id)) => self.locations.spec_convert_back(asset_id),
            None => None,
        }
    }

    fn convert(&self, account: [u8; 20]) -> (r: Option<Location>) {
        match self.converter.account_to_asset_id(account) {
            Some((_prefix, asset_id)) => self.locations.convert_back(&asset_id),
            None => None,
        }
    }
}

} // verus!
