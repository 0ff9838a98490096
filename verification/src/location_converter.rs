//! Conversion of foreign-asset accounts: an account made of a fixed prefix
//! and an asset id, matched through an asset-id-to-location equivalence.

use vstd::prelude::*;
use crate::xcm::{Location, LocationView, opt_location_view, clone_location};
use crate::location_matcher::{AccountIdToLocationMatcher, AssetIdToLocation};

verus! {

/// How foreign-asset accounts are laid out for an asset id type: a prefix,
/// and the size in bytes of the asset id.
#[derive(Clone, Debug)]
pub struct AssetIdInfo {
    pub foreign_asset_prefix: Vec<u8>,
    pub size_of: usize,
}

/// Whether a layout fits a 20-byte account: the asset id takes at most the
/// whole account, after the prefix.
pub open spec fn info_is_safe(prefix: Seq<u8>, size_of: usize) -> bool {
    size_of <= 20
}

/// The layout of foreign-asset accounts for asset ids of type `T`.
pub trait GetAssetIdInfo<T> {
    /// The prefix of the accounts.
    spec fn spec_prefix() -> Seq<u8>;

    /// The size of the asset id.
    spec fn spec_size_of() -> usize;

    /// The layout of foreign-asset accounts.
    fn get_asset_id_info() -> (info: AssetIdInfo)
        ensures
            info.foreign_asset_prefix@ == Self::spec_prefix(),
            info.size_of == Self::spec_size_of(),
            info_is_safe(info.foreign_asset_prefix@, info.size_of),
    ;
}

/// The standard layouts.
pub struct AssetIdInfoGetter;

/// `n` bytes of value 255.
pub fn all_ones(n: usize) -> (v: Vec<u8>)
    ensures
        v@ == Seq::new(n as nat, |i: int| 255u8),
{
    let mut v: Vec<u8> = Vec::new();
    let mut i: usize = 0;
    while i < n
        invariant
            i <= n,
            v@ == Seq::new(i as nat, |k: int| 255u8),
        decreases n - i,
    {
        v.push(255u8);
        proof {
            assert(v@ =~= Seq::new((i + 1) as nat, |k: int| 255u8));
        }
        i = i + 1;
    }
    v
}

impl GetAssetIdInfo<u128> for AssetIdInfoGetter {
    open spec fn spec_prefix() -> Seq<u8> {
        Seq::new(4, |i: int| 255u8)
    }

    open spec fn spec_size_of() -> usize {
        16
    }

    /// Four bytes of 255, then a 16-byte id.
    fn get_asset_id_info() -> (info: AssetIdInfo) {
        AssetIdInfo { foreign_asset_prefix: all_ones(4), size_of: 16 }
    }
}

impl GetAssetIdInfo<u16> for AssetIdInfoGetter {
    open spec fn spec_prefix() -> Seq<u8> {
        Seq::new(18, |i: int| 255u8)
    }

    open spec fn spec_size_of() -> usize {
        2
    }

    /// Eighteen bytes of 255, then a 2-byte id.
    fn get_asset_id_info() -> (info: AssetIdInfo) {
        AssetIdInfo { foreign_asset_prefix: all_ones(18), size_of: 2 }
    }
}

/// Asset id types built from the numbers a foreign-asset account holds.
pub trait AssetIdType: Sized {
    /// The id of value `v`, if it fits.
    spec fn spec_from_u16(v: u16) -> Option<Self>;

    /// The id of value `v`, if it fits.
    spec fn spec_from_u128(v: u128) -> Option<Self>;

    /// The id of value `v`.
    spec fn spec_from_u8(v: u8) -> Self;

    /// The id of value `v`, if it fits.
    fn try_from_u16(v: u16) -> (r: Option<Self>)
        ensures
            r == Self::spec_from_u16(v),
    ;

    /// The id of value `v`, if it fits.
    fn try_from_u128(v: u128) -> (r: Option<Self>)
        ensures
            r == Self::spec_from_u128(v),
    ;

    /// The id of value `v`.
    fn from_u8(v: u8) -> (r: Self)
        ensures
            r == Self::spec_from_u8(v),
    ;

    /// The number of the id.
    spec fn spec_to_u128(&self) -> u128;

    /// The number of the id.
    fn to_u128(&self) -> (r: u128)
        ensures
            r == self.spec_to_u128(),
    ;
}

impl AssetIdType for u128 {
    open spec fn spec_from_u16(v: u16) -> Option<u128> {
        Some(v as u128)
    }

    open spec fn spec_from_u128(v: u128) -> Option<u128> {
        Some(v)
    }

    open spec fn spec_from_u8(v: u8) -> u128 {
        v as u128
    }

    fn try_from_u16(v: u16) -> (r: Option<u128>) {
        Some(v as u128)
    }

    fn try_from_u128(v: u128) -> (r: Option<u128>) {
        Some(v)
    }

    fn from_u8(v: u8) -> (r: u128) {
        v as u128
    }

    open spec fn spec_to_u128(&self) -> u128 {
        *self
    }

    fn to_u128(&self) -> (r: u128) {
        *self
    }
}

impl AssetIdType for u16 {
    open spec fn spec_from_u16(v: u16) -> Option<u16> {
        Some(v)
    }

    open spec fn spec_from_u128(v: u128) -> Option<u16> {
        if v <= u16::MAX { Some(v as u16) } else { None }
    }

    open spec fn spec_from_u8(v: u8) -> u16 {
        v as u16
    }

    fn try_from_u16(v: u16) -> (r: Option<u16>) {
        Some(v)
    }

    fn try_from_u128(v: u128) -> (r: Option<u16>) {
        if v <= u16::MAX as u128 { Some(v as u16) } else { None }
    }

    fn from_u8(v: u8) -> (r: u16) {
        v as u16
    }

    open spec fn spec_to_u128(&self) -> u128 {
        *self as u128
    }

    fn to_u128(&self) -> (r: u128) {
        *self as u128
    }
}

/// The big-endian number of `bytes`.
pub open spec fn be_value(bytes: Seq<u8>) -> nat
    decreases bytes.len(),
{
    if bytes.len() == 0 { 0 } else { be_value(bytes.drop_last()) * 256 + bytes.last() as nat }
}

/// The `u16` of two big-endian bytes.
pub fn u16_from_be(bytes: &[u8]) -> (r: u16)
    requires
        bytes@.len() == 2,
    ensures
        r == bytes@[0] as int * 256 + bytes@[1] as int,
        r as nat == be_value(bytes@),
{
    proof {
        let s = bytes@;
        assert(s.drop_last().drop_last() =~= Seq::<u8>::empty());
        assert(s.drop_last().last() == s[0]);
        assert(be_value(s.drop_last().drop_last()) == 0);
        assert(be_value(s.drop_last()) == s[0] as nat);
        assert(be_value(s) == s[0] as nat * 256 + s[1] as nat);
    }
    (bytes[0] as u16) * 256 + (bytes[1] as u16)
}

/// The id `o` holds, or the id 0 when the number does not fit the id type.
pub open spec fn id_or_zero<AssetId: AssetIdType>(o: Option<AssetId>) -> AssetId {
    match o {
        Some(a) => a,
        None => AssetId::spec_from_u8(0),
    }
}

/// The prefix and asset id of a foreign-asset account: the first
/// `20 - size_of` bytes must be the prefix, and the last `size_of` bytes
/// are read as a big-endian number of 2 or 16 bytes (any other size has no
/// asset id).
pub open spec fn spec_account_to_asset_id<AssetId: AssetIdType>(
    account: Seq<u8>,
    prefix: Seq<u8>,
    size_of: usize,
) -> Option<(Seq<u8>, AssetId)> {
    let split = 20 - size_of;
    let value = be_value(account.subrange(split, 20));
    if account.subrange(0, split) != prefix {
        None
    } else if size_of == 2 {
        Some((prefix, id_or_zero(AssetId::spec_from_u16(value as u16))))
    } else if size_of == 16 {
        Some((prefix, id_or_zero(AssetId::spec_from_u128(value as u128))))
    } else {
        None
    }
}

/// The `u128` of sixteen big-endian bytes.
pub fn u128_from_be(bytes: &[u8]) -> (r: u128)
    requires
        bytes@.len() == 16,
    ensures
        r as nat == be_value(bytes@),
{
    let mut r: u128 = 0;
    let mut i: usize = 0;
    while i < 16
        invariant
            i <= 16,
            bytes@.len() == 16,
            r as nat == be_value(bytes@.subrange(0, i as int)),
            r < crate::xcm::pow256(i as nat),
        decreases 16 - i,
    {
        proof {
            let s = bytes@.subrange(0, i + 1);
            assert(s.drop_last() =~= bytes@.subrange(0, i as int));
            assert(crate::xcm::pow256((i + 1) as nat) == 256 * crate::xcm::pow256(i as nat));
            lemma_pow256_16_bound(i as nat);
            assert(r * 256 + bytes@[i as int] < 256 * crate::xcm::pow256(i as nat)) by (nonlinear_arith)
                requires r < crate::xcm::pow256(i as nat), bytes@[i as int] < 256;
        }
        r = r * 256 + bytes[i] as u128;
        i = i + 1;
    }
    proof {
        assert(bytes@.subrange(0, 16) =~= bytes@);
    }
    r
}

proof fn lemma_pow256_monotonic(k: nat, j: nat)
    requires
        k <= j,
    ensures
        crate::xcm::pow256(k) <= crate::xcm::pow256(j),
    decreases j,
{
    if k < j {
        lemma_pow256_monotonic(k, (j - 1) as nat);
    }
}

proof fn lemma_pow256_16_bound(k: nat)
    requires
        k <= 15,
    ensures
        256 * crate::xcm::pow256(k) <= u128::MAX + 1,
{
    lemma_pow256_monotonic(k + 1, 16);
    reveal_with_fuel(crate::xcm::pow256, 17);
    assert(crate::xcm::pow256(16) == u128::MAX + 1);
}

/// Whether two byte slices are equal.
pub fn bytes_eq(a: &[u8], b: &[u8]) -> (r: bool)
    ensures
        r == (a@ == b@),
{
    if a.len() != b.len() {
        return false;
    }
    let mut i: usize = 0;
    while i < a.len()
        invariant
            a@.len() == b@.len(),
            i <= a@.len(),
            forall|j: int| 0 <= j < i ==> a@[j] == b@[j],
        decreases a@.len() - i,
    {
        if a[i] != b[i] {
            return false;
        }
        i = i + 1;
    }
    proof {
        assert(a@ =~= b@);
    }
    true
}

/// A copy of `bytes`.
pub fn bytes_to_vec(bytes: &[u8]) -> (v: Vec<u8>)
    ensures
        v@ == bytes@,
{
    let mut v: Vec<u8> = Vec::new();
    let mut i: usize = 0;
    while i < bytes.len()
        invariant
            i <= bytes@.len(),
            v@ == bytes@.subrange(0, i as int),
        decreases bytes@.len() - i,
    {
        v.push(bytes[i]);
        proof {
            assert(bytes@.subrange(0, i + 1) =~= bytes@.subrange(0, i as int).push(bytes@[i as int]));
        }
        i = i + 1;
    }
    proof {
        assert(bytes@.subrange(0, bytes@.len() as int) =~= bytes@);
    }
    v
}

/// The location of the first entry of `entries`, at or after position `i`,
/// registered for asset number `id`.
pub open spec fn registered_location_from(entries: Seq<(u128, Location)>, i: int, id: u128) -> Option<LocationView>
    decreases entries.len() - i,
{
    if i < 0 || i >= entries.len() {
        None
    } else if entries[i].0 == id {
        Some(entries[i].1@)
    } else {
        registered_location_from(entries, i + 1, id)
    }
}

/// A registry of foreign assets: the location of each asset, by asset
/// number, as an asset-manager pallet keeps it; the first entry of an asset
/// wins.
#[derive(Clone, Debug)]
pub struct AssetLocationTable {
    pub entries: Vec<(u128, Location)>,
}

impl<AssetId: AssetIdType> AssetIdToLocation<AssetId> for AssetLocationTable {
    open spec fn spec_convert_back(&self, asset_id: AssetId) -> Option<LocationView> {
        registered_location_from(self.entries@, 0, asset_id.spec_to_u128())
    }

    fn convert_back(&self, asset_id: &AssetId) -> (r: Option<Location>) {
        let id = asset_id.to_u128();
        let mut i: usize = 0;
        while i < self.entries.len()
            invariant
                i <= self.entries@.len(),
                id == asset_id.spec_to_u128(),
                registered_location_from(self.entries@, 0, id) == registered_location_from(self.entries@, i as int, id),
            decreases self.entries@.len() - i,
        {
            if self.entries[i].0 == id {
                let l = clone_location(&self.entries[i].1);
                proof {
                    assert(registered_location_from(self.entries@, i as int, id) == Some(self.entries@[i as int].1@));
                }
                return Some(l);
            }
            i = i + 1;
        }
        None
    }
}

/// Matches foreign-asset accounts laid out as `I` says, through the
/// equivalence `M` from asset ids to locations.
pub struct MatchThroughEquivalence<AssetId, I, M> {
    pub locations: M,
    pub layout: core::marker::PhantomData<(AssetId, I)>,
}

impl<AssetId: AssetIdType, I: GetAssetIdInfo<AssetId>, M: AssetIdToLocation<AssetId>> MatchThroughEquivalence<AssetId, I, M> {
    /// The prefix and asset id of a foreign-asset account: the account is
    /// split before its last `size_of` bytes, the first part must be the
    /// prefix, and the rest is read as a big-endian asset id of `size_of`
    /// bytes (0 when the number does not fit the id type).
    pub fn account_to_asset_id(account: [u8; 20], asset_id_info: &AssetIdInfo) -> (r: Option<(Vec<u8>, AssetId)>)
        requires
            info_is_safe(asset_id_info.foreign_asset_prefix@, asset_id_info.size_of),
        ensures
            match (r, spec_account_to_asset_id::<AssetId>(account@, asset_id_info.foreign_asset_prefix@, asset_id_info.size_of)) {
                (Some((p, a)), Some((sp, sa))) => p@ == sp && a == sa,
                (None, None) => true,
                _ => false,
            },
    {
        let split = 20 - asset_id_info.size_of;
        let (prefix_part, id_part) = account.as_slice().split_at(split);
        proof {
            assert(prefix_part@ == account@.subrange(0, split as int));
            assert(id_part@ == account@.subrange(split as int, 20));
        }
        if bytes_eq(prefix_part, asset_id_info.foreign_asset_prefix.as_slice()) {
            if asset_id_info.size_of == 2 {
                let value = u16_from_be(id_part);
                let asset_id = match AssetId::try_from_u16(value) {
                    Some(a) => a,
                    None => AssetId::from_u8(0),
                };
                return Some((bytes_to_vec(prefix_part), asset_id));
            } else if asset_id_info.size_of == 16 {
                let value = u128_from_be(id_part);
                let asset_id = match AssetId::try_from_u128(value) {
                    Some(a) => a,
                    None => AssetId::from_u8(0),
                };
                return Some((bytes_to_vec(prefix_part), asset_id));
            } else {
                return None;
            }
        }
        None
    }
}

impl<AssetId: AssetIdType, I: GetAssetIdInfo<AssetId>, M: AssetIdToLocation<AssetId>>
    AccountIdToLocationMatcher for MatchThroughEquivalence<AssetId, I, M> {
    open spec fn spec_convert(&self, account: Seq<u8>) -> Option<LocationView> {
        if account.len() == 20 {
            match spec_account_to_asset_id::<AssetId>(account, I::spec_prefix(), I::spec_size_of()) {
                Some((_, asset_id)) => self.locations.spec_convert_back(asset_id),
                None => None,
            }
        } else {
            None
        }
    }

    /// The location of the foreign asset `account` stands for, looked up
    /// through the equivalence (see [`Self::account_to_asset_id`]).
    fn convert(&self, account: [u8; 20]) -> (r: Option<Location>) {
        let asset_id_info = I::get_asset_id_info();
        match Self::account_to_asset_id(account, &asset_id_info) {
            Some((_prefix, asset_id)) => self.locations.convert_back(&asset_id),
            None => None,
        }
    }
}

} // verus!
