//! XCM locations as the library reads and builds them, and the generators
//! of destinations and beneficiaries.

use vstd::prelude::*;
use vstd::arithmetic::div_mod::lemma_div_denominator;

verus! {

/// A consensus system, such as a relay chain.
#[derive(Clone, Copy, Debug, PartialEq, Eq)]
pub enum NetworkId {
    /// A network by the hash of its genesis block.
    ByGenesis([u8; 32]),
    /// The Polkadot relay chain.
    Polkadot,
    /// The Kusama relay chain.
    Kusama,
    /// An Ethereum chain, by chain id.
    Ethereum { chain_id: u64 },
    /// The Bitcoin network.
    BitcoinCore,
    /// The Bitcoin Cash network.
    BitcoinCash,
    /// The Polkadot Bulletin chain.
    PolkadotBulletin,
}

/// One step of an XCM location.
#[derive(Clone, Copy, Debug, PartialEq, Eq)]
pub enum Junction {
    /// A parachain, by its id.
    Parachain(u32),
    /// A 32-byte account.
    AccountId32 { network: Option<NetworkId>, id: [u8; 32] },
    /// An account by index.
    AccountIndex64 { network: Option<NetworkId>, index: u64 },
    /// A 20-byte (Ethereum-style) account.
    AccountKey20 { network: Option<NetworkId>, key: [u8; 20] },
    /// A pallet, by its index in the runtime.
    PalletInstance(u8),
    /// An item by index.
    GeneralIndex(u128),
    /// An item by key: the first `length` bytes of `data`.
    GeneralKey { length: u8, data: [u8; 32] },
    /// The child of a context that has exactly one.
    OnlyChild,
    /// The consensus system of a network.
    GlobalConsensus(NetworkId),
}

/// A location relative to the current one: `parents` steps up, then the
/// junctions of `interior` down.
#[derive(Clone, Debug)]
pub struct Location {
    pub parents: u8,
    pub interior: Vec<Junction>,
}

/// The abstract value of a location.
pub struct LocationView {
    pub parents: u8,
    pub interior: Seq<Junction>,
}

impl View for Location {
    type V = LocationView;

    open spec fn view(&self) -> LocationView {
        LocationView { parents: self.parents, interior: self.interior@ }
    }
}

/// The view of an optional location.
pub open spec fn opt_location_view(l: Option<Location>) -> Option<LocationView> {
    match l {
        Some(l) => Some(l@),
        None => None,
    }
}

impl Location {
    /// The location `parents` steps up and then down `interior`.
    pub fn new(parents: u8, interior: Vec<Junction>) -> (l: Location)
        ensures
            l@ == (LocationView { parents, interior: interior@ }),
    {
        Location { parents, interior }
    }

    /// The parent of the current location (from a parachain, the relay chain).
    pub fn parent() -> (l: Location)
        ensures
            l@ == (LocationView { parents: 1, interior: Seq::<Junction>::empty() }),
    {
        Location { parents: 1, interior: Vec::new() }
    }
}

/// The location of a single junction `j`, `parents` steps up.
pub fn location_of(parents: u8, j: Junction) -> (l: Location)
    ensures
        l@ == (LocationView { parents, interior: seq![j] }),
{
    let mut interior: Vec<Junction> = Vec::new();
    interior.push(j);
    Location { parents, interior }
}

/// A copy of `l`.
pub fn clone_location(l: &Location) -> (c: Location)
    ensures
        c@ == l@,
{
    let mut interior: Vec<Junction> = Vec::new();
    let mut i: usize = 0;
    while i < l.interior.len()
        invariant
            i <= l.interior@.len(),
            interior@ == l.interior@.subrange(0, i as int),
        decreases l.interior@.len() - i,
    {
        interior.push(l.interior[i]);
        proof {
            assert(l.interior@.subrange(0, i + 1) =~= l.interior@.subrange(0, i as int).push(l.interior@[i as int]));
        }
        i = i + 1;
    }
    proof {
        assert(l.interior@.subrange(0, l.interior@.len() as int) =~= l.interior@);
    }
    Location { parents: l.parents, interior }
}

/// How much of an asset.
#[derive(Clone, Copy, Debug, PartialEq, Eq)]
pub enum Fungibility {
    /// An amount of a fungible asset.
    Fungible(u128),
    /// One instance of a non-fungible asset.
    NonFungible(u128),
}

/// An amount of an asset, the asset given by its location.
#[derive(Clone, Debug)]
pub struct Asset {
    pub id: Location,
    pub fun: Fungibility,
}

/// Destination of a sibling parachain.
pub struct XcmSiblingDestinationGenerator;

impl XcmSiblingDestinationGenerator {
    /// The sibling parachain `para_id`: one step up, then down to it.
    pub fn generate(para_id: u32) -> (l: Location)
        ensures
            l@ == (LocationView { parents: 1, interior: seq![Junction::Parachain(para_id)] }),
    {
        location_of(1, Junction::Parachain(para_id))
    }
}

/// Beneficiary with a 20-byte account on the current chain.
pub struct XcmLocalBeneficiary20Generator;

impl XcmLocalBeneficiary20Generator {
    /// The local 20-byte account `key`, on any network.
    pub fn generate(key: [u8; 20]) -> (l: Location)
        ensures
            l@ == (LocationView { parents: 0, interior: seq![Junction::AccountKey20 { network: None, key }] }),
    {
        location_of(0, Junction::AccountKey20 { network: None, key })
    }
}

/// Beneficiary with a 32-byte account on the current chain.
pub struct XcmLocalBeneficiary32Generator;

impl XcmLocalBeneficiary32Generator {
    /// The local 32-byte account `id`, on any network.
    pub fn generate(id: [u8; 32]) -> (l: Location)
        ensures
            l@ == (LocationView { parents: 0, interior: seq![Junction::AccountId32 { network: None, id }] }),
    {
        location_of(0, Junction::AccountId32 { network: None, id })
    }
}

/// `256^k`.
pub open spec fn pow256(k: nat) -> nat
    decreases k,
{
    if k == 0 { 1 } else { 256 * pow256((k - 1) as nat) }
}

/// The 20-byte address whose last 8 bytes are `v` in big-endian order and
/// whose other bytes are zero.
pub open spec fn spec_h160_from_low_u64_be(v: u64) -> Seq<u8> {
    Seq::new(20, |i: int| if i < 12 { 0u8 } else { (((v as nat) / pow256((19 - i) as nat)) % 256) as u8 })
}

pub(crate) proof fn lemma_pow256_positive(k: nat)
    ensures
        pow256(k) > 0,
    decreases k,
{
    if k > 0 {
        lemma_pow256_positive((k - 1) as nat);
    }
}

/// The 20-byte address whose last 8 bytes are `v` in big-endian order and
/// whose other bytes are zero.
pub fn h160_from_low_u64_be(v: u64) -> (a: [u8; 20])
    ensures
        a@ == spec_h160_from_low_u64_be(v),
{
    let mut a: [u8; 20] = [0u8; 20];
    let mut x: u64 = v;
    let mut k: usize = 0;
    proof {
        assert(pow256(0) == 1);
    }
    while k < 8
        invariant
            k <= 8,
            x as nat == (v as nat) / pow256(k as nat),
            forall|i: int| 0 <= i < 20 - k ==> a@[i] == 0u8,
            forall|i: int| 20 - k <= i < 20 ==> #[trigger] a@[i] == (((v as nat) / pow256((19 - i) as nat)) % 256) as u8,
        decreases 8 - k,
    {
        let byte = (x % 256) as u8;
        a[19 - k] = byte;
        proof {
            lemma_pow256_positive(k as nat);
            lemma_div_denominator(v as int, pow256(k as nat) as int, 256);
            assert(pow256((k + 1) as nat) == 256 * pow256(k as nat));
            assert(pow256(k as nat) * 256 == 256 * pow256(k as nat)) by (nonlinear_arith);
        }
        x = x / 256;
        k = k + 1;
    }
    proof {
        assert(a@ =~= spec_h160_from_low_u64_be(v));
    }
    a
}

/// Whether two 20-byte addresses are the same.
pub fn same_h160(a: &[u8; 20], b: &[u8; 20]) -> (r: bool)
    ensures
        r == (a@ == b@),
{
    let mut i: usize = 0;
    while i < 20
        invariant
            i <= 20,
            forall|j: int| 0 <= j < i ==> a@[j] == b@[j],
        decreases 20 - i,
    {
        if a[i] != b[i] {
            return false;
        }
        i = i + 1;
    }
    proof {
        assert(a@ =~= b@);
    }
    true
}

/// Whether two network identifiers are the same.
pub fn same_network(a: &NetworkId, b: &NetworkId) -> (r: bool)
    ensures
        r == (*a == *b),
{
    match (a, b) {
        (NetworkId::ByGenesis(x), NetworkId::ByGenesis(y)) => crate::collators::same_hash(x, y),
        (NetworkId::Polkadot, NetworkId::Polkadot) => true,
        (NetworkId::Kusama, NetworkId::Kusama) => true,
        (NetworkId::Ethereum { chain_id: x }, NetworkId::Ethereum { chain_id: y }) => *x == *y,
        (NetworkId::BitcoinCore, NetworkId::BitcoinCore) => true,
        (NetworkId::BitcoinCash, NetworkId::BitcoinCash) => true,
        (NetworkId::PolkadotBulletin, NetworkId::PolkadotBulletin) => true,
        _ => false,
    }
}

/// Whether two optional network identifiers are the same.
pub fn same_opt_network(a: &Option<NetworkId>, b: &Option<NetworkId>) -> (r: bool)
    ensures
        r == (*a == *b),
{
    match (a, b) {
        (Some(x), Some(y)) => same_network(x, y),
        (None, None) => true,
        _ => false,
    }
}

/// Whether two junctions are the same.
pub fn same_junction(a: &Junction, b: &Junction) -> (r: bool)
    ensures
        r == (*a == *b),
{
    match (a, b) {
        (Junction::Parachain(x), Junction::Parachain(y)) => *x == *y,
        (Junction::AccountId32 { network: n1, id: x }, Junction::AccountId32 { network: n2, id: y }) =>
            same_opt_network(n1, n2) && crate::collators::same_hash(x, y),
        (Junction::AccountIndex64 { network: n1, index: x }, Junction::AccountIndex64 { network: n2, index: y }) =>
            same_opt_network(n1, n2) && *x == *y,
        (Junction::AccountKey20 { network: n1, key: x }, Junction::AccountKey20 { network: n2, key: y }) => {
            let same_key = same_h160(x, y);
            proof {
                if same_key {
                    assert(*x =~= *y);
                }
            }
            same_opt_network(n1, n2) && same_key
        },
        (Junction::PalletInstance(x), Junction::PalletInstance(y)) => *x == *y,
        (Junction::GeneralIndex(x), Junction::GeneralIndex(y)) => *x == *y,
        (Junction::GeneralKey { length: l1, data: x }, Junction::GeneralKey { length: l2, data: y }) =>
            *l1 == *l2 && crate::collators::same_hash(x, y),
        (Junction::OnlyChild, Junction::OnlyChild) => true,
        (Junction::GlobalConsensus(x), Junction::GlobalConsensus(y)) => same_network(x, y),
        _ => false,
    }
}

/// Whether two locations are the same.
pub fn same_location(a: &Location, b: &Location) -> (r: bool)
    ensures
        r == (a@ == b@),
{
    if a.parents != b.parents || a.interior.len() != b.interior.len() {
        return false;
    }
    let mut i: usize = 0;
    while i < a.interior.len()
        invariant
            a.interior@.len() == b.interior@.len(),
            i <= a.interior@.len(),
            forall|k: int| 0 <= k < i ==> a.interior@[k] == b.interior@[k],
        decreases a.interior@.len() - i,
    {
        if !same_junction(&a.interior[i], &b.interior[i]) {
            return false;
        }
        i = i + 1;
    }
    proof {
        assert(a.interior@ =~= b.interior@);
    }
    true
}

} // verus!
