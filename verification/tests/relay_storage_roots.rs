use moonkit::relay_storage_roots::{Pallet as RelayStorageRoots, RelayChainState};

/// The number of roots the test runtime keeps.
const MAX_STORAGE_ROOTS: u32 = 4;

fn fill_relay_storage_roots(pallet: &mut RelayStorageRoots) {
    for i in 0..MAX_STORAGE_ROOTS {
        let relay_state = RelayChainState { number: i, state_root: [0u8; 32] };
        pallet.set_relay_storage_root(MAX_STORAGE_ROOTS, relay_state);
    }
    assert!(u32::try_from(pallet.keys().len()).unwrap() >= MAX_STORAGE_ROOTS);
}

#[test]
fn can_call_inherent_twice_with_same_relay_block() {
    let mut pallet = RelayStorageRoots::new();
    let relay_state = RelayChainState { number: 1, state_root: [0u8; 32] };
    pallet.set_relay_storage_root(MAX_STORAGE_ROOTS, relay_state);
    pallet.set_relay_storage_root(MAX_STORAGE_ROOTS, relay_state);

    // Only the first item has been inserted
    assert_eq!(u32::try_from(pallet.keys().len()).unwrap(), 1);
}

#[test]
fn oldest_items_are_removed_first() {
    let mut pallet = RelayStorageRoots::new();
    fill_relay_storage_roots(&mut pallet);
    let keys = pallet.keys();
    assert_eq!(u32::try_from(keys.len()).unwrap(), MAX_STORAGE_ROOTS);
    assert_eq!(keys[0], 0);
    assert!(pallet.get(0).is_some());

    let relay_state = RelayChainState { number: 1000, state_root: [0u8; 32] };
    pallet.set_relay_storage_root(MAX_STORAGE_ROOTS, relay_state);

    // Only the first item has been removed
    let keys = pallet.keys();
    assert_eq!(u32::try_from(keys.len()).unwrap(), MAX_STORAGE_ROOTS);
    assert_eq!(keys[0], 1);
    assert!(pallet.get(0).is_none());
}

#[test]
fn stored_root_is_found_by_its_relay_block() {
    let mut pallet = RelayStorageRoots::new();
    pallet.set_relay_storage_root(MAX_STORAGE_ROOTS, RelayChainState { number: 9, state_root: [3u8; 32] });
    pallet.set_relay_storage_root(MAX_STORAGE_ROOTS, RelayChainState { number: 12, state_root: [4u8; 32] });
    assert_eq!(pallet.get(9), Some([3u8; 32]));
    assert_eq!(pallet.get(12), Some([4u8; 32]));
    assert!(pallet.contains_key(12));
    assert!(!pallet.contains_key(10));
    assert_eq!(pallet.len(), 2);
    assert_eq!(pallet.keys(), vec![9, 12]);
}

#[test]
fn a_second_root_for_a_stored_block_is_ignored() {
    let mut pallet = RelayStorageRoots::new();
    pallet.set_relay_storage_root(MAX_STORAGE_ROOTS, RelayChainState { number: 9, state_root: [3u8; 32] });
    pallet.set_relay_storage_root(MAX_STORAGE_ROOTS, RelayChainState { number: 9, state_root: [5u8; 32] });
    assert_eq!(pallet.get(9), Some([3u8; 32]));
    assert_eq!(pallet.len(), 1);
}

#[test]
fn the_bound_holds_after_many_blocks() {
    let mut pallet = RelayStorageRoots::new();
    for number in 0..20u32 {
        pallet.set_relay_storage_root(MAX_STORAGE_ROOTS, RelayChainState { number, state_root: [number as u8; 32] });
        assert!(pallet.len() <= MAX_STORAGE_ROOTS as usize);
        assert_eq!(pallet.get(number), Some([number as u8; 32]));
    }
    assert_eq!(pallet.keys(), vec![16, 17, 18, 19]);
}
