use std::sync::Arc;

use state_provider::block_hash::BlockHash;
use state_provider::block_hash::BlockHashRef;
use state_provider::memory::MemoryBlockHash;
use state_provider::memory::MemoryError;
use state_provider::memory::MemoryState;
use state_provider::memory::OfflineBlockHash;
use state_provider::memory::OfflineState;
use state_provider::primitives::AccountInfo;
use state_provider::primitives::Address;
use state_provider::primitives::Bytecode;
use state_provider::primitives::Hash256;
use state_provider::primitives::Word256;
use state_provider::state::State;
use state_provider::state::StateRef;

fn addr(n: u32) -> Address {
    Address { hi: n, lo: n as u128 + 7 }
}

fn hash(n: u128) -> Hash256 {
    Hash256 { hi: n, lo: n + 13 }
}

fn word(n: u128) -> Word256 {
    Word256 { hi: 0, lo: n }
}

fn block_store() -> MemoryBlockHash {
    let mut store = MemoryBlockHash::new();
    store.insert(word(1), hash(41));
    store.insert(word(2), hash(42));
    store
}

fn state_store() -> MemoryState {
    let mut store = MemoryState::new();
    store.insert_account(
        addr(1),
        AccountInfo { balance: word(100), nonce: 3, code_hash: hash(7) },
    );
    store.insert_code(hash(7), Bytecode::new(vec![0x5b, 0x00]));
    store.write_storage(addr(1), word(0), word(77));
    store
}

#[test]
fn ref_adapter_matches_direct_block_hash() {
    let store = block_store();
    for number in [word(1), word(2), word(3)] {
        let direct = BlockHashRef::block_hash(&store, number);
        let mut adapter = &store;
        let through = BlockHash::block_hash(&mut adapter, number);
        assert_eq!(through, direct);
    }
}

#[test]
fn arc_adapter_matches_direct_block_hash() {
    let store = Arc::new(block_store());
    for number in [word(1), word(3)] {
        let direct = BlockHashRef::block_hash(&*store, number);
        let mut handle = Arc::clone(&store);
        let through = BlockHash::block_hash(&mut handle, number);
        assert_eq!(through, direct);
    }
}

#[test]
fn box_adapter_matches_direct_block_hash() {
    let boxed = Box::new(block_store());
    for number in [word(2), word(9)] {
        let direct = BlockHashRef::block_hash(&*boxed, number);
        let through = BlockHashRef::block_hash(&boxed, number);
        assert_eq!(through, direct);
    }
}

#[test]
fn mut_ref_adapter_matches_direct_block_hash() {
    let store = block_store();
    let direct = BlockHashRef::block_hash(&store, word(1));
    let mut adapter = &store;
    let mut nested = &mut adapter;
    let through = BlockHash::block_hash(&mut nested, word(1));
    assert_eq!(through, direct);
}

#[test]
fn box_of_adapter_matches_direct_block_hash_mutable() {
    let store = block_store();
    let mut boxed: Box<&MemoryBlockHash> = Box::new(&store);
    let through = BlockHash::block_hash(&mut boxed, word(1));
    assert_eq!(through, BlockHashRef::block_hash(&store, word(1)));
}

#[test]
fn ref_adapter_matches_direct_state() {
    let store = state_store();
    let mut adapter = &store;
    assert_eq!(State::basic(&mut adapter, addr(1)), StateRef::basic(&store, addr(1)));
    assert_eq!(State::basic(&mut adapter, addr(2)), StateRef::basic(&store, addr(2)));
    assert_eq!(
        State::code_by_hash(&mut adapter, hash(7)).map(|c| c.bytes),
        StateRef::code_by_hash(&store, hash(7)).map(|c| c.bytes)
    );
    assert_eq!(
        State::code_by_hash(&mut adapter, hash(8)).map(|c| c.bytes),
        StateRef::code_by_hash(&store, hash(8)).map(|c| c.bytes)
    );
    assert_eq!(
        State::storage(&mut adapter, addr(1), word(0)),
        StateRef::storage(&store, addr(1), word(0))
    );
    assert_eq!(
        State::storage(&mut adapter, addr(1), word(1)),
        StateRef::storage(&store, addr(1), word(1))
    );
}

#[test]
fn arc_adapter_matches_direct_state() {
    let store = Arc::new(state_store());
    let mut handle = Arc::clone(&store);
    assert_eq!(State::basic(&mut handle, addr(1)), StateRef::basic(&*store, addr(1)));
    assert_eq!(
        State::code_by_hash(&mut handle, hash(7)).map(|c| c.bytes),
        StateRef::code_by_hash(&*store, hash(7)).map(|c| c.bytes)
    );
    assert_eq!(
        State::storage(&mut handle, addr(1), word(0)),
        StateRef::storage(&*store, addr(1), word(0))
    );
}

#[test]
fn box_adapter_matches_direct_state() {
    let boxed = Box::new(state_store());
    assert_eq!(StateRef::basic(&boxed, addr(1)), StateRef::basic(&*boxed, addr(1)));
    assert_eq!(
        StateRef::code_by_hash(&boxed, hash(7)).map(|c| c.bytes),
        StateRef::code_by_hash(&*boxed, hash(7)).map(|c| c.bytes)
    );
    assert_eq!(
        StateRef::storage(&boxed, addr(1), word(0)),
        StateRef::storage(&*boxed, addr(1), word(0))
    );
}

#[test]
fn box_of_adapter_matches_direct_state() {
    let store = state_store();
    let mut boxed: Box<&MemoryState> = Box::new(&store);
    assert_eq!(State::basic(&mut boxed, addr(1)), StateRef::basic(&store, addr(1)));
    assert_eq!(
        State::code_by_hash(&mut boxed, hash(7)).map(|c| c.bytes),
        StateRef::code_by_hash(&store, hash(7)).map(|c| c.bytes)
    );
    assert_eq!(
        State::storage(&mut boxed, addr(1), word(0)),
        StateRef::storage(&store, addr(1), word(0))
    );
}

#[test]
fn mut_ref_adapter_matches_direct_state() {
    let store = state_store();
    let direct = StateRef::basic(&store, addr(1));
    let mut adapter = &store;
    let mut nested = &mut adapter;
    let through = State::basic(&mut nested, addr(1));
    assert_eq!(through, direct);
}

#[test]
fn store_error_propagates_unchanged_through_adapters() {
    let store = OfflineState;
    let mut adapter = &store;
    assert_eq!(State::basic(&mut adapter, addr(1)), Err(MemoryError::StoreUnreachable));
    assert_eq!(
        State::code_by_hash(&mut adapter, hash(1)).map(|c| c.bytes),
        Err(MemoryError::StoreUnreachable)
    );
    assert_eq!(
        State::storage(&mut adapter, addr(1), word(0)),
        Err(MemoryError::StoreUnreachable)
    );

    let mut handle = Arc::new(OfflineState);
    assert_eq!(State::basic(&mut handle, addr(1)), Err(MemoryError::StoreUnreachable));

    let mut block_adapter = &OfflineBlockHash;
    assert_eq!(
        BlockHash::block_hash(&mut block_adapter, word(1)),
        Err(MemoryError::StoreUnreachable)
    );
}
