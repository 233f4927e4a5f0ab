use state_provider::block_hash::BlockHashRef;
use state_provider::memory::MemoryBlockHash;
use state_provider::memory::MemoryError;
use state_provider::memory::MemoryState;
use state_provider::primitives::AccountInfo;
use state_provider::primitives::Address;
use state_provider::primitives::Bytecode;
use state_provider::primitives::Hash256;
use state_provider::primitives::Word256;
use state_provider::state::StateRef;

fn addr(n: u32) -> Address {
    Address { hi: n, lo: n as u128 + 7 }
}

fn hash(n: u128) -> Hash256 {
    Hash256 { hi: n, lo: n + 13 }
}

fn word(n: u128) -> Word256 {
    Word256 { hi: 0, lo: n }
}

fn account(n: u64) -> AccountInfo {
    AccountInfo { balance: word(n as u128), nonce: n, code_hash: hash(n as u128) }
}

#[test]
fn absent_account_is_ok_none() {
    let mut store = MemoryState::new();
    store.insert_account(addr(1), account(10));
    assert_eq!(store.basic(addr(2)), Ok(None));
}

#[test]
fn present_account_is_returned() {
    let mut store = MemoryState::new();
    store.insert_account(addr(1), account(10));
    store.insert_account(addr(2), account(20));
    assert_eq!(store.basic(addr(1)), Ok(Some(account(10))));
    assert_eq!(store.basic(addr(2)), Ok(Some(account(20))));
}

#[test]
fn reassigned_account_shadows_older_record() {
    let mut store = MemoryState::new();
    store.insert_account(addr(1), account(10));
    store.insert_account(addr(1), account(11));
    assert_eq!(store.basic(addr(1)), Ok(Some(account(11))));
}

#[test]
fn unwritten_slot_reads_zero() {
    let store = MemoryState::new();
    assert_eq!(store.storage(addr(1), word(0)), Ok(Word256::zero()));
    let mut store = MemoryState::new();
    store.write_storage(addr(1), word(5), word(99));
    assert_eq!(store.storage(addr(1), word(6)), Ok(Word256::zero()));
    assert_eq!(store.storage(addr(2), word(5)), Ok(Word256::zero()));
}

#[test]
fn written_slot_reads_back_until_overwritten() {
    let mut store = MemoryState::new();
    store.write_storage(addr(1), word(5), word(99));
    assert_eq!(store.storage(addr(1), word(5)), Ok(word(99)));
    store.write_storage(addr(1), word(5), word(100));
    assert_eq!(store.storage(addr(1), word(5)), Ok(word(100)));
}

#[test]
fn registered_code_is_returned_exactly() {
    let mut store = MemoryState::new();
    store.insert_code(hash(1), Bytecode::new(vec![0x60, 0x00, 0x56]));
    let got = store.code_by_hash(hash(1)).unwrap();
    assert_eq!(got.bytes, vec![0x60, 0x00, 0x56]);
}

#[test]
fn unregistered_code_hash_fails() {
    let mut store = MemoryState::new();
    store.insert_code(hash(1), Bytecode::new(vec![0x60]));
    assert_eq!(
        store.code_by_hash(hash(2)).map(|c| c.bytes),
        Err(MemoryError::UnknownCodeHash)
    );
}

#[test]
fn reregistered_code_shadows_older_blob() {
    let mut store = MemoryState::new();
    store.insert_code(hash(1), Bytecode::new(vec![1, 2]));
    store.insert_code(hash(1), Bytecode::new(vec![3]));
    assert_eq!(store.code_by_hash(hash(1)).unwrap().bytes, vec![3]);
}

#[test]
fn known_block_number_resolves_to_its_hash() {
    let mut store = MemoryBlockHash::new();
    store.insert(word(1), hash(41));
    store.insert(word(2), hash(42));
    assert_eq!(store.block_hash(word(1)), Ok(hash(41)));
    assert_eq!(store.block_hash(word(2)), Ok(hash(42)));
}

#[test]
fn unknown_block_number_fails() {
    let mut store = MemoryBlockHash::new();
    store.insert(word(1), hash(41));
    assert_eq!(store.block_hash(word(3)), Err(MemoryError::UnknownBlockNumber));
}

#[test]
fn block_hash_repeated_calls_agree() {
    let mut store = MemoryBlockHash::new();
    store.insert(word(1), hash(41));
    assert_eq!(store.block_hash(word(1)), store.block_hash(word(1)));
    assert_eq!(store.block_hash(word(9)), store.block_hash(word(9)));
}
