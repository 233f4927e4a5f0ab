//! In-memory providers for both contract families.
//!
//! [`MemoryBlockHash`] and [`MemoryState`] keep their tables as plain
//! vectors of entries, later entries shadowing earlier ones, and answer
//! every lookup without touching what they report — so they satisfy the
//! shared-access contracts, and through the adapters the mutable-access
//! ones as well.  A fresh store knows no account, no code and no block
//! hash, and every storage slot of it holds the all-zero word.
//! [`OfflineBlockHash`] and [`OfflineState`] stand for a backing store
//! whose medium is down: every call on them fails, so they show failures
//! being surfaced rather than swallowed.

use vstd::prelude::*;

use crate::block_hash::BlockHashRef;
use crate::primitives::AccountInfo;
use crate::primitives::Address;
use crate::primitives::Bytecode;
use crate::primitives::Hash256;
use crate::primitives::Word256;
use crate::state::StateRef;

verus! {

/// The failure signals of the providers in this module.
#[derive(Clone, Copy, PartialEq, Eq, Hash, Debug, Structural)]
pub enum MemoryError {
    /// No hash is recorded for the requested block number.
    UnknownBlockNumber,
    /// No code is registered under the requested hash.
    UnknownCodeHash,
    /// The backing medium could not be reached.
    StoreUnreachable,
}

/// The value the latest entry with key `key` carries, `None` when no
/// entry has that key.
pub open spec fn assoc_find<K, V>(entries: Seq<(K, V)>, key: K) -> Option<V>
    decreases entries.len(),
{
    if entries.len() == 0 {
        None
    } else if entries.last().0 == key {
        Some(entries.last().1)
    } else {
        assoc_find(entries.drop_last(), key)
    }
}

/// An in-memory block-hash provider: a table of `(number, hash)` entries.
pub struct MemoryBlockHash {
    pub entries: Vec<(Word256, Hash256)>,
}

impl MemoryBlockHash {
    /// An empty store: it knows no block hash at all.
    pub fn new() -> (p: MemoryBlockHash)
        ensures
            forall|n: Word256| #[trigger] p.hash_of(n) is None,
    {
        MemoryBlockHash { entries: Vec::new() }
    }

    /// Records `hash` for `number`, shadowing any earlier record of the
    /// same number and leaving every other number as it was.
    pub fn insert(&mut self, number: Word256, hash: Hash256)
        ensures
            final(self).hash_of(number) == Some(hash),
            forall|n: Word256|
                n != number ==> #[trigger] final(self).hash_of(n) == old(self).hash_of(n),
    {
        self.entries.push((number, hash));
        proof {
            assert forall|n: Word256|
                n != number implies #[trigger] self.hash_of(n) == old(self).hash_of(n) by {
                assert(self.entries@.drop_last() =~= old(self).entries@);
            }
        }
    }
}

impl BlockHashRef for MemoryBlockHash {
    type Error = MemoryError;

    open spec fn hash_of(&self, number: Word256) -> Option<Hash256> {
        assoc_find(self.entries@, number)
    }

    open spec fn lookup_of(&self, number: Word256) -> Result<Hash256, MemoryError> {
        match assoc_find(self.entries@, number) {
            Some(h) => Ok(h),
            None => Err(MemoryError::UnknownBlockNumber),
        }
    }

    fn block_hash(&self, number: Word256) -> (r: Result<Hash256, MemoryError>) {
        let mut i: usize = self.entries.len();
        proof {
            assert(self.entries@.take(i as int) =~= self.entries@);
        }
        while i > 0
            invariant
                i <= self.entries.len(),
                assoc_find(self.entries@, number) == assoc_find(
                    self.entries@.take(i as int),
                    number,
                ),
            decreases i,
        {
            i = i - 1;
            let entry = self.entries[i];
            proof {
                assert(self.entries@.take(i + 1).last() == self.entries@[i as int]);
                assert(self.entries@.take(i + 1).drop_last() =~= self.entries@.take(i as int));
            }
            if entry.0 == number {
                return Ok(entry.1);
            }
        }
        Err(MemoryError::UnknownBlockNumber)
    }
}

/// An in-memory state provider: tables of accounts, registered code and
/// written storage slots.
pub struct MemoryState {
    pub accounts: Vec<(Address, AccountInfo)>,
    pub codes: Vec<(Hash256, Bytecode)>,
    pub slots: Vec<((Address, Word256), Word256)>,
}

impl MemoryState {
    /// An empty store: no account, no code, and every storage slot holds
    /// the all-zero word.
    pub fn new() -> (p: MemoryState)
        ensures
            forall|a: Address| #[trigger] p.account_of(a) is None,
            forall|h: Hash256| #[trigger] p.code_of(h) is None,
            forall|a: Address, i: Word256| #[trigger] p.storage_of(a, i) == Word256::spec_zero(),
    {
        MemoryState { accounts: Vec::new(), codes: Vec::new(), slots: Vec::new() }
    }

    /// Assigns `info` to `address`, shadowing any earlier record and
    /// leaving every other address, all code and all storage as they
    /// were.
    pub fn insert_account(&mut self, address: Address, info: AccountInfo)
        ensures
            final(self).account_of(address) == Some(info),
            forall|a: Address|
                a != address ==> #[trigger] final(self).account_of(a) == old(self).account_of(a),
            forall|h: Hash256| #[trigger] final(self).code_of(h) == old(self).code_of(h),
            forall|a: Address, i: Word256|
                #[trigger] final(self).storage_of(a, i) == old(self).storage_of(a, i),
    {
        self.accounts.push((address, info));
        proof {
            assert forall|a: Address|
                a != address implies #[trigger] self.account_of(a) == old(self).account_of(a) by {
                assert(self.accounts@.drop_last() =~= old(self).accounts@);
            }
        }
    }

    /// Registers `code` under `code_hash`, shadowing any earlier blob and
    /// leaving every other hash, all accounts and all storage as they
    /// were.
    pub fn insert_code(&mut self, code_hash: Hash256, code: Bytecode)
        ensures
            final(self).code_of(code_hash) == Some(code@),
            forall|h: Hash256|
                h != code_hash ==> #[trigger] final(self).code_of(h) == old(self).code_of(h),
            forall|a: Address| #[trigger] final(self).account_of(a) == old(self).account_of(a),
            forall|a: Address, i: Word256|
                #[trigger] final(self).storage_of(a, i) == old(self).storage_of(a, i),
    {
        self.codes.push((code_hash, code));
        proof {
            assert forall|h: Hash256|
                h != code_hash implies #[trigger] self.code_of(h) == old(self).code_of(h) by {
                assert(self.codes@.drop_last() =~= old(self).codes@);
            }
        }
    }

    /// Writes `value` into the storage slot `index` of `address`,
    /// shadowing any earlier write of that slot and leaving every other
    /// slot, all accounts and all code as they were.
    pub fn write_storage(&mut self, address: Address, index: Word256, value: Word256)
        ensures
            final(self).storage_of(address, index) == value,
            forall|a: Address, i: Word256|
                !(a == address && i == index) ==> #[trigger] final(self).storage_of(a, i) == old(
                    self,
                ).storage_of(a, i),
            forall|a: Address| #[trigger] final(self).account_of(a) == old(self).account_of(a),
            forall|h: Hash256| #[trigger] final(self).code_of(h) == old(self).code_of(h),
    {
        self.slots.push(((address, index), value));
        proof {
            assert forall|a: Address, i: Word256|
                !(a == address && i == index) implies #[trigger] self.storage_of(a, i) == old(
                self,
            ).storage_of(a, i) by {
                assert(self.slots@.drop_last() =~= old(self).slots@);
            }
        }
    }
}

impl StateRef for MemoryState {
    type Error = MemoryError;

    open spec fn account_of(&self, address: Address) -> Option<AccountInfo> {
        assoc_find(self.accounts@, address)
    }

    open spec fn code_of(&self, code_hash: Hash256) -> Option<Seq<u8>> {
        match assoc_find(self.codes@, code_hash) {
            Some(c) => Some(c@),
            None => None,
        }
    }

    open spec fn storage_of(&self, address: Address, index: Word256) -> Word256 {
        match assoc_find(self.slots@, (address, index)) {
            Some(w) => w,
            None => Word256::spec_zero(),
        }
    }

    open spec fn basic_lookup_of(&self, address: Address) -> Result<
        Option<AccountInfo>,
        MemoryError,
    > {
        Ok(self.account_of(address))
    }

    open spec fn code_lookup_of(&self, code_hash: Hash256) -> Result<Seq<u8>, MemoryError> {
        match self.code_of(code_hash) {
            Some(bytes) => Ok(bytes),
            None => Err(MemoryError::UnknownCodeHash),
        }
    }

    open spec fn storage_lookup_of(&self, address: Address, index: Word256) -> Result<
        Word256,
        MemoryError,
    > {
        Ok(self.storage_of(address, index))
    }

    fn basic(&self, address: Address) -> (r: Result<Option<AccountInfo>, MemoryError>) {
        let mut i: usize = self.accounts.len();
        proof {
            assert(self.accounts@.take(i as int) =~= self.accounts@);
        }
        while i > 0
            invariant
                i <= self.accounts.len(),
                assoc_find(self.accounts@, address) == assoc_find(
                    self.accounts@.take(i as int),
                    address,
                ),
            decreases i,
        {
            i = i - 1;
            let entry = self.accounts[i];
            proof {
                assert(self.accounts@.take(i + 1).last() == self.accounts@[i as int]);
                assert(self.accounts@.take(i + 1).drop_last() =~= self.accounts@.take(i as int));
            }
            if entry.0 == address {
                return Ok(Some(entry.1));
            }
        }
        Ok(None)
    }

    fn code_by_hash(&self, code_hash: Hash256) -> (r: Result<Bytecode, MemoryError>) {
        let mut i: usize = self.codes.len();
        proof {
            assert(self.codes@.take(i as int) =~= self.codes@);
        }
        while i > 0
            invariant
                i <= self.codes.len(),
                assoc_find(self.codes@, code_hash) == assoc_find(
                    self.codes@.take(i as int),
                    code_hash,
                ),
            decreases i,
        {
            i = i - 1;
            let entry = &self.codes[i];
            proof {
                assert(self.codes@.take(i + 1).last() == self.codes@[i as int]);
                assert(self.codes@.take(i + 1).drop_last() =~= self.codes@.take(i as int));
            }
            if entry.0 == code_hash {
                let copy = entry.1.bytes.clone();
                return Ok(Bytecode { bytes: copy });
            }
        }
        Err(MemoryError::UnknownCodeHash)
    }

    fn storage(&self, address: Address, index: Word256) -> (r: Result<Word256, MemoryError>) {
        let mut i: usize = self.slots.len();
        proof {
            assert(self.slots@.take(i as int) =~= self.slots@);
        }
        while i > 0
            invariant
                i <= self.slots.len(),
                assoc_find(self.slots@, (address, index)) == assoc_find(
                    self.slots@.take(i as int),
                    (address, index),
                ),
            decreases i,
        {
            i = i - 1;
            let entry = self.slots[i];
            proof {
                assert(self.slots@.take(i + 1).last() == self.slots@[i as int]);
                assert(self.slots@.take(i + 1).drop_last() =~= self.slots@.take(i as int));
            }
            if entry.0.0 == address && entry.0.1 == index {
                return Ok(entry.1);
            }
        }
        Ok(Word256::zero())
    }
}

/// A block-hash provider whose backing medium is down: it reports no
/// hash, and every call fails with [`MemoryError::StoreUnreachable`].
pub struct OfflineBlockHash;

impl BlockHashRef for OfflineBlockHash {
    type Error = MemoryError;

    open spec fn hash_of(&self, number: Word256) -> Option<Hash256> {
        None
    }

    open spec fn lookup_of(&self, number: Word256) -> Result<Hash256, MemoryError> {
        Err(MemoryError::StoreUnreachable)
    }

    fn block_hash(&self, number: Word256) -> (r: Result<Hash256, MemoryError>) {
        Err(MemoryError::StoreUnreachable)
    }
}

/// A state provider whose backing medium is down: it reports no account
/// and no code, and every call fails with
/// [`MemoryError::StoreUnreachable`] — a failure, never a silently empty
/// answer.
pub struct OfflineState;

impl StateRef for OfflineState {
    type Error = MemoryError;

    open spec fn account_of(&self, address: Address) -> Option<AccountInfo> {
        None
    }

    open spec fn code_of(&self, code_hash: Hash256) -> Option<Seq<u8>> {
        None
    }

    open spec fn storage_of(&self, address: Address, index: Word256) -> Word256 {
        Word256::spec_zero()
    }

    open spec fn basic_lookup_of(&self, address: Address) -> Result<
        Option<AccountInfo>,
        MemoryError,
    > {
        Err(MemoryError::StoreUnreachable)
    }

    open spec fn code_lookup_of(&self, code_hash: Hash256) -> Result<Seq<u8>, MemoryError> {
        Err(MemoryError::StoreUnreachable)
    }

    open spec fn storage_lookup_of(&self, address: Address, index: Word256) -> Result<
        Word256,
        MemoryError,
    > {
        Err(MemoryError::StoreUnreachable)
    }

    fn basic(&self, address: Address) -> (r: Result<Option<AccountInfo>, MemoryError>) {
        Err(MemoryError::StoreUnreachable)
    }

    fn code_by_hash(&self, code_hash: Hash256) -> (r: Result<Bytecode, MemoryError>) {
        Err(MemoryError::StoreUnreachable)
    }

    fn storage(&self, address: Address, index: Word256) -> (r: Result<Word256, MemoryError>) {
        Err(MemoryError::StoreUnreachable)
    }
}

/// Account absence vs failure, on the in-memory store: an account lookup
/// never fails, and an address never assigned an account resolves to the
/// empty answer, not to an error.
pub proof fn lemma_memory_basic_total(m: &MemoryState, address: Address)
    ensures
        m.basic_lookup_of(address) == Ok::<Option<AccountInfo>, MemoryError>(
            m.account_of(address),
        ),
        m.account_of(address) is None ==> m.basic_lookup_of(address) == Ok::<
            Option<AccountInfo>,
            MemoryError,
        >(None),
{
}

/// Storage totality, on the in-memory store: a storage read never fails,
/// and a slot never written resolves to the all-zero word.
pub proof fn lemma_memory_storage_total(m: &MemoryState, address: Address, index: Word256)
    ensures
        m.storage_lookup_of(address, index) == Ok::<Word256, MemoryError>(
            m.storage_of(address, index),
        ),
        assoc_find(m.slots@, (address, index)) is None ==> m.storage_of(address, index)
            == Word256::spec_zero(),
{
}

/// Code lookup is exact or absent-as-error, on the in-memory store: a
/// registered hash resolves to exactly the registered bytes, and an
/// unregistered hash fails instead of returning an empty blob.
pub proof fn lemma_memory_code_exact_or_error(m: &MemoryState, code_hash: Hash256)
    ensures
        m.code_of(code_hash) matches Some(bytes) ==> m.code_lookup_of(code_hash) == Ok::<
            Seq<u8>,
            MemoryError,
        >(bytes),
        m.code_of(code_hash) is None ==> m.code_lookup_of(code_hash) == Err::<
            Seq<u8>,
            MemoryError,
        >(MemoryError::UnknownCodeHash),
{
}

} // verus!
