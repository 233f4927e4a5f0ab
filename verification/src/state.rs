//! The state provider contracts and their delegation adapters.
//!
//! [`State`] is the mutable-access contract and [`StateRef`] the
//! shared-access one; both resolve account records, bytecode by code hash,
//! and storage-slot values.  A provider models what its backing store
//! holds through three spec functions — the account map, the registered
//! code, and the total storage map — and the exact outcome of each lookup
//! through three more.  The adapter implementations at the bottom let
//! every shared-access provider stand wherever the mutable-access
//! contract is expected.

use std::sync::Arc;
use vstd::prelude::*;

use crate::primitives::AccountInfo;
use crate::primitives::Address;
use crate::primitives::Bytecode;
use crate::primitives::Hash256;
use crate::primitives::Word256;

verus! {

/// The bytes of a returned code blob, with the error carried through:
/// lookup outcomes are compared by the bytes they deliver.
pub open spec fn code_result_view<E>(r: Result<Bytecode, E>) -> Result<Seq<u8>, E> {
    match r {
        Ok(c) => Ok(c@),
        Err(e) => Err(e),
    }
}

/// Mutable-access state provider.
///
/// A call may update the provider's private bookkeeping (a cache, a fetch
/// cursor) but never what the provider reports: every method is a pure
/// query of the backing store.
pub trait State {
    /// The provider's own failure signal; it is propagated unchanged.
    type Error;

    /// The account record the backing store assigns to `address`, `None`
    /// when the address was never assigned one.
    spec fn account_of(&self, address: Address) -> Option<AccountInfo>;

    /// The bytes registered under `code_hash`, `None` when the hash is
    /// unknown to the backing store.
    spec fn code_of(&self, code_hash: Hash256) -> Option<Seq<u8>>;

    /// The value of the storage slot `index` of `address`.  Storage is a
    /// total map: a slot never written holds the all-zero word.
    spec fn storage_of(&self, address: Address, index: Word256) -> Word256;

    /// The exact outcome of an account lookup on the current state.
    spec fn basic_lookup_of(&self, address: Address) -> Result<
        Option<AccountInfo>,
        Self::Error,
    >;

    /// The exact outcome of a code lookup on the current state, by the
    /// bytes it delivers.
    spec fn code_lookup_of(&self, code_hash: Hash256) -> Result<Seq<u8>, Self::Error>;

    /// The exact outcome of a storage read on the current state.
    spec fn storage_lookup_of(&self, address: Address, index: Word256) -> Result<
        Word256,
        Self::Error,
    >;

    /// Get basic account information.
    ///
    /// An address never assigned an account yields `Ok(None)`: absence is
    /// a successful, empty answer, distinct from a store failure.
    fn basic(&mut self, address: Address) -> (r: Result<Option<AccountInfo>, Self::Error>)
        ensures
            r == old(self).basic_lookup_of(address),
            r matches Ok(a) ==> a == old(self).account_of(address),
            forall|a: Address| #[trigger] final(self).account_of(a) == old(self).account_of(a),
            forall|h: Hash256| #[trigger] final(self).code_of(h) == old(self).code_of(h),
            forall|a: Address, i: Word256|
                #[trigger] final(self).storage_of(a, i) == old(self).storage_of(a, i),
            forall|a: Address|
                #[trigger] final(self).basic_lookup_of(a) == old(self).basic_lookup_of(a),
            forall|h: Hash256|
                #[trigger] final(self).code_lookup_of(h) == old(self).code_lookup_of(h),
            forall|a: Address, i: Word256|
                #[trigger] final(self).storage_lookup_of(a, i) == old(self).storage_lookup_of(
                    a,
                    i,
                ),
    ;

    /// Get account code by its hash.
    ///
    /// A hash no code was registered under fails: there is no empty
    /// success value for code.
    fn code_by_hash(&mut self, code_hash: Hash256) -> (r: Result<Bytecode, Self::Error>)
        ensures
            code_result_view(r) == old(self).code_lookup_of(code_hash),
            r matches Ok(c) ==> old(self).code_of(code_hash) == Some(c@),
            old(self).code_of(code_hash) is None ==> r is Err,
            forall|a: Address| #[trigger] final(self).account_of(a) == old(self).account_of(a),
            forall|h: Hash256| #[trigger] final(self).code_of(h) == old(self).code_of(h),
            forall|a: Address, i: Word256|
                #[trigger] final(self).storage_of(a, i) == old(self).storage_of(a, i),
            forall|a: Address|
                #[trigger] final(self).basic_lookup_of(a) == old(self).basic_lookup_of(a),
            forall|h: Hash256|
                #[trigger] final(self).code_lookup_of(h) == old(self).code_lookup_of(h),
            forall|a: Address, i: Word256|
                #[trigger] final(self).storage_lookup_of(a, i) == old(self).storage_lookup_of(
                    a,
                    i,
                ),
    ;

    /// Get storage value of address at index.
    ///
    /// A successful read reports the total storage map, so a slot never
    /// written yields the all-zero word, not a failure.
    fn storage(&mut self, address: Address, index: Word256) -> (r: Result<
        Word256,
        Self::Error,
    >)
        ensures
            r == old(self).storage_lookup_of(address, index),
            r matches Ok(w) ==> w == old(self).storage_of(address, index),
            forall|a: Address| #[trigger] final(self).account_of(a) == old(self).account_of(a),
            forall|h: Hash256| #[trigger] final(self).code_of(h) == old(self).code_of(h),
            forall|a: Address, i: Word256|
                #[trigger] final(self).storage_of(a, i) == old(self).storage_of(a, i),
            forall|a: Address|
                #[trigger] final(self).basic_lookup_of(a) == old(self).basic_lookup_of(a),
            forall|h: Hash256|
                #[trigger] final(self).code_lookup_of(h) == old(self).code_lookup_of(h),
            forall|a: Address, i: Word256|
                #[trigger] final(self).storage_lookup_of(a, i) == old(self).storage_lookup_of(
                    a,
                    i,
                ),
    ;
}

/// Shared-access state provider: the same three capabilities as
/// [`State`], answered through a shared reference, so concurrent holders
/// of one provider may all call it.
pub trait StateRef {
    /// The provider's own failure signal; it is propagated unchanged.
    type Error;

    /// The account record the backing store assigns to `address`, `None`
    /// when the address was never assigned one.
    spec fn account_of(&self, address: Address) -> Option<AccountInfo>;

    /// The bytes registered under `code_hash`, `None` when the hash is
    /// unknown to the backing store.
    spec fn code_of(&self, code_hash: Hash256) -> Option<Seq<u8>>;

    /// The value of the storage slot `index` of `address`.  Storage is a
    /// total map: a slot never written holds the all-zero word.
    spec fn storage_of(&self, address: Address, index: Word256) -> Word256;

    /// The exact outcome of an account lookup on the current state.
    spec fn basic_lookup_of(&self, address: Address) -> Result<
        Option<AccountInfo>,
        Self::Error,
    >;

    /// The exact outcome of a code lookup on the current state, by the
    /// bytes it delivers.
    spec fn code_lookup_of(&self, code_hash: Hash256) -> Result<Seq<u8>, Self::Error>;

    /// The exact outcome of a storage read on the current state.
    spec fn storage_lookup_of(&self, address: Address, index: Word256) -> Result<
        Word256,
        Self::Error,
    >;

    /// Get basic account information.
    ///
    /// An address never assigned an account yields `Ok(None)`: absence is
    /// a successful, empty answer, distinct from a store failure.
    fn basic(&self, address: Address) -> (r: Result<Option<AccountInfo>, Self::Error>)
        ensures
            r == self.basic_lookup_of(address),
            r matches Ok(a) ==> a == self.account_of(address),
    ;

    /// Get account code by its hash.
    ///
    /// A hash no code was registered under fails: there is no empty
    /// success value for code.
    fn code_by_hash(&self, code_hash: Hash256) -> (r: Result<Bytecode, Self::Error>)
        ensures
            code_result_view(r) == self.code_lookup_of(code_hash),
            r matches Ok(c) ==> self.code_of(code_hash) == Some(c@),
            self.code_of(code_hash) is None ==> r is Err,
    ;

    /// Get storage value of address at index.
    ///
    /// A successful read reports the total storage map, so a slot never
    /// written yields the all-zero word, not a failure.
    fn storage(&self, address: Address, index: Word256) -> (r: Result<Word256, Self::Error>)
        ensures
            r == self.storage_lookup_of(address, index),
            r matches Ok(w) ==> w == self.storage_of(address, index),
    ;
}

impl<T: StateRef> StateRef for &T {
    type Error = <T as StateRef>::Error;

    open spec fn account_of(&self, address: Address) -> Option<AccountInfo> {
        (**self).account_of(address)
    }

    open spec fn code_of(&self, code_hash: Hash256) -> Option<Seq<u8>> {
        (**self).code_of(code_hash)
    }

    open spec fn storage_of(&self, address: Address, index: Word256) -> Word256 {
        (**self).storage_of(address, index)
    }

    open spec fn basic_lookup_of(&self, address: Address) -> Result<
        Option<AccountInfo>,
        Self::Error,
    > {
        (**self).basic_lookup_of(address)
    }

    open spec fn code_lookup_of(&self, code_hash: Hash256) -> Result<Seq<u8>, Self::Error> {
        (**self).code_lookup_of(code_hash)
    }

    open spec fn storage_lookup_of(&self, address: Address, index: Word256) -> Result<
        Word256,
        Self::Error,
    > {
        (**self).storage_lookup_of(address, index)
    }

    fn basic(&self, address: Address) -> (r: Result<Option<AccountInfo>, Self::Error>) {
        T::basic(*self, address)
    }

    fn code_by_hash(&self, code_hash: Hash256) -> (r: Result<Bytecode, Self::Error>) {
        T::code_by_hash(*self, code_hash)
    }

    fn storage(&self, address: Address, index: Word256) -> (r: Result<Word256, Self::Error>) {
        T::storage(*self, address, index)
    }
}

impl<T: StateRef> StateRef for Box<T> {
    type Error = <T as StateRef>::Error;

    open spec fn account_of(&self, address: Address) -> Option<AccountInfo> {
        (**self).account_of(address)
    }

    open spec fn code_of(&self, code_hash: Hash256) -> Option<Seq<u8>> {
        (**self).code_of(code_hash)
    }

    open spec fn storage_of(&self, address: Address, index: Word256) -> Word256 {
        (**self).storage_of(address, index)
    }

    open spec fn basic_lookup_of(&self, address: Address) -> Result<
        Option<AccountInfo>,
        Self::Error,
    > {
        (**self).basic_lookup_of(address)
    }

    open spec fn code_lookup_of(&self, code_hash: Hash256) -> Result<Seq<u8>, Self::Error> {
        (**self).code_lookup_of(code_hash)
    }

    open spec fn storage_lookup_of(&self, address: Address, index: Word256) -> Result<
        Word256,
        Self::Error,
    > {
        (**self).storage_lookup_of(address, index)
    }

    fn basic(&self, address: Address) -> (r: Result<Option<AccountInfo>, Self::Error>) {
        T::basic(&**self, address)
    }

    fn code_by_hash(&self, code_hash: Hash256) -> (r: Result<Bytecode, Self::Error>) {
        T::code_by_hash(&**self, code_hash)
    }

    fn storage(&self, address: Address, index: Word256) -> (r: Result<Word256, Self::Error>) {
        T::storage(&**self, address, index)
    }
}

impl<T: StateRef> StateRef for Arc<T> {
    type Error = <T as StateRef>::Error;

    open spec fn account_of(&self, address: Address) -> Option<AccountInfo> {
        (**self).account_of(address)
    }

    open spec fn code_of(&self, code_hash: Hash256) -> Option<Seq<u8>> {
        (**self).code_of(code_hash)
    }

    open spec fn storage_of(&self, address: Address, index: Word256) -> Word256 {
        (**self).storage_of(address, index)
    }

    open spec fn basic_lookup_of(&self, address: Address) -> Result<
        Option<AccountInfo>,
        Self::Error,
    > {
        (**self).basic_lookup_of(address)
    }

    open spec fn code_lookup_of(&self, code_hash: Hash256) -> Result<Seq<u8>, Self::Error> {
        (**self).code_lookup_of(code_hash)
    }

    open spec fn storage_lookup_of(&self, address: Address, index: Word256) -> Result<
        Word256,
        Self::Error,
    > {
        (**self).storage_lookup_of(address, index)
    }

    fn basic(&self, address: Address) -> (r: Result<Option<AccountInfo>, Self::Error>) {
        T::basic(&**self, address)
    }

    fn code_by_hash(&self, code_hash: Hash256) -> (r: Result<Bytecode, Self::Error>) {
        T::code_by_hash(&**self, code_hash)
    }

    fn storage(&self, address: Address, index: Word256) -> (r: Result<Word256, Self::Error>) {
        T::storage(&**self, address, index)
    }
}

impl<T: State> State for &mut T {
    type Error = <T as State>::Error;

    open spec fn account_of(&self, address: Address) -> Option<AccountInfo> {
        (**self).account_of(address)
    }

    open spec fn code_of(&self, code_hash: Hash256) -> Option<Seq<u8>> {
        (**self).code_of(code_hash)
    }

    open spec fn storage_of(&self, address: Address, index: Word256) -> Word256 {
        (**self).storage_of(address, index)
    }

    open spec fn basic_lookup_of(&self, address: Address) -> Result<
        Option<AccountInfo>,
        Self::Error,
    > {
        (**self).basic_lookup_of(address)
    }

    open spec fn code_lookup_of(&self, code_hash: Hash256) -> Result<Seq<u8>, Self::Error> {
        (**self).code_lookup_of(code_hash)
    }

    open spec fn storage_lookup_of(&self, address: Address, index: Word256) -> Result<
        Word256,
        Self::Error,
    > {
        (**self).storage_lookup_of(address, index)
    }

    fn basic(&mut self, address: Address) -> (r: Result<Option<AccountInfo>, Self::Error>) {
        T::basic(*self, address)
    }

    fn code_by_hash(&mut self, code_hash: Hash256) -> (r: Result<Bytecode, Self::Error>) {
        T::code_by_hash(*self, code_hash)
    }

    fn storage(&mut self, address: Address, index: Word256) -> (r: Result<
        Word256,
        Self::Error,
    >) {
        T::storage(*self, address, index)
    }
}

impl<T: State> State for Box<T> {
    type Error = <T as State>::Error;

    open spec fn account_of(&self, address: Address) -> Option<AccountInfo> {
        (**self).account_of(address)
    }

    open spec fn code_of(&self, code_hash: Hash256) -> Option<Seq<u8>> {
        (**self).code_of(code_hash)
    }

    open spec fn storage_of(&self, address: Address, index: Word256) -> Word256 {
        (**self).storage_of(address, index)
    }

    open spec fn basic_lookup_of(&self, address: Address) -> Result<
        Option<AccountInfo>,
        Self::Error,
    > {
        (**self).basic_lookup_of(address)
    }

    open spec fn code_lookup_of(&self, code_hash: Hash256) -> Result<Seq<u8>, Self::Error> {
        (**self).code_lookup_of(code_hash)
    }

    open spec fn storage_lookup_of(&self, address: Address, index: Word256) -> Result<
        Word256,
        Self::Error,
    > {
        (**self).storage_lookup_of(address, index)
    }

    fn basic(&mut self, address: Address) -> (r: Result<Option<AccountInfo>, Self::Error>) {
        T::basic(&mut **self, address)
    }

    fn code_by_hash(&mut self, code_hash: Hash256) -> (r: Result<Bytecode, Self::Error>) {
        T::code_by_hash(&mut **self, code_hash)
    }

    fn storage(&mut self, address: Address, index: Word256) -> (r: Result<
        Word256,
        Self::Error,
    >) {
        T::storage(&mut **self, address, index)
    }
}

impl<T: StateRef> State for &T {
    type Error = <T as StateRef>::Error;

    open spec fn account_of(&self, address: Address) -> Option<AccountInfo> {
        (**self).account_of(address)
    }

    open spec fn code_of(&self, code_hash: Hash256) -> Option<Seq<u8>> {
        (**self).code_of(code_hash)
    }

    open spec fn storage_of(&self, address: Address, index: Word256) -> Word256 {
        (**self).storage_of(address, index)
    }

    open spec fn basic_lookup_of(&self, address: Address) -> Result<
        Option<AccountInfo>,
        Self::Error,
    > {
        (**self).basic_lookup_of(address)
    }

    open spec fn code_lookup_of(&self, code_hash: Hash256) -> Result<Seq<u8>, Self::Error> {
        (**self).code_lookup_of(code_hash)
    }

    open spec fn storage_lookup_of(&self, address: Address, index: Word256) -> Result<
        Word256,
        Self::Error,
    > {
        (**self).storage_lookup_of(address, index)
    }

    fn basic(&mut self, address: Address) -> (r: Result<Option<AccountInfo>, Self::Error>) {
        StateRef::basic(*self, address)
    }

    fn code_by_hash(&mut self, code_hash: Hash256) -> (r: Result<Bytecode, Self::Error>) {
        StateRef::code_by_hash(*self, code_hash)
    }

    fn storage(&mut self, address: Address, index: Word256) -> (r: Result<
        Word256,
        Self::Error,
    >) {
        StateRef::storage(*self, address, index)
    }
}

impl<T: StateRef> State for Arc<T> {
    type Error = <T as StateRef>::Error;

    open spec fn account_of(&self, address: Address) -> Option<AccountInfo> {
        (**self).account_of(address)
    }

    open spec fn code_of(&self, code_hash: Hash256) -> Option<Seq<u8>> {
        (**self).code_of(code_hash)
    }

    open spec fn storage_of(&self, address: Address, index: Word256) -> Word256 {
        (**self).storage_of(address, index)
    }

    open spec fn basic_lookup_of(&self, address: Address) -> Result<
        Option<AccountInfo>,
        Self::Error,
    > {
        (**self).basic_lookup_of(address)
    }

    open spec fn code_lookup_of(&self, code_hash: Hash256) -> Result<Seq<u8>, Self::Error> {
        (**self).code_lookup_of(code_hash)
    }

    open spec fn storage_lookup_of(&self, address: Address, index: Word256) -> Result<
        Word256,
        Self::Error,
    > {
        (**self).storage_lookup_of(address, index)
    }

    fn basic(&mut self, address: Address) -> (r: Result<Option<AccountInfo>, Self::Error>) {
        T::basic(&**self, address)
    }

    fn code_by_hash(&mut self, code_hash: Hash256) -> (r: Result<Bytecode, Self::Error>) {
        T::code_by_hash(&**self, code_hash)
    }

    fn storage(&mut self, address: Address, index: Word256) -> (r: Result<
        Word256,
        Self::Error,
    >) {
        T::storage(&**self, address, index)
    }
}

/// Delegation equivalence for a shared reference: used through the
/// mutable-access contract, `&T` models exactly the wrapped shared-access
/// provider, so every call on the adapter is pinned to the same outcome
/// as the direct call on the provider.
pub proof fn lemma_ref_delegates_state<T: StateRef>(
    p: &T,
    address: Address,
    code_hash: Hash256,
    index: Word256,
)
    ensures
        <&T as State>::account_of(&p, address) == (*p).account_of(address),
        <&T as State>::code_of(&p, code_hash) == (*p).code_of(code_hash),
        <&T as State>::storage_of(&p, address, index) == (*p).storage_of(address, index),
        <&T as State>::basic_lookup_of(&p, address) == (*p).basic_lookup_of(address),
        <&T as State>::code_lookup_of(&p, code_hash) == (*p).code_lookup_of(code_hash),
        <&T as State>::storage_lookup_of(&p, address, index) == (*p).storage_lookup_of(
            address,
            index,
        ),
{
}

/// Delegation equivalence for a shared-ownership handle: used through the
/// mutable-access contract, `Arc<T>` models exactly the wrapped
/// shared-access provider, so every call on the adapter is pinned to the
/// same outcome as the direct call on the provider.
pub proof fn lemma_arc_delegates_state<T: StateRef>(
    p: &Arc<T>,
    address: Address,
    code_hash: Hash256,
    index: Word256,
)
    ensures
        <Arc<T> as State>::account_of(p, address) == (**p).account_of(address),
        <Arc<T> as State>::code_of(p, code_hash) == (**p).code_of(code_hash),
        <Arc<T> as State>::storage_of(p, address, index) == (**p).storage_of(address, index),
        <Arc<T> as State>::basic_lookup_of(p, address) == (**p).basic_lookup_of(address),
        <Arc<T> as State>::code_lookup_of(p, code_hash) == (**p).code_lookup_of(code_hash),
        <Arc<T> as State>::storage_lookup_of(p, address, index) == (**p).storage_lookup_of(
            address,
            index,
        ),
{
}

/// Delegation equivalence for a unique-ownership box: under the
/// shared-access contract, `Box<T>` models exactly the wrapped provider,
/// so every call on the box is pinned to the same outcome as the direct
/// call on the provider.
pub proof fn lemma_box_delegates_state<T: StateRef>(
    p: &Box<T>,
    address: Address,
    code_hash: Hash256,
    index: Word256,
)
    ensures
        <Box<T> as StateRef>::account_of(p, address) == (**p).account_of(address),
        <Box<T> as StateRef>::code_of(p, code_hash) == (**p).code_of(code_hash),
        <Box<T> as StateRef>::storage_of(p, address, index) == (**p).storage_of(address, index),
        <Box<T> as StateRef>::basic_lookup_of(p, address) == (**p).basic_lookup_of(address),
        <Box<T> as StateRef>::code_lookup_of(p, code_hash) == (**p).code_lookup_of(code_hash),
        <Box<T> as StateRef>::storage_lookup_of(p, address, index) == (**p).storage_lookup_of(
            address,
            index,
        ),
{
}

/// Determinism: for a fixed provider state, any two outcomes that the
/// shared-access contract admits for the same query are the same
/// outcome, for each of the three state queries.
pub proof fn lemma_state_deterministic<T: StateRef>(
    p: &T,
    address: Address,
    code_hash: Hash256,
    index: Word256,
    b1: Result<Option<AccountInfo>, <T as StateRef>::Error>,
    b2: Result<Option<AccountInfo>, <T as StateRef>::Error>,
    c1: Result<Seq<u8>, <T as StateRef>::Error>,
    c2: Result<Seq<u8>, <T as StateRef>::Error>,
    s1: Result<Word256, <T as StateRef>::Error>,
    s2: Result<Word256, <T as StateRef>::Error>,
)
    requires
        b1 == p.basic_lookup_of(address),
        b2 == p.basic_lookup_of(address),
        c1 == p.code_lookup_of(code_hash),
        c2 == p.code_lookup_of(code_hash),
        s1 == p.storage_lookup_of(address, index),
        s2 == p.storage_lookup_of(address, index),
    ensures
        b1 == b2,
        c1 == c2,
        s1 == s2,
{
}

} // verus!
