//! The block-hash provider contracts and their delegation adapters.
//!
//! [`BlockHash`] is the mutable-access contract: one logical owner per
//! call, so an implementation may update private bookkeeping (a cache, a
//! cursor) while it answers.  [`BlockHashRef`] is the shared-access
//! contract: read-only access, safe to call through any number of handles.
//! The adapter implementations at the bottom let every shared-access
//! provider stand wherever the mutable-access contract is expected.

use std::sync::Arc;
use vstd::prelude::*;

use crate::primitives::Hash256;
use crate::primitives::Word256;

verus! {

/// Mutable-access block-hash provider.
///
/// An implementation models the hashes its backing store knows through
/// [`BlockHash::hash_of`] and the exact outcome of a lookup through
/// [`BlockHash::lookup_of`]; both must survive any private bookkeeping a
/// call performs.
pub trait BlockHash {
    /// The provider's own failure signal; it is propagated unchanged.
    type Error;

    /// The hash the backing store associates with `number`, `None` when
    /// it knows none.
    spec fn hash_of(&self, number: Word256) -> Option<Hash256>;

    /// The exact outcome of looking up `number` in the provider's current
    /// state.
    spec fn lookup_of(&self, number: Word256) -> Result<Hash256, Self::Error>;

    /// Get block hash by block number.
    ///
    /// A returned hash is the one the backing store associates with
    /// `number`; a number the store knows no hash for fails.  The call may
    /// update private bookkeeping, but what the provider reports is left
    /// exactly as it was.
    fn block_hash(&mut self, number: Word256) -> (r: Result<Hash256, Self::Error>)
        ensures
            r == old(self).lookup_of(number),
            r matches Ok(h) ==> old(self).hash_of(number) == Some(h),
            old(self).hash_of(number) is None ==> r is Err,
            forall|n: Word256| #[trigger] final(self).lookup_of(n) == old(self).lookup_of(n),
            forall|n: Word256| #[trigger] final(self).hash_of(n) == old(self).hash_of(n),
    ;
}

/// Shared-access block-hash provider: the same capability as
/// [`BlockHash`], answered through a shared reference, so concurrent
/// holders of one provider may all call it.
pub trait BlockHashRef {
    /// The provider's own failure signal; it is propagated unchanged.
    type Error;

    /// The hash the backing store associates with `number`, `None` when
    /// it knows none.
    spec fn hash_of(&self, number: Word256) -> Option<Hash256>;

    /// The exact outcome of looking up `number` in the provider's current
    /// state.
    spec fn lookup_of(&self, number: Word256) -> Result<Hash256, Self::Error>;

    /// Get block hash by block number.
    ///
    /// The result is a function of the provider's state and the number
    /// alone: for a fixed backing store, the same number always resolves
    /// to the same outcome.
    fn block_hash(&self, number: Word256) -> (r: Result<Hash256, Self::Error>)
        ensures
            r == self.lookup_of(number),
            r matches Ok(h) ==> self.hash_of(number) == Some(h),
            self.hash_of(number) is None ==> r is Err,
    ;
}

impl<T: BlockHashRef> BlockHashRef for &T {
    type Error = <T as BlockHashRef>::Error;

    open spec fn hash_of(&self, number: Word256) -> Option<Hash256> {
        (**self).hash_of(number)
    }

    open spec fn lookup_of(&self, number: Word256) -> Result<Hash256, Self::Error> {
        (**self).lookup_of(number)
    }

    fn block_hash(&self, number: Word256) -> (r: Result<Hash256, Self::Error>) {
        T::block_hash(*self, number)
    }
}

impl<T: BlockHashRef> BlockHashRef for Box<T> {
    type Error = <T as BlockHashRef>::Error;

    open spec fn hash_of(&self, number: Word256) -> Option<Hash256> {
        (**self).hash_of(number)
    }

    open spec fn lookup_of(&self, number: Word256) -> Result<Hash256, Self::Error> {
        (**self).lookup_of(number)
    }

    fn block_hash(&self, number: Word256) -> (r: Result<Hash256, Self::Error>) {
        T::block_hash(&**self, number)
    }
}

impl<T: BlockHashRef> BlockHashRef for Arc<T> {
    type Error = <T as BlockHashRef>::Error;

    open spec fn hash_of(&self, number: Word256) -> Option<Hash256> {
        (**self).hash_of(number)
    }

    open spec fn lookup_of(&self, number: Word256) -> Result<Hash256, Self::Error> {
        (**self).lookup_of(number)
    }

    fn block_hash(&self, number: Word256) -> (r: Result<Hash256, Self::Error>) {
        T::block_hash(&**self, number)
    }
}

impl<T: BlockHash> BlockHash for &mut T {
    type Error = <T as BlockHash>::Error;

    open spec fn hash_of(&self, number: Word256) -> Option<Hash256> {
        (**self).hash_of(number)
    }

    open spec fn lookup_of(&self, number: Word256) -> Result<Hash256, Self::Error> {
        (**self).lookup_of(number)
    }

    fn block_hash(&mut self, number: Word256) -> (r: Result<Hash256, Self::Error>) {
        T::block_hash(*self, number)
    }
}

impl<T: BlockHash> BlockHash for Box<T> {
    type Error = <T as BlockHash>::Error;

    open spec fn hash_of(&self, number: Word256) -> Option<Hash256> {
        (**self).hash_of(number)
    }

    open spec fn lookup_of(&self, number: Word256) -> Result<Hash256, Self::Error> {
        (**self).lookup_of(number)
    }

    fn block_hash(&mut self, number: Word256) -> (r: Result<Hash256, Self::Error>) {
        T::block_hash(&mut **self, number)
    }
}

impl<T: BlockHashRef> BlockHash for &T {
    type Error = <T as BlockHashRef>::Error;

    open spec fn hash_of(&self, number: Word256) -> Option<Hash256> {
        (**self).hash_of(number)
    }

    open spec fn lookup_of(&self, number: Word256) -> Result<Hash256, Self::Error> {
        (**self).lookup_of(number)
    }

    fn block_hash(&mut self, number: Word256) -> (r: Result<Hash256, Self::Error>) {
        BlockHashRef::block_hash(*self, number)
    }
}

impl<T: BlockHashRef> BlockHash for Arc<T> {
    type Error = <T as BlockHashRef>::Error;

    open spec fn hash_of(&self, number: Word256) -> Option<Hash256> {
        (**self).hash_of(number)
    }

    open spec fn lookup_of(&self, number: Word256) -> Result<Hash256, Self::Error> {
        (**self).lookup_of(number)
    }

    fn block_hash(&mut self, number: Word256) -> (r: Result<Hash256, Self::Error>) {
        T::block_hash(&**self, number)
    }
}

/// Delegation equivalence for a shared reference: used through the
/// mutable-access contract, `&T` models exactly the wrapped shared-access
/// provider, so every call on the adapter is pinned to the same outcome
/// as the direct call on the provider.
pub proof fn lemma_ref_delegates_block_hash<T: BlockHashRef>(p: &T, number: Word256)
    ensures
        <&T as BlockHash>::lookup_of(&p, number) == (*p).lookup_of(number),
        <&T as BlockHash>::hash_of(&p, number) == (*p).hash_of(number),
{
}

/// Delegation equivalence for a shared-ownership handle: used through the
/// mutable-access contract, `Arc<T>` models exactly the wrapped
/// shared-access provider, so every call on the adapter is pinned to the
/// same outcome as the direct call on the provider.
pub proof fn lemma_arc_delegates_block_hash<T: BlockHashRef>(p: &Arc<T>, number: Word256)
    ensures
        <Arc<T> as BlockHash>::lookup_of(p, number) == (**p).lookup_of(number),
        <Arc<T> as BlockHash>::hash_of(p, number) == (**p).hash_of(number),
{
}

/// Delegation equivalence for a unique-ownership box: under the
/// shared-access contract, `Box<T>` models exactly the wrapped provider,
/// so every call on the box is pinned to the same outcome as the direct
/// call on the provider.
pub proof fn lemma_box_delegates_block_hash<T: BlockHashRef>(p: &Box<T>, number: Word256)
    ensures
        <Box<T> as BlockHashRef>::lookup_of(p, number) == (**p).lookup_of(number),
        <Box<T> as BlockHashRef>::hash_of(p, number) == (**p).hash_of(number),
{
}

/// Determinism: for a fixed provider state, any two results that the
/// shared-access contract admits for the same block number are the same
/// result.
pub proof fn lemma_block_hash_deterministic<T: BlockHashRef>(
    p: &T,
    number: Word256,
    r1: Result<Hash256, <T as BlockHashRef>::Error>,
    r2: Result<Hash256, <T as BlockHashRef>::Error>,
)
    requires
        r1 == p.lookup_of(number),
        r2 == p.lookup_of(number),
    ensures
        r1 == r2,
{
}

} // verus!
