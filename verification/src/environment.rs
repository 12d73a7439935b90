//! What a provider is bound to: the cache that holds its slot.

pub mod storage;
pub mod types;

use vstd::prelude::*;
use crate::environment::storage::Storage;

verus! {

/// The cache, behind scoped access: a reader gets the storage for the time
/// of one call, a writer gets it alone for the time of one call.
///
/// Exclusive access is the exclusive borrow of the cache itself, so no
/// reader runs while a writer does and no state between two writes is seen.
#[derive(Debug)]
pub struct SharedCache {
    storage: Storage,
}

impl View for SharedCache {
    type V = Storage;

    closed spec fn view(&self) -> Storage {
        self.storage
    }
}

impl SharedCache {
    /// A cache that holds `storage`.
    pub fn new(storage: Storage) -> (cache: Self)
        ensures
            cache@ == storage,
    {
        SharedCache { storage }
    }

    /// Runs `read` on the storage and returns what it returns.
    pub fn with<R, F: FnOnce(&Storage) -> R>(&self, read: F) -> (result: R)
        requires
            read.requires((&self@,)),
        ensures
            read.ensures((&self@,), result),
    {
        read(&self.storage)
    }

    /// Runs `write` on the storage, alone, and returns what it returns. The
    /// cache then holds the storage as `write` left it.
    pub fn with_mutation<R, F: FnOnce(&mut Storage) -> R>(&mut self, write: F) -> (result: R)
        requires
            forall|storage: &mut Storage| *storage == old(self)@ ==> write.requires((storage,)),
        ensures
            exists|storage: &mut Storage|
                *storage == old(self)@ && *final(storage) == final(self)@ && write.ensures(
                    (storage,),
                    result,
                ),
    {
        write(&mut self.storage)
    }
}

/// What is handed to a provider when it is made.
#[derive(Debug)]
pub struct Environment {
    pub storage: SharedCache,
}

} // verus!
