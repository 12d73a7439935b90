//! The public timeline behind a reader-writer lock.

use vstd::prelude::*;
use vstd::rwlock::RwLock;
use crate::environment::types::TimelineDirection;
use crate::providers::public::PublicTimelineProvider;
use crate::providers::TimelineProvider;
use crate::status::Status;
use crate::timeline::model::distinct_ids;

verus! {

/// A public timeline that several threads may read and drive.
///
/// Access is scoped: a call holds the lock while its closure runs and gives
/// it back when the closure returns, readers together with other readers, a
/// writer alone. A reader is therefore handed the provider as some writer
/// left it, never a slot half merged, and the lock admits no provider whose
/// slot holds an identifier twice. What the closure finds depends on the
/// calls of other threads; what it does with what it finds is its own
/// contract, and that is what a call promises.
pub struct SharedPublicTimeline {
    lock: RwLock<PublicTimelineProvider, spec_fn(PublicTimelineProvider) -> bool>,
}

impl SharedPublicTimeline {
    /// Whether the lock may hold `provider`: the rule that it was made with,
    /// which every reader may count on and every writer has to keep.
    pub closed spec fn admits(&self, provider: PublicTimelineProvider) -> bool {
        self.lock.inv(provider)
    }

    /// Puts a provider behind a lock that admits the providers whose slot
    /// holds no identifier twice, and no others. The provider given is one
    /// of them, as every provider is that a program holds.
    pub fn new(provider: PublicTimelineProvider) -> (shared: Self)
        ensures
            forall|held: PublicTimelineProvider|
                #[trigger] shared.admits(held) <==> distinct_ids(held@),
            shared.admits(provider),
    {
        let mut provider = provider;
        let nothing: Vec<Status> = Vec::new();
        // an empty incremental load leaves the slot as it is
        provider.process_new_data(nothing.as_slice(), TimelineDirection::NewestTop, false);
        SharedPublicTimeline {
            lock: RwLock::new(provider, Ghost(|held: PublicTimelineProvider| distinct_ids(held@))),
        }
    }

    /// Runs `read` on the provider while no writer runs, and returns what it
    /// returns. What `read` is handed is a provider that the lock admits.
    pub fn with<R, F: FnOnce(&PublicTimelineProvider) -> R>(&self, read: F) -> (result: R)
        requires
            forall|provider: &PublicTimelineProvider|
                self.admits(*provider) ==> read.requires((provider,)),
        ensures
            exists|provider: &PublicTimelineProvider|
                self.admits(*provider) && read.ensures((provider,), result),
    {
        let handle = self.lock.acquire_read();
        let provider = handle.borrow();
        assert(self.admits(*provider));
        let result = read(provider);
        handle.release_read();
        result
    }

    /// Runs `write` on the provider while nothing else runs on it, and
    /// returns what it returns. What `write` is handed is a provider that
    /// the lock admits, and it has to leave one; the lock then holds the
    /// provider as `write` left it.
    pub fn with_mutation<R, F: FnOnce(&mut PublicTimelineProvider) -> R>(
        &self,
        write: F,
    ) -> (result: R)
        requires
            forall|provider: &mut PublicTimelineProvider|
                self.admits(*provider) ==> write.requires((provider,)),
            forall|provider: &mut PublicTimelineProvider, result: R|
                self.admits(*provider) && write.ensures((provider,), result) ==> self.admits(
                    *final(provider),
                ),
        ensures
            exists|provider: &mut PublicTimelineProvider|
                self.admits(*provider) && self.admits(*final(provider)) && write.ensures(
                    (provider,),
                    result,
                ),
    {
        let (mut provider, handle) = self.lock.acquire_write();
        let result = write(&mut provider);
        handle.release_write(provider);
        result
    }
}

} // verus!
