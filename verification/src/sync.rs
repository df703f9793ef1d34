//! Single-writer mirrored-value cell.
//!
//! A value is shared between two sides (for instance simulation and render
//! thread).  Each side holds a [`Mirror`] handle with a local cached copy and
//! the version it last observed; the canonical value, the latest version
//! counter and the busy flag that gates access to the canonical value live
//! together in a [`MirrorStore`].  In the running program the store is the
//! jointly owned state behind the handles; here it is passed to every
//! operation explicitly, so that what each operation does to it can be
//! stated and proved.
//!
//! The busy flag models the short exclusive window in which one side copies
//! the canonical value.  Blocking operations (`publish`, `sync`) require the
//! flag to be free, which is what their spin loop waits for in the running
//! program; `sync_noblock` and `sync_timeout` instead say exactly what they
//! return when the flag is held.

use vstd::prelude::*;

verus! {

use crate::clock::wait_past_deadline;

#[derive(Clone, Copy, PartialEq, Eq, Structural, Debug)]
pub enum SyncError {
    TimeoutExceeded { exceed_time_ns: u128 },
    Locked,
}

pub type SyncResult = Result<(), SyncError>;

/// The canonical storage shared by every [`Mirror`] handle of one cell: the
/// last fully published value, the version counter it was published under,
/// and the busy flag that gates exclusive access to the value.
#[derive(Clone, Copy, Debug)]
pub struct MirrorStore<T: Copy> {
    pub value: T,
    pub latest: u64,
    pub busy: bool,
}

/// One side's handle on a mirrored value: a local cached copy and the
/// version this side last observed.
#[derive(Clone, Copy, Debug)]
pub struct Mirror<T: Copy> {
    local: T,
    version: u64,
}

/// A handle is well formed against its store when it has not observed a
/// version from the future, and when an up-to-date handle caches exactly
/// the canonical value.
pub open spec fn mirror_wf<T: Copy>(handle: Mirror<T>, store: MirrorStore<T>) -> bool {
    &&& handle.spec_version() <= store.latest
    &&& handle.spec_version() == store.latest ==> handle.spec_local() == store.value
}

/// The store after a value is published: the canonical value is replaced
/// and the version counter moves up by one.
pub open spec fn spec_publish<T: Copy>(store: MirrorStore<T>, value: T) -> MirrorStore<T> {
    MirrorStore { value, latest: (store.latest + 1) as u64, busy: store.busy }
}

/// A handle after it has fully synchronised against `store`: it caches the
/// canonical value and has observed the latest version (the two equalities
/// are stated by [`lemma_get_after_sync_is_current`]).
pub closed spec fn spec_synced<T: Copy>(store: MirrorStore<T>) -> Mirror<T> {
    Mirror { local: store.value, version: store.latest }
}

/// The store after each value of `values` is published in turn.
pub open spec fn spec_publish_all<T: Copy>(store: MirrorStore<T>, values: Seq<T>) -> MirrorStore<T>
    decreases values.len(),
{
    if values.len() == 0 {
        store
    } else {
        spec_publish_all(spec_publish(store, values[0]), values.drop_first())
    }
}

impl<T: Copy> Mirror<T> {
    /// The value this handle last cached.
    pub closed spec fn spec_local(&self) -> T {
        self.local
    }

    /// The version this handle last observed.
    pub closed spec fn spec_version(&self) -> u64 {
        self.version
    }

    /// Creates a fresh cell: one handle and the store it shares with every
    /// handle cloned from it.
    pub fn new(value: T) -> (r: (Mirror<T>, MirrorStore<T>))
        ensures
            r.0.spec_local() == value,
            r.0.spec_version() == 0,
            r.1 == (MirrorStore { value, latest: 0u64, busy: false }),
            mirror_wf(r.0, r.1),
    {
        let handle = Mirror { local: value, version: 0 };
        let store = MirrorStore { value, latest: 0, busy: false };
        (handle, store)
    }

    /// Publishes a new value: overwrites the canonical storage, moves the
    /// version counter up, and updates this handle's own cache, which
    /// therefore never needs to synchronise against its own writes.  Every
    /// other handle of the cell is stale afterwards.
    ///
    /// In the running program this operation spins until the busy flag is
    /// free; that is the `!old(store).busy` requirement here.  It never
    /// fails.
    pub fn publish(&mut self, store: &mut MirrorStore<T>, value: T)
        requires
            !old(store).busy,
            old(store).latest < u64::MAX,
        ensures
            *final(store) == spec_publish(*old(store), value),
            *final(self) == spec_synced(*final(store)),
            final(self).spec_local() == value,
            final(self).spec_version() == final(store).latest,
            !final(store).busy,
    {
        store.value = value;
        store.latest = store.latest + 1;
        self.version = store.latest;
        self.local = value;
    }

    /// True exactly when this handle has observed the latest version.
    pub fn check_sync_status(&self, store: &MirrorStore<T>) -> (r: bool)
        ensures
            r == (self.spec_version() == store.latest),
    {
        self.version == store.latest
    }

    /// Synchronises the local cache with the canonical value.  In the
    /// running program this spins while the busy flag is held; that wait is
    /// the `!store.busy` requirement here.  Cannot fail.
    pub fn sync(&mut self, store: &MirrorStore<T>) -> (r: SyncResult)
        requires
            mirror_wf(*old(self), *store),
            !store.busy,
        ensures
            r == Ok::<(), SyncError>(()),
            *final(self) == spec_synced(*store),
            final(self).spec_local() == store.value,
            final(self).spec_version() == store.latest,
    {
        if self.version < store.latest {
            self.local = store.value;
            self.version = store.latest;
        }
        Ok(())
    }

    /// Synchronises like [`sync`](Mirror::sync), but never waits: if the
    /// busy flag is held while this handle is stale, it reports `Locked` at
    /// once and leaves the local cache untouched — it never hands back a
    /// partially written value.
    pub fn sync_noblock(&mut self, store: &MirrorStore<T>) -> (r: SyncResult)
        requires
            mirror_wf(*old(self), *store),
        ensures
            old(self).spec_version() == store.latest ==> r == Ok::<(), SyncError>(())
                && *final(self) == *old(self),
            old(self).spec_version() < store.latest && store.busy ==> r == Err::<(), SyncError>(
                SyncError::Locked,
            ) && *final(self) == *old(self),
            old(self).spec_version() < store.latest && !store.busy ==> r == Ok::<(), SyncError>(())
                && *final(self) == spec_synced(*store),
            r == Ok::<(), SyncError>(()) ==> final(self).spec_local() == store.value
                && final(self).spec_version() == store.latest,
    {
        if self.version < store.latest {
            if store.busy {
                return Err(SyncError::Locked);
            }
            self.local = store.value;
            self.version = store.latest;
        }
        Ok(())
    }

    /// Synchronises like [`sync`](Mirror::sync), but bounds the wait by a
    /// wall-clock deadline: if the busy flag is still held when `timeout_ns`
    /// nanoseconds have passed, it reports how long it waited and leaves the
    /// local cache untouched.
    pub fn sync_timeout(&mut self, store: &MirrorStore<T>, timeout_ns: u64) -> (r: SyncResult)
        requires
            mirror_wf(*old(self), *store),
        ensures
            old(self).spec_version() == store.latest ==> r == Ok::<(), SyncError>(())
                && *final(self) == *old(self),
            old(self).spec_version() < store.latest && !store.busy ==> r == Ok::<(), SyncError>(())
                && *final(self) == spec_synced(*store),
            old(self).spec_version() < store.latest && store.busy ==> *final(self) == *old(self)
                && (r matches Err(SyncError::TimeoutExceeded { exceed_time_ns })
                    && exceed_time_ns > timeout_ns),
            r == Ok::<(), SyncError>(()) ==> final(self).spec_local() == store.value
                && final(self).spec_version() == store.latest,
    {
        let start = std::time::Instant::now();
        if self.version < store.latest {
            if store.busy {
                let waited = wait_past_deadline(&start, timeout_ns);
                return Err(SyncError::TimeoutExceeded { exceed_time_ns: waited as u128 });
            }
            self.local = store.value;
            self.version = store.latest;
        }
        Ok(())
    }

    /// The local cached value, without synchronising; it may be stale.
    pub fn get(&self) -> (r: &T)
        ensures
            *r == self.spec_local(),
    {
        &self.local
    }
}

/// Law: whatever sequence of values is published, a reader that fully
/// synchronises after the last publish caches exactly the last published
/// value — never an intermediate one — and has observed its version.
pub proof fn lemma_reader_sees_last_publish<T: Copy>(store: MirrorStore<T>, values: Seq<T>)
    requires
        values.len() > 0,
    ensures
        spec_synced(spec_publish_all(store, values)).spec_local() == values.last(),
        spec_synced(spec_publish_all(store, values)).spec_version() == spec_publish_all(
            store,
            values,
        ).latest,
    decreases values.len(),
{
    if values.len() == 1 {
        let published = spec_publish(store, values[0]);
        assert(spec_publish_all(store, values) == spec_publish_all(
            published,
            values.drop_first(),
        ));
        assert(spec_publish_all(published, values.drop_first()) == published);
    } else {
        lemma_reader_sees_last_publish(spec_publish(store, values[0]), values.drop_first());
        assert(values.drop_first().last() == values.last());
    }
}

/// Law: immediately after a handle synchronises, reading it gives a value
/// whose version is the latest version of the store at the time of that
/// synchronisation.
pub proof fn lemma_get_after_sync_is_current<T: Copy>(store: MirrorStore<T>)
    ensures
        spec_synced(store).spec_version() == store.latest,
        spec_synced(store).spec_local() == store.value,
        mirror_wf(spec_synced(store), store),
{
}

} // verus!
