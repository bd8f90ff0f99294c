//! The shared URL cache: a replaceable list of candidate URLs guarded
//! by a reader/writer lock, written only by the refresher task and read
//! only by the display task.
//!
//! Two threads mutate and read the lock-guarded list through `&self`,
//! so no contract can pin down which list a particular read observes.
//! The replacement discipline itself — the cache only ever holds a whole
//! list published by a single refresh, never a mix of two — is stated
//! and proved on the sequential model `CacheModel` below.

use vstd::prelude::*;

use crate::Config;

verus! {

#[verifier::external_type_specification]
#[verifier::external_body]
#[verifier::reject_recursive_types(R)]
#[verifier::reject_recursive_types(T)]
pub struct ExRwLock<R, T: ?Sized>(parking_lot::lock_api::RwLock<R, T>);

#[verifier::external_type_specification]
#[verifier::external_body]
pub struct ExRawRwLock(parking_lot::RawRwLock);

/// The lock-guarded URL list both long-lived tasks share.
pub struct SharedUrlCache {
    inner: parking_lot::RwLock<Vec<String>>,
}

impl SharedUrlCache {
    /// Relies on `parking_lot::RwLock::new`: the cache starts with an
    /// empty list.
    #[verifier::external_body]
    pub(crate) fn new() -> (c: SharedUrlCache) {
        SharedUrlCache { inner: parking_lot::RwLock::new(Vec::new()) }
    }

    /// Relies on `parking_lot::RwLock::write`: replaces the list
    /// wholesale under exclusive access, so no reader ever observes a
    /// partially updated list.
    #[verifier::external_body]
    pub(crate) fn replace(&self, urls: Vec<String>) {
        *self.inner.write() = urls;
    }

    /// Relies on `parking_lot::RwLock::read`: clones the current list
    /// under shared access and releases the lock before returning, so
    /// the lock is never held across a slow operation.
    #[verifier::external_body]
    pub(crate) fn snapshot(&self) -> (r: Vec<String>) {
        self.inner.read().clone()
    }
}

/// The shared state of the two long-lived tasks: the configuration and
/// the URL cache. The binary wraps one value of this type in an `Arc`
/// and hands a clone of the `Arc` to the refresher thread.
pub struct State {
    /// Immutable for the process lifetime.
    pub config: Config,
    picture_urls: SharedUrlCache,
}

impl State {
    /// The configuration the state was created with.
    pub closed spec fn config_spec(self) -> Config {
        self.config
    }

    /// A fresh state: the given configuration and an empty cache.
    pub fn new(config: Config) -> (s: State)
        ensures
            s.config_spec().wallpaper_interval == config.wallpaper_interval,
            s.config_spec().screen_resolution == config.screen_resolution,
    {
        State { config, picture_urls: SharedUrlCache::new() }
    }

    /// Publish a whole URL list into the shared cache. Nothing can be
    /// promised of later reads: the list stays only until the next
    /// publication.
    pub fn set_urls(&self, urls: Vec<String>) {
        self.picture_urls.replace(urls);
    }

    /// A snapshot of the current list: whatever whole list was published
    /// most recently before the read, or the initial empty list.
    pub fn current_urls(&self) -> (r: Vec<String>) {
        self.picture_urls.snapshot()
    }
}

/// Sequential model of the cache's replacement discipline, carrying the
/// ghost history of every published list.
pub struct CacheModel {
    urls: Vec<String>,
    history: Ghost<Seq<Seq<Seq<char>>>>,
}

impl CacheModel {
    /// The list currently held.
    pub closed spec fn contents(self) -> Seq<Seq<char>> {
        self.urls.deep_view()
    }

    /// Every list ever published, in order.
    pub closed spec fn history(self) -> Seq<Seq<Seq<char>>> {
        self.history@
    }

    /// The cache holds the empty initial list until the first
    /// publication, and afterwards exactly the last published list.
    pub open spec fn wf(self) -> bool {
        if self.history().len() == 0 {
            self.contents() == Seq::<Seq<char>>::empty()
        } else {
            self.contents() == self.history().last()
        }
    }

    pub fn new() -> (c: CacheModel)
        ensures
            c.wf(),
            c.history().len() == 0,
            c.contents() == Seq::<Seq<char>>::empty(),
    {
        let c = CacheModel { urls: Vec::new(), history: Ghost(Seq::empty()) };
        proof {
            assert(c.contents() =~= Seq::<Seq<char>>::empty());
        }
        c
    }

    /// Replace the held list wholesale with a newly published one.
    pub fn publish(&mut self, urls: Vec<String>)
        ensures
            final(self).wf(),
            final(self).history() == old(self).history().push(urls.deep_view()),
            final(self).contents() == urls.deep_view(),
    {
        let ghost h = self.history@;
        self.urls = urls;
        proof {
            self.history@ = h.push(self.urls.deep_view());
        }
    }

    /// Clone the held list: an immutable snapshot taken, in the real
    /// cache, while holding the read lock.
    pub fn snapshot(&self) -> (r: Vec<String>)
        ensures
            r.deep_view() == self.contents(),
    {
        let mut r: Vec<String> = Vec::new();
        let mut i: usize = 0;
        while i < self.urls.len()
            invariant
                0 <= i <= self.urls.len(),
                r@.len() == i,
                forall|k: int| 0 <= k < i ==> r@[k] == self.urls@[k],
            decreases self.urls.len() - i,
        {
            r.push(self.urls[i].clone());
            i = i + 1;
        }
        proof {
            assert(r.deep_view() =~= self.urls.deep_view());
        }
        r
    }
}

/// Law: a well-formed cache holds either the initial empty list or
/// exactly one fully formed list published by a single refresh — never a
/// mix of entries from two publications.
pub proof fn lemma_cache_whole_replacement(m: CacheModel)
    requires
        m.wf(),
    ensures
        m.contents() == Seq::<Seq<char>>::empty() || (m.history().len() > 0 && m.contents()
            == m.history().last()),
{
}

} // verus!
