//! Cached authentications: records of earlier successful authentications,
//! each for one user, terminal and service, valid until its expiry time.

use vstd::prelude::*;

use crate::bytes::{bytes_equal, bytes_to_vec};
use crate::clock::{read_clock, ClockReading};

verus! {

/// The abstract value of one cache record.
pub ghost struct AuthCacheView {
    pub uid: u32,
    pub tty: Seq<u8>,
    pub service: Seq<u8>,
    pub expires_at: i64,
}

/// One cached authentication. `expires_at` is in seconds since the Unix epoch.
pub struct AuthCache {
    pub uid: u32,
    pub tty: Vec<u8>,
    pub service: Vec<u8>,
    pub expires_at: i64,
}

impl View for AuthCache {
    type V = AuthCacheView;

    open spec fn view(&self) -> AuthCacheView {
        AuthCacheView {
            uid: self.uid,
            tty: self.tty@,
            service: self.service@,
            expires_at: self.expires_at,
        }
    }
}

impl Clone for AuthCache {
    fn clone(&self) -> (c: Self)
        ensures
            c@ == self@,
    {
        AuthCache {
            uid: self.uid,
            tty: bytes_to_vec(self.tty.as_slice()),
            service: bytes_to_vec(self.service.as_slice()),
            expires_at: self.expires_at,
        }
    }
}

/// Whether `item` is unexpired at `now` and belongs to the user, terminal and
/// service of `query` (the expiry of `query` plays no part).
pub open spec fn cache_valid_for(item: AuthCacheView, query: AuthCacheView, now: int) -> bool {
    &&& item.expires_at > now
    &&& item.uid == query.uid
    &&& item.tty == query.tty
    &&& item.service == query.service
}

/// Whether some record of `caches` is valid for `query` at `now`.
pub open spec fn has_valid_cache(caches: Seq<AuthCacheView>, query: AuthCacheView, now: int) -> bool {
    exists|i: int| 0 <= i < caches.len() && #[trigger] cache_valid_for(caches[i], query, now)
}

/// Whether `i` is the position of the first record valid for `query` at `now`.
pub open spec fn is_first_valid(caches: Seq<AuthCacheView>, query: AuthCacheView, now: int, i: int) -> bool {
    &&& 0 <= i < caches.len()
    &&& cache_valid_for(caches[i], query, now)
    &&& forall|j: int| 0 <= j < i ==> !#[trigger] cache_valid_for(caches[j], query, now)
}

/// The first record valid for `query` at `now`, if any.
pub open spec fn first_valid(caches: Seq<AuthCacheView>, query: AuthCacheView, now: int) -> Option<AuthCacheView>
    decreases caches.len(),
{
    if caches.len() == 0 {
        None
    } else {
        match first_valid(caches.drop_last(), query, now) {
            Some(c) => Some(c),
            None => if cache_valid_for(caches.last(), query, now) {
                Some(caches.last())
            } else {
                None
            },
        }
    }
}

proof fn lemma_first_valid_none(caches: Seq<AuthCacheView>, query: AuthCacheView, now: int)
    requires
        !has_valid_cache(caches, query, now),
    ensures
        first_valid(caches, query, now) is None,
    decreases caches.len(),
{
    if caches.len() > 0 {
        let prefix = caches.drop_last();
        assert forall|j: int| 0 <= j < prefix.len() implies !#[trigger] cache_valid_for(prefix[j], query, now) by {
            assert(prefix[j] == caches[j]);
        }
        lemma_first_valid_none(prefix, query, now);
        assert(!cache_valid_for(caches[caches.len() - 1], query, now));
    }
}

proof fn lemma_first_valid_index(caches: Seq<AuthCacheView>, query: AuthCacheView, now: int, i: int)
    requires
        is_first_valid(caches, query, now, i),
    ensures
        first_valid(caches, query, now) == Some(caches[i]),
    decreases caches.len(),
{
    let prefix = caches.drop_last();
    if i == caches.len() - 1 {
        assert forall|j: int| 0 <= j < prefix.len() implies !#[trigger] cache_valid_for(prefix[j], query, now) by {
            assert(prefix[j] == caches[j]);
            assert(!cache_valid_for(caches[j], query, now));
        }
        lemma_first_valid_none(prefix, query, now);
    } else {
        assert forall|j: int| 0 <= j < i implies !#[trigger] cache_valid_for(prefix[j], query, now) by {
            assert(prefix[j] == caches[j]);
            assert(!cache_valid_for(caches[j], query, now));
        }
        assert(prefix[i] == caches[i]);
        lemma_first_valid_index(prefix, query, now, i);
    }
}

proof fn lemma_first_valid_is_valid(caches: Seq<AuthCacheView>, query: AuthCacheView, now: int)
    ensures
        first_valid(caches, query, now) matches Some(c) ==> cache_valid_for(c, query, now) && caches.contains(c),
    decreases caches.len(),
{
    if caches.len() > 0 {
        let prefix = caches.drop_last();
        lemma_first_valid_is_valid(prefix, query, now);
        if first_valid(prefix, query, now) is Some {
            let c = first_valid(prefix, query, now).unwrap();
            let j = choose|j: int| 0 <= j < prefix.len() && prefix[j] == c;
            assert(caches[j] == c);
        } else if cache_valid_for(caches.last(), query, now) {
            assert(caches[caches.len() - 1] == caches.last());
        }
    }
}

/// Whether a record is still unexpired at `now`.
pub open spec fn unexpired(item: AuthCacheView, now: int) -> bool {
    item.expires_at > now
}

/// The records that survive a purge at `now`, in their order.
pub open spec fn unexpired_at(caches: Seq<AuthCacheView>, now: int) -> Seq<AuthCacheView> {
    caches.filter(|c: AuthCacheView| unexpired(c, now))
}

/// Why a cache lookup failed.
#[derive(Debug, Clone, Copy, PartialEq, Eq, Structural)]
pub enum CacheError {
    /// The clock stands before the Unix epoch.
    ClockUnavailable,
    /// No unexpired record matches the request.
    NotFound,
}

/// The result of a lookup, taken by its view.
pub open spec fn cache_result_view(r: Result<AuthCache, CacheError>) -> Result<AuthCacheView, CacheError> {
    match r {
        Ok(c) => Ok(c@),
        Err(e) => Err(e),
    }
}

/// The seconds of a clock reading as the signed expiry times count them.
pub open spec fn signed_secs(t: u64) -> int {
    (t as i64) as int
}

/// What `verify_auth_cache` answers when the clock reads `now` (`None`: before the epoch).
pub open spec fn lookup_outcome(caches: Seq<AuthCacheView>, query: AuthCacheView, now: Option<u64>) -> Result<AuthCacheView, CacheError> {
    match now {
        None => Err(CacheError::ClockUnavailable),
        Some(t) => match first_valid(caches, query, signed_secs(t)) {
            Some(c) => Ok(c),
            None => Err(CacheError::NotFound),
        },
    }
}

/// What `remove_expired_caches` answers when the clock reads `now`.
pub open spec fn purge_outcome(now: Option<u64>) -> Result<(), CacheError> {
    match now {
        None => Err(CacheError::ClockUnavailable),
        Some(_) => Ok(()),
    }
}

/// The records after `remove_expired_caches` when the clock reads `now`.
pub open spec fn state_after_purge(caches: Seq<AuthCacheView>, now: Option<u64>) -> Seq<AuthCacheView> {
    match now {
        None => caches,
        Some(t) => unexpired_at(caches, signed_secs(t)),
    }
}

/// The list of cached authentications, oldest first.
pub struct AuthCaches {
    inner: Vec<AuthCache>,
}

impl View for AuthCaches {
    type V = Seq<AuthCacheView>;

    closed spec fn view(&self) -> Seq<AuthCacheView> {
        self.inner@.map_values(|c: AuthCache| c@)
    }
}

impl Default for AuthCaches {
    /// An empty cache list.
    fn default() -> (c: Self)
        ensures
            c@ == Seq::<AuthCacheView>::empty(),
    {
        let c = AuthCaches { inner: Vec::new() };
        assert(c@ =~= Seq::<AuthCacheView>::empty());
        c
    }
}

impl AuthCaches {
    /// Appends a record.
    pub fn put(&mut self, item: AuthCache)
        ensures
            final(self)@ == old(self)@.push(item@),
    {
        self.inner.push(item);
        assert(self@ =~= old(self)@.push(item@));
    }

    /// The first record that is valid for `query` at `now`, if any.
    pub fn verify_auth_cache_at(&self, query: &AuthCache, now: i64) -> (found: Option<AuthCache>)
        ensures
            found is None <==> !has_valid_cache(self@, query@, now as int),
            found matches Some(c) ==> exists|i: int| is_first_valid(self@, query@, now as int, i) && c@ == self@[i],
            match found {
                Some(c) => first_valid(self@, query@, now as int) == Some(c@),
                None => first_valid(self@, query@, now as int) is None,
            },
    {
        let n = self.inner.len();
        let mut i: usize = 0;
        while i < n
            invariant
                n == self@.len(),
                n == self.inner@.len(),
                i <= n,
                forall|j: int| 0 <= j < i ==> !#[trigger] cache_valid_for(self@[j], query@, now as int),
            decreases n - i,
        {
            let item = &self.inner[i];
            assert(self@[i as int] == item@);
            if item.expires_at > now && item.uid == query.uid
                && bytes_equal(item.tty.as_slice(), query.tty.as_slice())
                && bytes_equal(item.service.as_slice(), query.service.as_slice()) {
                assert(is_first_valid(self@, query@, now as int, i as int));
                proof {
                    lemma_first_valid_index(self@, query@, now as int, i as int);
                }
                return Some(item.clone());
            }
            i = i + 1;
        }
        proof {
            lemma_first_valid_none(self@, query@, now as int);
        }
        None
    }

    /// The first record valid for `query` at the current time, as
    /// `lookup_outcome` says for the reading of the clock.
    pub fn verify_auth_cache(&self, query: &AuthCache) -> (found: Result<AuthCache, CacheError>)
        ensures
            exists|reading: ClockReading| cache_result_view(found) == #[trigger] lookup_outcome(
                self@,
                query@,
                reading.secs(),
            ),
    {
        let reading = read_clock();
        let now = reading.seconds();
        let found = match now {
            None => Err(CacheError::ClockUnavailable),
            Some(t) => {
                let now_signed = t as i64;
                match self.verify_auth_cache_at(query, now_signed) {
                    Some(c) => Ok(c),
                    None => Err(CacheError::NotFound),
                }
            },
        };
        assert(cache_result_view(found) == lookup_outcome(self@, query@, now));
        found
    }

    /// The number of records held.
    pub fn inner_length(&self) -> (len: usize)
        ensures
            len == self@.len(),
    {
        self.inner.len()
    }

    /// Drops every record that has expired at `now`, keeping the others in order.
    pub fn remove_expired_caches_at(&mut self, now: i64)
        ensures
            final(self)@ == unexpired_at(old(self)@, now as int),
    {
        let ghost before = self@;
        let mut rest: Vec<AuthCache> = Vec::new();
        std::mem::swap(&mut rest, &mut self.inner);
        let ghost orig = rest@;
        assert(before =~= orig.map_values(|c: AuthCache| c@));
        let n = rest.len();
        let mut kept: Vec<AuthCache> = Vec::new();
        let mut i: usize = 0;
        while i < n
            invariant
                n == orig.len(),
                i <= n,
                rest@ == orig.subrange(i as int, n as int),
                before == orig.map_values(|c: AuthCache| c@),
                kept@.map_values(|c: AuthCache| c@) == unexpired_at(before.take(i as int), now as int),
            decreases n - i,
        {
            let item = rest.remove(0);
            assert(item == orig[i as int]);
            proof {
                reveal_with_fuel(Seq::filter, 1);
                assert(before.take(i + 1).drop_last() =~= before.take(i as int));
                assert(before.take(i + 1).last() == item@);
            }
            if item.expires_at > now {
                let ghost kept_before = kept@;
                kept.push(item);
                assert(kept@.map_values(|c: AuthCache| c@) =~= kept_before.map_values(|c: AuthCache| c@).push(orig[i as int]@));
            }
            assert(rest@ =~= orig.subrange(i + 1, n as int));
            i = i + 1;
        }
        assert(before.take(n as int) =~= before);
        self.inner = kept;
    }

    /// Drops every record that has expired at the current time; with the
    /// clock before the epoch the list is left as it was.
    pub fn remove_expired_caches(&mut self) -> (r: Result<(), CacheError>)
        ensures
            exists|reading: ClockReading|
                r == purge_outcome(reading.secs()) && final(self)@ == #[trigger] state_after_purge(
                    old(self)@,
                    reading.secs(),
                ),
    {
        let reading = read_clock();
        let now = reading.seconds();
        let r = match now {
            None => Err(CacheError::ClockUnavailable),
            Some(t) => {
                let now_signed = t as i64;
                self.remove_expired_caches_at(now_signed);
                Ok(())
            },
        };
        assert(final(self)@ == state_after_purge(old(self)@, now));
        r
    }
}

/// A record put into the list is found by a lookup for its own user, terminal
/// and service at any time before it expires.
pub proof fn law_put_then_found(caches: Seq<AuthCacheView>, item: AuthCacheView, now: int)
    requires
        item.expires_at > now,
    ensures
        has_valid_cache(caches.push(item), item, now),
        first_valid(caches.push(item), item, now) is Some,
{
    let s = caches.push(item);
    assert(cache_valid_for(s[s.len() - 1], item, now));
    assert(s.drop_last() =~= caches);
}

/// Purging the expired records at `now` changes no lookup made at `now`:
/// the first valid record is the same before and after.
pub proof fn law_purge_keeps_lookups(caches: Seq<AuthCacheView>, query: AuthCacheView, now: int)
    ensures
        first_valid(unexpired_at(caches, now), query, now) == first_valid(caches, query, now),
    decreases caches.len(),
{
    reveal_with_fuel(Seq::filter, 1);
    if caches.len() > 0 {
        let prefix = caches.drop_last();
        law_purge_keeps_lookups(prefix, query, now);
        let kept = unexpired_at(prefix, now);
        if unexpired(caches.last(), now) {
            assert(unexpired_at(caches, now) =~= kept.push(caches.last()));
            assert(kept.push(caches.last()).drop_last() =~= kept);
        } else {
            assert(unexpired_at(caches, now) =~= kept);
        }
    } else {
        assert(unexpired_at(caches, now) =~= caches);
    }
}

/// Purging the expired records at `now` changes no lookup made at any later
/// time either: a record expired at `now` is expired then too.
pub proof fn law_purge_keeps_later_lookups(caches: Seq<AuthCacheView>, query: AuthCacheView, now: int, later: int)
    requires
        now <= later,
    ensures
        first_valid(unexpired_at(caches, now), query, later) == first_valid(caches, query, later),
    decreases caches.len(),
{
    reveal_with_fuel(Seq::filter, 1);
    if caches.len() > 0 {
        let prefix = caches.drop_last();
        law_purge_keeps_later_lookups(prefix, query, now, later);
        let kept = unexpired_at(prefix, now);
        if unexpired(caches.last(), now) {
            assert(unexpired_at(caches, now) =~= kept.push(caches.last()));
            assert(kept.push(caches.last()).drop_last() =~= kept);
        } else {
            assert(unexpired_at(caches, now) =~= kept);
            assert(!cache_valid_for(caches.last(), query, later));
        }
    } else {
        assert(unexpired_at(caches, now) =~= caches);
    }
}

/// After a purge at `now` every remaining record is unexpired at `now`, and
/// the list has not grown.
pub proof fn law_purge_leaves_only_unexpired(caches: Seq<AuthCacheView>, now: int)
    ensures
        forall|i: int| 0 <= i < unexpired_at(caches, now).len() ==> #[trigger] unexpired_at(caches, now)[i].expires_at > now,
        unexpired_at(caches, now).len() <= caches.len(),
{
    let pred = |c: AuthCacheView| unexpired(c, now);
    assert forall|i: int| 0 <= i < unexpired_at(caches, now).len() implies #[trigger] unexpired_at(caches, now)[i].expires_at > now by {
        caches.lemma_filter_pred(pred, i);
    }
    caches.lemma_filter_len(pred);
}

/// A lookup at a clock reading hands out only a record that is held in the
/// list, belongs to the query's user, terminal and service, and has not
/// expired at that reading.
pub proof fn law_lookup_returns_only_unexpired(caches: Seq<AuthCacheView>, query: AuthCacheView, reading: ClockReading)
    ensures
        lookup_outcome(caches, query, reading.secs()) matches Ok(c) ==> {
            &&& reading.secs() matches Some(t) && c.expires_at > signed_secs(t)
            &&& c.uid == query.uid && c.tty == query.tty && c.service == query.service
            &&& caches.contains(c)
        },
{
    if let Some(t) = reading.secs() {
        lemma_first_valid_is_valid(caches, query, signed_secs(t));
    }
}

/// When every record of the query's user, terminal and service has expired at
/// the reading, the lookup answers `NotFound`.
pub proof fn law_expired_records_not_found(caches: Seq<AuthCacheView>, query: AuthCacheView, reading: ClockReading, t: u64)
    requires
        reading.secs() == Some(t),
        forall|i: int|
            0 <= i < caches.len() && (#[trigger] caches[i]).uid == query.uid && caches[i].tty == query.tty
                && caches[i].service == query.service ==> caches[i].expires_at <= signed_secs(t),
    ensures
        lookup_outcome(caches, query, reading.secs()) == Err::<AuthCacheView, CacheError>(CacheError::NotFound),
{
    lemma_first_valid_is_valid(caches, query, signed_secs(t));
    assert(!has_valid_cache(caches, query, signed_secs(t)));
    lemma_first_valid_none(caches, query, signed_secs(t));
}

} // verus!
