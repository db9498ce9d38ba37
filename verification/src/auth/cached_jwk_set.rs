//! A provider that keeps the key set of its issuer in a single-slot cache
//! with a lifetime.
//!
//! Time is what the caller reads from its clock, as a count of some unit
//! such as seconds; lifetimes are counts of the same unit. No sum of a time
//! and a lifetime is computed, so none can overflow.
//!
//! The provider never reads a clock and never fetches: the caller asks
//! whether a refresh is due, fetches, and hands the outcome in. The caller
//! keeps the provider behind one lock and holds it from the question to the
//! answer, so that callers which arrive during a refresh wait for it and
//! find the cache filled.

use crate::auth::{jwks_endpoint, jwks_url, AuthError, Validation};
use crate::config::{
    lemma_missing_fields_empty, missing_fields, note_missing, BuildError, RequiredField,
};
use vstd::prelude::*;

verus! {

/// A cache with one slot.
pub struct SingleCache<T>(Option<Cached<T>>);

/// What a cache slot holds: a value with the time it was stored at and the
/// time it lives for.
pub struct Cached<T> {
    pub value: T,
    /// The time at which the value was stored.
    pub stored_at: u64,
    /// How long the value lives.
    pub lifetime: u64,
}

impl<T> Cached<T> {
    /// The instant from which on the value is expired.
    pub open spec fn expiry(self) -> int {
        self.stored_at + self.lifetime
    }

    /// Whether the value is expired at `now`.
    pub open spec fn expired_at(self, now: u64) -> bool {
        now >= self.expiry()
    }
}

/// Whether a read at `now` has to fetch: the slot is empty, or what it holds
/// is expired.
pub open spec fn must_fetch<T>(slot: Option<Cached<T>>, now: u64) -> bool {
    match slot {
        Some(entry) => entry.expired_at(now),
        None => true,
    }
}

/// The slot after a read at `now` whose fetch, if one was due, ended in
/// `fetched`: a value that was fetched replaces the slot whole and lives for
/// `lifetime` from `now`; a fetch that failed leaves the slot as it was.
pub open spec fn slot_after<T, E>(
    slot: Option<Cached<T>>,
    now: u64,
    lifetime: u64,
    fetched: Result<T, E>,
) -> Option<Cached<T>> {
    match fetched {
        Ok(value) => Some(Cached { value, stored_at: now, lifetime }),
        Err(_) => slot,
    }
}

impl<T> View for SingleCache<T> {
    type V = Option<Cached<T>>;

    closed spec fn view(&self) -> Option<Cached<T>> {
        self.0
    }
}

impl<T> SingleCache<T> {
    /// A cache that holds a value, stored at `now`. The entry is the
    /// lifetime of the value, and the value.
    pub fn from(entry: (u64, T), now: u64) -> (cache: Self)
        ensures
            cache@ == Some(Cached { value: entry.1, stored_at: now, lifetime: entry.0 }),
    {
        SingleCache(Some(Cached { value: entry.1, stored_at: now, lifetime: entry.0 }))
    }

    /// Whether the slot is empty.
    pub fn is_none(&self) -> (r: bool)
        ensures
            r == (self@ is None),
    {
        self.0.is_none()
    }

    /// Whether what the slot holds is expired at `now`.
    pub fn is_expired(&self, now: u64) -> (r: bool)
        requires
            self@ is Some,
        ensures
            r == self@->Some_0.expired_at(now),
    {
        match &self.0 {
            Some(entry) => now >= entry.stored_at && now - entry.stored_at >= entry.lifetime,
            None => true,
        }
    }

    /// The value that the slot holds.
    pub fn inner(&self) -> (value: &T)
        requires
            self@ is Some,
        ensures
            *value == self@->Some_0.value,
    {
        &self.0.as_ref().unwrap().value
    }

    /// The value that the slot holds, if it holds one; expired or not.
    pub fn get(&self) -> (value: Option<&T>)
        ensures
            match value {
                Some(value) => self@ is Some && *value == self@->Some_0.value,
                None => self@ is None,
            },
    {
        match &self.0 {
            Some(entry) => Some(&entry.value),
            None => None,
        }
    }

    /// Whether a read at `now` has to fetch.
    pub fn needs_fetch(&self, now: u64) -> (r: bool)
        ensures
            r == must_fetch(self@, now),
    {
        self.is_none() || self.is_expired(now)
    }
}

impl<T> Default for SingleCache<T> {
    /// The empty cache.
    fn default() -> (cache: Self)
        ensures
            cache@ is None,
    {
        SingleCache(None)
    }
}

/// A value fetched at `stored_at` with lifetime `lifetime` serves every read
/// before `stored_at + lifetime` without a fetch, and no read from that
/// instant on.
pub proof fn lemma_cached_until_expiry<T>(value: T, stored_at: u64, lifetime: u64, now: u64)
    ensures
        must_fetch(Some(Cached { value, stored_at, lifetime }), now) <==> now >= stored_at
            + lifetime,
{
}

/// The number of fetches that a run of reads causes. The reads are served
/// one after the other, as the lock lets them through; each comes with its
/// time and with the value that its fetch would bring, and fetches only if
/// it has to.
pub open spec fn fetches<T>(slot: Option<Cached<T>>, lifetime: u64, reads: Seq<(u64, T)>) -> nat
    decreases reads.len(),
{
    if reads.len() == 0 {
        0
    } else {
        let (now, value) = reads[0];
        if must_fetch(slot, now) {
            1 + fetches(slot_after(slot, now, lifetime, Ok::<T, ()>(value)), lifetime, reads.skip(1))
        } else {
            fetches(slot, lifetime, reads.skip(1))
        }
    }
}

/// Reads before the expiry of the cached value fetch nothing, however many
/// they are.
pub proof fn lemma_reads_before_expiry_fetch_nothing<T>(
    entry: Cached<T>,
    lifetime: u64,
    reads: Seq<(u64, T)>,
)
    requires
        forall|i: int| 0 <= i < reads.len() ==> (#[trigger] reads[i]).0 < entry.expiry(),
    ensures
        fetches(Some(entry), lifetime, reads) == 0,
    decreases reads.len(),
{
    if reads.len() > 0 {
        lemma_reads_before_expiry_fetch_nothing(entry, lifetime, reads.skip(1));
    }
}

/// A read that has to fetch fetches once for itself and for every read
/// that follows within the lifetime of what it fetched: together they fetch
/// exactly once, and the reads that follow find the value of that fetch.
pub proof fn lemma_one_fetch_per_lifetime<T>(
    slot: Option<Cached<T>>,
    lifetime: u64,
    reads: Seq<(u64, T)>,
)
    requires
        reads.len() > 0,
        must_fetch(slot, reads[0].0),
        forall|i: int|
            0 < i < reads.len() ==> reads[0].0 <= (#[trigger] reads[i]).0 < reads[0].0 + lifetime,
    ensures
        fetches(slot, lifetime, reads) == 1,
        forall|i: int|
            0 < i < reads.len() ==> !must_fetch(
                slot_after(slot, reads[0].0, lifetime, Ok::<T, ()>(reads[0].1)),
                (#[trigger] reads[i]).0,
            ),
{
    let fetched = Cached { value: reads[0].1, stored_at: reads[0].0, lifetime };
    assert forall|i: int| 0 <= i < reads.skip(1).len() implies (#[trigger] reads.skip(1)[i]).0
        < fetched.expiry() by {
        assert(reads.skip(1)[i] == reads[i + 1]);
    }
    lemma_reads_before_expiry_fetch_nothing(fetched, lifetime, reads.skip(1));
}

/// A fetch that fails installs nothing: the slot is as it was, stale or
/// empty, and the next read fetches again.
pub proof fn lemma_failed_fetch_keeps_slot<T, E>(
    slot: Option<Cached<T>>,
    now: u64,
    lifetime: u64,
    error: E,
    later: u64,
)
    requires
        must_fetch(slot, now),
        now <= later,
    ensures
        slot_after(slot, now, lifetime, Err::<T, E>(error)) == slot,
        must_fetch(slot_after(slot, now, lifetime, Err::<T, E>(error)), later),
{
}

/// A provider that caches the key set of one issuer for a fixed time, and
/// whose validation is shaped by a function of the caller.
pub struct CachedJwkSet<F> {
    issuer: String,
    duration: u64,
    validator: F,
    cached_keys: SingleCache<jsonwebtoken::jwk::JwkSet>,
}

/// Collects the settings of a [`CachedJwkSet`].
pub struct CachedJwkSetBuilder<F> {
    issuer: Option<String>,
    duration: Option<u64>,
    validator: Option<F>,
}

impl<F: Fn(Validation) -> Validation> CachedJwkSetBuilder<F> {
    /// The issuer that was set.
    pub closed spec fn issuer_set(&self) -> Option<Seq<char>> {
        self.issuer.deep_view()
    }

    /// The lifetime that was set.
    pub closed spec fn duration_set(&self) -> Option<u64> {
        self.duration
    }

    /// The validator that was set.
    pub closed spec fn validator_set(&self) -> Option<F> {
        self.validator
    }

    /// The fields that a build would report as missing.
    pub open spec fn missing(&self) -> Seq<RequiredField> {
        missing_fields(
            seq![
                (RequiredField::Issuer, self.issuer_set() is Some),
                (RequiredField::Duration, self.duration_set() is Some),
                (RequiredField::Validation, self.validator_set() is Some),
            ],
        )
    }

    /// Sets the address of the issuer.
    pub fn issuer(self, issuer: String) -> (builder: Self)
        ensures
            builder.issuer_set() == Some(issuer@),
            builder.duration_set() == self.duration_set(),
            builder.validator_set() == self.validator_set(),
    {
        CachedJwkSetBuilder {
            issuer: Some(issuer),
            duration: self.duration,
            validator: self.validator,
        }
    }

    /// Sets the lifetime of a fetched key set.
    pub fn duration(self, duration: u64) -> (builder: Self)
        ensures
            builder.issuer_set() == self.issuer_set(),
            builder.duration_set() == Some(duration),
            builder.validator_set() == self.validator_set(),
    {
        CachedJwkSetBuilder {
            issuer: self.issuer,
            duration: Some(duration),
            validator: self.validator,
        }
    }

    /// Sets the function that shapes the validation.
    pub fn validator(self, validator: F) -> (builder: Self)
        ensures
            builder.issuer_set() == self.issuer_set(),
            builder.duration_set() == self.duration_set(),
            builder.validator_set() == Some(validator),
    {
        CachedJwkSetBuilder {
            issuer: self.issuer,
            duration: self.duration,
            validator: Some(validator),
        }
    }

    /// Builds the provider, with an empty cache. Fails exactly if a field is
    /// not set, and then names every field that is not.
    pub fn build(self) -> (r: Result<CachedJwkSet<F>, BuildError>)
        ensures
            match r {
                Ok(provider) => {
                    &&& self.missing().len() == 0
                    &&& Some(provider.issuer()) == self.issuer_set()
                    &&& Some(provider.lifetime()) == self.duration_set()
                    &&& Some(provider.validator()) == self.validator_set()
                    &&& provider.cache() is None
                },
                Err(error) => error.missing@ == self.missing() && self.missing().len() > 0,
            },
    {
        let ghost mut checked: Seq<(RequiredField, bool)> = Seq::empty();
        let mut missing: Vec<RequiredField> = Vec::new();
        note_missing(&mut missing, Ghost(checked), RequiredField::Issuer, self.issuer.is_some());
        proof {
            checked = checked.push((RequiredField::Issuer, self.issuer_set() is Some));
        }
        note_missing(
            &mut missing,
            Ghost(checked),
            RequiredField::Duration,
            self.duration.is_some(),
        );
        proof {
            checked = checked.push((RequiredField::Duration, self.duration_set() is Some));
        }
        note_missing(
            &mut missing,
            Ghost(checked),
            RequiredField::Validation,
            self.validator.is_some(),
        );
        proof {
            checked = checked.push((RequiredField::Validation, self.validator_set() is Some));
            assert(checked =~= seq![
                (RequiredField::Issuer, self.issuer_set() is Some),
                (RequiredField::Duration, self.duration_set() is Some),
                (RequiredField::Validation, self.validator_set() is Some),
            ]);
            lemma_missing_fields_empty(checked);
        }
        match (self.issuer, self.duration, self.validator) {
            (Some(issuer), Some(duration), Some(validator)) => Ok(
                CachedJwkSet { issuer, duration, validator, cached_keys: SingleCache::default() },
            ),
            _ => Err(BuildError { missing }),
        }
    }
}

impl<F: Fn(Validation) -> Validation> CachedJwkSet<F> {
    /// The address of the issuer.
    pub closed spec fn issuer(&self) -> Seq<char> {
        self.issuer@
    }

    /// The lifetime of a fetched key set.
    pub closed spec fn lifetime(&self) -> u64 {
        self.duration
    }

    /// The function that shapes the validation.
    pub closed spec fn validator(&self) -> F {
        self.validator
    }

    /// What the cache holds.
    pub closed spec fn cache(&self) -> Option<Cached<jsonwebtoken::jwk::JwkSet>> {
        self.cached_keys@
    }

    /// A builder with no field set.
    pub fn builder() -> (builder: CachedJwkSetBuilder<F>)
        ensures
            builder.issuer_set() is None,
            builder.duration_set() is None,
            builder.validator_set() is None,
    {
        CachedJwkSetBuilder { issuer: None, duration: None, validator: None }
    }

    /// The address at which the issuer publishes its key set.
    pub fn jwks_url(&self) -> (url: String)
        ensures
            url@ == jwks_endpoint(self.issuer()),
    {
        jwks_url(self.issuer.as_str())
    }

    /// Whether a read at `now` has to fetch the key set first.
    pub fn needs_refresh(&self, now: u64) -> (r: bool)
        ensures
            r == must_fetch(self.cache(), now),
    {
        self.cached_keys.needs_fetch(now)
    }

    /// The key set that serves a read at `now`: the cached one, unless a
    /// refresh is due.
    pub fn jwk_set(&self, now: u64) -> (keys: Option<&jsonwebtoken::jwk::JwkSet>)
        ensures
            match keys {
                Some(keys) => !must_fetch(self.cache(), now) && *keys == self.cache()->Some_0.value,
                None => must_fetch(self.cache(), now),
            },
    {
        if self.cached_keys.needs_fetch(now) {
            None
        } else {
            self.cached_keys.get()
        }
    }

    /// Ends a refresh whose fetch ended in `fetched` at `now`, and hands out
    /// the key set that serves the read.
    ///
    /// A key set that was fetched replaces the cache whole, lives for the
    /// lifetime of the provider from `now`, and serves. A fetch that failed
    /// leaves the cache as it was and reports that the credentials are
    /// missing, with the reason of the failure.
    pub fn refresh(&mut self, fetched: Result<jsonwebtoken::jwk::JwkSet, String>, now: u64) -> (r:
        Result<&jsonwebtoken::jwk::JwkSet, AuthError>)
        ensures
            final(self).cache() == slot_after(
                old(self).cache(),
                now,
                old(self).lifetime(),
                fetched,
            ),
            final(self).issuer() == old(self).issuer(),
            final(self).lifetime() == old(self).lifetime(),
            final(self).validator() == old(self).validator(),
            match r {
                Ok(keys) => fetched == Ok::<jsonwebtoken::jwk::JwkSet, String>(*keys),
                Err(error) => fetched is Err && error == AuthError::MissingCredentials(
                    fetched->Err_0,
                ),
            },
    {
        match fetched {
            Ok(keys) => {
                self.cached_keys = SingleCache::from((self.duration, keys), now);
                Ok(self.cached_keys.inner())
            },
            Err(reason) => Err(AuthError::MissingCredentials(reason)),
        }
    }

    /// Shapes a validation with the function of the provider.
    pub fn decode_validation(&self, validation: Validation) -> (shaped: Validation)
        requires
            call_requires(self.validator(), (validation,)),
        ensures
            call_ensures(self.validator(), (validation,), shaped),
    {
        (self.validator)(validation)
    }
}

} // verus!
