//! A bounded cache for validated credentials, whose entries live for a limited time.
//!
//! Credentials presented on every request, such as a `Basic` pair or an API token, would otherwise
//! go to the identity provider each time. The cache keeps the resolved principal until shortly
//! before the underlying token would expire.
//!
//! The clock is the caller's: each operation that depends on it takes the reading of a monotonic
//! clock, as a span since some fixed start.
use vstd::prelude::*;

use crate::text;
use crate::time::{self, Duration};

verus! {

/// Default seconds by which a cached principal is dropped before the token's actual expiry,
/// covering clock skew and in-flight latency.
pub const DEFAULT_REFRESH_MARGIN: u64 = 30;

/// Default lifetime in seconds when the provider omits `expires_in`, which RFC 6749 section 5.1
/// only recommends.
pub const DEFAULT_FALLBACK_TTL: u64 = 60;

/// Default cap on cached entries.
pub const DEFAULT_MAX_ENTRIES: usize = 10_000;

#[derive(Clone, Copy, Debug)]
pub struct CacheConfig {
    pub refresh_margin: Duration,
    pub fallback_ttl: Duration,
    pub max_entries: usize,
}

impl CacheConfig {
    /// How long an entry lives, in nanoseconds: the reported lifetime less the margin, or the
    /// fallback when none was reported.
    pub open spec fn lifetime(self, expires_in: Option<nat>) -> nat {
        match expires_in {
            Some(span) => if span >= self.refresh_margin@ {
                (span - self.refresh_margin@) as nat
            } else {
                0
            },
            None => self.fallback_ttl@,
        }
    }

    /// Whether an entry with that reported lifetime is cached at all.
    pub open spec fn admits(self, expires_in: Option<nat>) -> bool {
        self.lifetime(expires_in) > 0 && self.max_entries > 0
    }
}

impl Default for CacheConfig {
    fn default() -> (config: CacheConfig)
        ensures
            config.refresh_margin@ == DEFAULT_REFRESH_MARGIN * 1_000_000_000,
            config.fallback_ttl@ == DEFAULT_FALLBACK_TTL * 1_000_000_000,
            config.max_entries == DEFAULT_MAX_ENTRIES,
    {
        CacheConfig {
            refresh_margin: Duration::from_secs(DEFAULT_REFRESH_MARGIN),
            fallback_ttl: Duration::from_secs(DEFAULT_FALLBACK_TTL),
            max_entries: DEFAULT_MAX_ENTRIES,
        }
    }
}

/// The BLAKE3 digest of some bytes.
pub uninterp spec fn blake3_digest(bytes: Seq<u8>) -> Seq<u8>;

/// `blake3::hash`, whose result is a function of the bytes alone. Nothing is said of which digest
/// that is, nor that two inputs have different ones.
#[verifier::external_body]
fn blake3_hash(bytes: &[u8]) -> (digest: [u8; 32])
    ensures
        digest@ == blake3_digest(bytes@),
{
    *blake3::hash(bytes).as_bytes()
}

/// What a cached principal is found by: the scope, the mechanism, the principal's name, and the
/// BLAKE3 digest of the secret.
///
/// The secret is hashed and not stored, so a memory dump does not yield usable credentials, and
/// rotating a secret is automatically a miss.
#[derive(PartialEq, Eq, Hash, Debug)]
pub struct CacheKey {
    scope: Option<String>,
    mechanism: &'static str,
    principal: String,
    digest: [u8; 32],
}

/// What a [`CacheKey`] distinguishes.
pub ghost struct KeyView {
    pub scope: Option<Seq<char>>,
    pub mechanism: Seq<char>,
    pub principal: Seq<char>,
    pub digest: Seq<u8>,
}

impl View for CacheKey {
    type V = KeyView;

    closed spec fn view(&self) -> KeyView {
        KeyView {
            scope: text::optional(self.scope),
            mechanism: self.mechanism@,
            principal: self.principal@,
            digest: self.digest@,
        }
    }
}

impl CacheKey {
    fn same(&self, other: &CacheKey) -> (same: bool)
        ensures
            same == (self@ == other@),
    {
        let scopes = match (&self.scope, &other.scope) {
            (Some(a), Some(b)) => text::equal(a.as_str(), b.as_str()),
            (None, None) => true,
            _ => false,
        };
        scopes && text::equal(self.mechanism, other.mechanism) && text::equal(
            self.principal.as_str(),
            other.principal.as_str(),
        ) && same_digest(&self.digest, &other.digest)
    }
}

fn same_digest(a: &[u8; 32], b: &[u8; 32]) -> (same: bool)
    ensures
        same == (a@ == b@),
{
    let mut at: usize = 0;
    while at < 32
        invariant
            at <= 32,
            forall|i: int| 0 <= i < at ==> #[trigger] a@[i] == b@[i],
        decreases 32 - at,
    {
        if a[at] != b[at] {
            assert(a@[at as int] != b@[at as int]);
            return false;
        }
        at += 1;
    }
    assert(a@ =~= b@);
    true
}

impl Clone for CacheKey {
    fn clone(&self) -> (copy: CacheKey)
        ensures
            copy@ == self@,
    {
        CacheKey {
            scope: text::copy_optional(&self.scope),
            mechanism: self.mechanism,
            principal: self.principal.clone(),
            digest: self.digest,
        }
    }
}

struct Entry<U> {
    key: CacheKey,
    value: U,
    expires_at: Duration,
    /// Reading of the logical clock at the last read or write.
    last_used: u64,
}

/// What the cache keeps for a key: the principal, the clock reading at which it expires, and the
/// logical time of its last use.
pub ghost struct EntryView<U> {
    pub value: U,
    pub expires_at: nat,
    pub last_used: u64,
}

/// What a [`CredentialCache`] holds.
pub ghost struct CacheView<U> {
    pub config: CacheConfig,
    pub entries: Map<KeyView, EntryView<U>>,
    /// The logical clock, which orders uses.
    pub clock: u64,
}

impl<U> Entry<U> {
    spec fn view(self) -> EntryView<U> {
        EntryView { value: self.value, expires_at: self.expires_at@, last_used: self.last_used }
    }
}

spec fn entry_map<U>(entries: Seq<Entry<U>>) -> Map<KeyView, EntryView<U>>
    decreases entries.len(),
{
    if entries.len() == 0 {
        Map::empty()
    } else {
        entry_map(entries.drop_last()).insert(entries.last().key@, entries.last().view())
    }
}

spec fn distinct<U>(entries: Seq<Entry<U>>) -> bool {
    forall|i: int, j: int|
        0 <= i < j < entries.len() ==> (#[trigger] entries[i]).key@ != (#[trigger] entries[j]).key@
}

proof fn lemma_entry_map<U>(entries: Seq<Entry<U>>)
    ensures
        entry_map(entries).dom().finite(),
        forall|key: KeyView| #[trigger]
            entry_map(entries).contains_key(key) ==> exists|i: int|
                0 <= i < entries.len() && (#[trigger] entries[i]).key@ == key,
        forall|i: int|
            0 <= i < entries.len() ==> entry_map(entries).contains_key(
                (#[trigger] entries[i]).key@,
            ),
        distinct(entries) ==> entry_map(entries).dom().len() == entries.len(),
        distinct(entries) ==> forall|i: int|
            0 <= i < entries.len() ==> entry_map(entries)[(#[trigger] entries[i]).key@]
                == entries[i].view(),
    decreases entries.len(),
{
    if entries.len() > 0 {
        let front = entries.drop_last();
        lemma_entry_map(front);
        assert forall|key: KeyView| #[trigger]
            entry_map(entries).contains_key(key) implies exists|i: int|
            0 <= i < entries.len() && (#[trigger] entries[i]).key@ == key by {
            if key == entries.last().key@ {
                assert(entries[entries.len() - 1].key@ == key);
            } else {
                assert(entry_map(front).contains_key(key));
                let i = choose|i: int| 0 <= i < front.len() && (#[trigger] front[i]).key@ == key;
                assert(entries[i].key@ == key);
            }
        }
        assert forall|i: int| 0 <= i < entries.len() implies entry_map(entries).contains_key(
            (#[trigger] entries[i]).key@,
        ) by {
            if i < front.len() {
                assert(front[i] == entries[i]);
            }
        }
        if distinct(entries) {
            assert forall|i: int, j: int| 0 <= i < j < front.len() implies (
            #[trigger] front[i]).key@ != (#[trigger] front[j]).key@ by {
                assert(front[i] == entries[i] && front[j] == entries[j]);
            }
            if entry_map(front).contains_key(entries.last().key@) {
                let i = choose|i: int|
                    0 <= i < front.len() && (#[trigger] front[i]).key@ == entries.last().key@;
                assert(front[i] == entries[i]);
                assert(false);
            }
            assert forall|i: int| 0 <= i < entries.len() implies entry_map(entries)[(
            #[trigger] entries[i]).key@] == entries[i].view() by {
                if i < front.len() {
                    assert(front[i] == entries[i]);
                }
            }
        }
    }
}

/// Taking an entry out of a list without repeated keys takes its key out of the map.
proof fn lemma_remove<U>(entries: Seq<Entry<U>>, at: int)
    requires
        distinct(entries),
        0 <= at < entries.len(),
    ensures
        distinct(entries.remove(at)),
        entry_map(entries.remove(at)) == entry_map(entries).remove(entries[at].key@),
{
    let rest = entries.remove(at);
    let origin = |i: int| if i < at { i } else { i + 1 };
    assert forall|i: int| 0 <= i < rest.len() implies #[trigger] rest[i] == entries[origin(i)] by {}
    assert forall|i: int, j: int| 0 <= i < j < rest.len() implies (#[trigger] rest[i]).key@ != (
    #[trigger] rest[j]).key@ by {
        assert(rest[i] == entries[origin(i)] && rest[j] == entries[origin(j)]);
    }
    lemma_entry_map(entries);
    lemma_entry_map(rest);
    let removed = entry_map(entries).remove(entries[at].key@);
    assert forall|key: KeyView|
        #![trigger entry_map(rest).dom().contains(key)]
        #![trigger removed.dom().contains(key)]
        entry_map(rest).dom().contains(key) == removed.dom().contains(key) && (
        removed.dom().contains(key) ==> entry_map(rest)[key] == removed[key]) by {
        if entry_map(rest).contains_key(key) {
            let i = choose|i: int| 0 <= i < rest.len() && (#[trigger] rest[i]).key@ == key;
            assert(rest[i] == entries[origin(i)]);
            assert(entries[origin(i)].key@ != entries[at].key@);
        }
        if removed.contains_key(key) {
            let i = choose|i: int| 0 <= i < entries.len() && (#[trigger] entries[i]).key@ == key;
            let j = if i < at { i } else { i - 1 };
            assert(rest[j] == entries[i]);
        }
    }
    assert(entry_map(rest) =~= removed);
}

/// Replacing an entry by one with the same key replaces what the map holds for the key.
proof fn lemma_update<U>(entries: Seq<Entry<U>>, at: int, entry: Entry<U>)
    requires
        distinct(entries),
        0 <= at < entries.len(),
        entry.key@ == entries[at].key@,
    ensures
        distinct(entries.update(at, entry)),
        entry_map(entries.update(at, entry)) == entry_map(entries).insert(entry.key@, entry.view()),
{
    let after = entries.update(at, entry);
    assert forall|i: int| 0 <= i < after.len() implies (#[trigger] after[i]).key@
        == entries[i].key@ by {}
    assert(distinct(after));
    lemma_entry_map(entries);
    lemma_entry_map(after);
    let inserted = entry_map(entries).insert(entry.key@, entry.view());
    assert forall|key: KeyView|
        #![trigger entry_map(after).dom().contains(key)]
        #![trigger inserted.dom().contains(key)]
        entry_map(after).dom().contains(key) == inserted.dom().contains(key) && (
        inserted.dom().contains(key) ==> entry_map(after)[key] == inserted[key]) by {
        if entry_map(after).contains_key(key) {
            let i = choose|i: int| 0 <= i < after.len() && (#[trigger] after[i]).key@ == key;
            assert(entries[i].key@ == key);
        }
        if inserted.contains_key(key) {
            if key == entry.key@ {
                assert(after[at].key@ == key);
            } else {
                let i = choose|i: int| 0 <= i < entries.len() && (#[trigger] entries[i]).key@ == key;
                assert(after[i] == entries[i]);
            }
        }
    }
    assert(entry_map(after) =~= inserted);
}

/// The entries that have not expired at `now`.
pub open spec fn live<U>(
    entries: Map<KeyView, EntryView<U>>,
    now: nat,
) -> Map<KeyView, EntryView<U>> {
    Map::new(
        |key: KeyView| entries.contains_key(key) && entries[key].expires_at > now,
        |key: KeyView| entries[key],
    )
}

/// Whether `key` is the entry to give up: no entry was last used before it.
pub open spec fn coldest<U>(entries: Map<KeyView, EntryView<U>>, key: KeyView) -> bool {
    entries.contains_key(key) && forall|other: KeyView| #[trigger]
        entries.contains_key(other) ==> entries[key].last_used <= entries[other].last_used
}

/// Whether `after` is what remains of `entries` when room is made for a new entry: the expired
/// ones go, and when that does not free a place, so does one coldest entry.
pub open spec fn makes_room<U>(
    entries: Map<KeyView, EntryView<U>>,
    max_entries: nat,
    now: nat,
    after: Map<KeyView, EntryView<U>>,
) -> bool {
    if live(entries, now).dom().len() < max_entries {
        after == live(entries, now)
    } else {
        exists|key: KeyView| #[trigger]
            coldest(live(entries, now), key) && after == live(entries, now).remove(key)
    }
}

/// The reading of the logical clock after one more use.
pub open spec fn next_tick(clock: u64) -> u64 {
    if clock < u64::MAX {
        (clock + 1) as u64
    } else {
        0
    }
}

/// The latest expiry is the end of the clock's range.
pub open spec fn deadline(now: nat, lifetime: nat) -> nat {
    if now + lifetime < time::duration_bound() {
        now + lifetime
    } else {
        (time::duration_bound() - 1) as nat
    }
}

impl<U> CacheView<U> {
    /// Whether this is an empty cache with the default limits.
    pub open spec fn is_default(self) -> bool {
        &&& self.entries == Map::<KeyView, EntryView<U>>::empty()
        &&& self.config.refresh_margin@ == DEFAULT_REFRESH_MARGIN * 1_000_000_000
        &&& self.config.fallback_ttl@ == DEFAULT_FALLBACK_TTL * 1_000_000_000
        &&& self.config.max_entries == DEFAULT_MAX_ENTRIES
        &&& self.clock == 0
    }

    /// Whether the cache has an unexpired entry for `key`.
    pub open spec fn hits(self, key: KeyView, now: nat) -> bool {
        self.entries.contains_key(key) && now < self.entries[key].expires_at
    }

    /// The cache after a lookup of `key`: a hit counts as a use of the entry.
    pub open spec fn touched(self, key: KeyView, now: nat) -> CacheView<U> {
        let entries = if self.hits(key, now) {
            self.entries.insert(
                key,
                EntryView { last_used: self.clock, ..self.entries[key] },
            )
        } else {
            self.entries
        };
        CacheView { entries, clock: next_tick(self.clock), ..self }
    }

    /// Whether `kept` is what stays of the entries when one for `key` comes: all of them, unless
    /// the cache is full and the key is new.
    pub open spec fn keeps(
        self,
        key: KeyView,
        now: nat,
        kept: Map<KeyView, EntryView<U>>,
    ) -> bool {
        if self.entries.dom().len() >= self.config.max_entries && !self.entries.contains_key(key) {
            makes_room(self.entries, self.config.max_entries as nat, now, kept)
        } else {
            kept == self.entries
        }
    }

    /// Whether `after` is the cache with `value` stored for `key`.
    pub open spec fn stores(
        self,
        key: KeyView,
        value: U,
        expires_in: Option<nat>,
        now: nat,
        after: CacheView<U>,
    ) -> bool {
        let entry = EntryView {
            value,
            expires_at: deadline(now, self.config.lifetime(expires_in)),
            last_used: self.clock,
        };
        if !self.config.admits(expires_in) {
            after == self
        } else {
            &&& after.config == self.config
            &&& after.clock == next_tick(self.clock)
            &&& exists|kept: Map<KeyView, EntryView<U>>|
                #[trigger] self.keeps(key, now, kept) && after.entries == kept.insert(key, entry)
        }
    }

    /// The cache without the entry of `key`.
    pub open spec fn without(self, key: KeyView) -> CacheView<U> {
        CacheView { entries: self.entries.remove(key), ..self }
    }
}

/// Resolved principals by credential.
pub struct CredentialCache<U> {
    entries: Vec<Entry<U>>,
    config: CacheConfig,
    clock: u64,
}

impl<U> View for CredentialCache<U> {
    type V = CacheView<U>;

    closed spec fn view(&self) -> CacheView<U> {
        CacheView { config: self.config, entries: entry_map(self.entries@), clock: self.clock }
    }
}

impl<U: Clone> Default for CredentialCache<U> {
    fn default() -> (cache: CredentialCache<U>)
        ensures
            cache@.is_default(),
    {
        CredentialCache::new(CacheConfig::default())
    }
}

/// The index of the entry for `key`, or the number of entries when there is none.
fn find<U>(entries: &Vec<Entry<U>>, key: &CacheKey) -> (at: usize)
    ensures
        at <= entries.len(),
        at < entries.len() ==> entries@[at as int].key@ == key@,
        (at < entries.len()) == entry_map(entries@).contains_key(key@),
{
    proof {
        lemma_entry_map(entries@);
    }
    let mut at: usize = 0;
    while at < entries.len()
        invariant
            at <= entries.len(),
            forall|i: int| 0 <= i < at ==> (#[trigger] entries@[i]).key@ != key@,
            forall|i: int|
                0 <= i < entries.len() ==> entry_map(entries@).contains_key(
                    (#[trigger] entries@[i]).key@,
                ),
        decreases entries.len() - at,
    {
        if entries[at].key.same(key) {
            return at;
        }
        at += 1;
    }
    at
}

/// Drops the entries that have expired at `now`.
fn drop_expired<U>(entries: &mut Vec<Entry<U>>, now: &Duration)
    requires
        distinct(old(entries)@),
    ensures
        distinct(final(entries)@),
        entry_map(final(entries)@) == live(entry_map(old(entries)@), now@),
        final(entries).len() <= old(entries).len(),
{
    let ghost before = entry_map(entries@);
    let mut at: usize = 0;
    proof {
        lemma_entry_map(entries@);
    }
    while at < entries.len()
        invariant
            at <= entries.len() <= old(entries).len(),
            distinct(entries@),
            forall|i: int| 0 <= i < at ==> (#[trigger] entries@[i]).expires_at@ > now@,
            forall|key: KeyView| #[trigger]
                entry_map(entries@).contains_key(key) ==> before.contains_key(key) && before[key]
                    == entry_map(entries@)[key],
            forall|key: KeyView| #[trigger]
                before.contains_key(key) && !entry_map(entries@).contains_key(key)
                    ==> before[key].expires_at <= now@,
        decreases entries.len() - at,
    {
        if now.is_below(&entries[at].expires_at) {
            at += 1;
        } else {
            proof {
                lemma_entry_map(entries@);
                lemma_remove(entries@, at as int);
            }
            entries.remove(at);
        }
    }
    proof {
        lemma_entry_map(entries@);
        let after = entry_map(entries@);
        let wanted = live(before, now@);
        assert forall|key: KeyView|
            #![trigger after.dom().contains(key)]
            #![trigger wanted.dom().contains(key)]
            after.dom().contains(key) == wanted.dom().contains(key) && (after.dom().contains(key)
                ==> after[key] == wanted[key]) by {
            assert(before.contains_key(key) ==> before.contains_key(key));
            if after.contains_key(key) {
                let i = choose|i: int|
                    0 <= i < entries.len() && (#[trigger] entries@[i]).key@ == key;
                assert(entries@[i].expires_at@ > now@);
            }
        }
        assert(after =~= wanted);
    }
}

/// Drops one entry that no other was last used before.
fn evict<U>(entries: &mut Vec<Entry<U>>)
    requires
        distinct(old(entries)@),
        old(entries).len() > 0,
    ensures
        distinct(final(entries)@),
        final(entries).len() == old(entries).len() - 1,
        exists|key: KeyView| #[trigger]
            coldest(entry_map(old(entries)@), key) && entry_map(final(entries)@) == entry_map(
                old(entries)@,
            ).remove(key),
{
    let mut victim: usize = 0;
    let mut at: usize = 1;
    while at < entries.len()
        invariant
            entries@ == old(entries)@,
            victim < at <= entries.len(),
            forall|i: int|
                0 <= i < at ==> entries@[victim as int].last_used <= (#[trigger] entries@[i]).last_used,
        decreases entries.len() - at,
    {
        if entries[at].last_used < entries[victim].last_used {
            victim = at;
        }
        at += 1;
    }
    proof {
        lemma_entry_map(entries@);
        lemma_remove(entries@, victim as int);
        let key = entries@[victim as int].key@;
        assert forall|other: KeyView| #[trigger]
            entry_map(entries@).contains_key(other) implies entry_map(entries@)[key].last_used
            <= entry_map(entries@)[other].last_used by {
            let i = choose|i: int| 0 <= i < entries.len() && (#[trigger] entries@[i]).key@ == other;
            assert(entries@[victim as int].last_used <= entries@[i].last_used);
        }
        assert(coldest(entry_map(entries@), key));
    }
    entries.remove(victim);
}

impl<U> CredentialCache<U> {
    #[verifier::type_invariant]
    spec fn bounded(self) -> bool {
        distinct(self.entries@) && self.entries.len() <= self.config.max_entries
    }
}

impl<U: Clone> CredentialCache<U> {
    pub fn new(config: CacheConfig) -> (cache: CredentialCache<U>)
        ensures
            cache@ == (CacheView {
                config,
                entries: Map::<KeyView, EntryView<U>>::empty(),
                clock: 0,
            }),
    {
        CredentialCache { entries: Vec::new(), config, clock: 0 }
    }

    /// Monotonic logical clock reading, which orders uses.
    fn tick(&mut self) -> (reading: u64)
        ensures
            reading == old(self)@.clock,
            final(self)@ == (CacheView { clock: next_tick(old(self)@.clock), ..old(self)@ }),
            final(self).entries == old(self).entries,
    {
        proof {
            use_type_invariant(&*self);
        }
        let reading = self.clock;
        self.clock = reading.wrapping_add(1);
        reading
    }

    /// Builds a key.
    ///
    /// `scope` should be the scope's cache discriminator and `mechanism` the authenticator's name,
    /// so a user name under one mechanism can never collide with a client id under another.
    pub fn key(
        scope: Option<&str>,
        mechanism: &'static str,
        principal: &str,
        secret: &str,
    ) -> (key: CacheKey)
        ensures
            key@ == (KeyView {
                scope: text::optional_str(scope),
                mechanism: mechanism@,
                principal: principal@,
                digest: blake3_digest(vstd::utf8::encode_utf8(secret@)),
            }),
    {
        let scope = match scope {
            Some(scope) => Some(String::from_str(scope)),
            None => None,
        };
        CacheKey {
            scope,
            mechanism,
            principal: String::from_str(principal),
            digest: blake3_hash(secret.as_bytes()),
        }
    }

    /// The cached principal, if present and not yet expired. A hit counts as a use.
    pub fn get(&mut self, key: &CacheKey, now: Duration) -> (value: Option<U>)
        ensures
            final(self)@ == old(self)@.touched(key@, now@),
            match value {
                Some(value) => old(self)@.hits(key@, now@) && cloned::<U>(
                    old(self)@.entries[key@].value,
                    value,
                ),
                None => !old(self)@.hits(key@, now@),
            },
    {
        proof {
            use_type_invariant(&*self);
            lemma_entry_map(self.entries@);
        }
        let reading = self.tick();
        let mut entries: Vec<Entry<U>> = Vec::new();
        std::mem::swap(&mut entries, &mut self.entries);
        let at = find(&entries, key);
        let mut value: Option<U> = None;
        if at < entries.len() && now.is_below(&entries[at].expires_at) {
            let found = entries[at].value.clone();
            value = Some(found);
            proof {
                let entry = Entry { last_used: reading, ..entries@[at as int] };
                lemma_update(entries@, at as int, entry);
            }
            let ghost before = entries@;
            entries[at].last_used = reading;
            assert(entries@ =~= before.update(
                at as int,
                Entry { last_used: reading, ..before[at as int] },
            ));
        }
        self.entries = entries;
        value
    }

    /// Caches `value` for `expires_in` less the safety margin, or the fallback lifetime when the
    /// provider gave no expiry.
    ///
    /// Pruning happens only at capacity. If dropping the expired entries does not free room, the
    /// least recently used entry is evicted, so a full cache keeps serving its hot credentials.
    pub fn insert(&mut self, key: CacheKey, value: U, expires_in: Option<Duration>, now: Duration)
        ensures
            old(self)@.stores(key@, value, time::optional_span(expires_in), now@, final(self)@),
    {
        proof {
            use_type_invariant(&*self);
            lemma_entry_map(self.entries@);
        }
        let ttl = match expires_in {
            Some(span) => span.saturating_sub(&self.config.refresh_margin),
            None => self.config.fallback_ttl,
        };
        if ttl.is_zero() || self.config.max_entries == 0 {
            return;
        }
        let reading = self.tick();
        let max_entries = self.config.max_entries;
        let mut entries: Vec<Entry<U>> = Vec::new();
        std::mem::swap(&mut entries, &mut self.entries);
        let at = find(&entries, &key);
        if entries.len() >= max_entries && at >= entries.len() {
            drop_expired(&mut entries, &now);
            proof {
                lemma_entry_map(entries@);
            }
            if entries.len() >= max_entries {
                evict(&mut entries);
            }
        }
        let ghost kept = entries@;
        proof {
            lemma_entry_map(kept);
            assert(old(self)@.keeps(key@, now@, entry_map(kept)));
        }
        let expires_at = now.saturating_add(&ttl);
        let at = find(&entries, &key);
        let entry = Entry { key, value, expires_at, last_used: reading };
        if at < entries.len() {
            proof {
                lemma_update(entries@, at as int, entry);
            }
            entries.set(at, entry);
        } else {
            entries.push(entry);
            assert(entries@.drop_last() =~= kept);
        }
        self.entries = entries;
        proof {
            assert(self@.entries == entry_map(kept).insert(key@, entry.view()));
        }
    }

    /// Drops a specific entry, for logout or explicit revocation.
    pub fn invalidate(&mut self, key: &CacheKey)
        ensures
            final(self)@ == old(self)@.without(key@),
    {
        proof {
            use_type_invariant(&*self);
        }
        let mut entries: Vec<Entry<U>> = Vec::new();
        std::mem::swap(&mut entries, &mut self.entries);
        let at = find(&entries, key);
        if at < entries.len() {
            proof {
                lemma_remove(entries@, at as int);
            }
            entries.remove(at);
        } else {
            assert(entry_map(entries@).remove(key@) =~= entry_map(entries@));
        }
        self.entries = entries;
    }

    /// How long an entry lives when the provider reported no expiry.
    pub(crate) fn fallback_ttl(&self) -> (ttl: Duration)
        ensures
            ttl == self@.config.fallback_ttl,
    {
        self.config.fallback_ttl
    }

    /// How many entries are held, expired ones included. Never more than the cap.
    pub fn len(&self) -> (len: usize)
        ensures
            len == self@.entries.dom().len(),
            self@.entries.dom().finite(),
            len <= self@.config.max_entries,
    {
        proof {
            use_type_invariant(self);
            lemma_entry_map(self.entries@);
        }
        self.entries.len()
    }

    pub fn is_empty(&self) -> (empty: bool)
        ensures
            empty == (self@.entries.dom().len() == 0),
    {
        self.len() == 0
    }
}

proof fn lemma_live_len<U>(entries: Map<KeyView, EntryView<U>>, now: nat)
    requires
        entries.dom().finite(),
    ensures
        live(entries, now).dom().finite(),
        live(entries, now).dom().len() <= entries.dom().len(),
{
    assert(live(entries, now).dom().subset_of(entries.dom()));
    vstd::set_lib::lemma_len_subset(live(entries, now).dom(), entries.dom());
}

/// The cache never holds more entries than its cap: a cache within the cap is within it after
/// every insertion.
pub proof fn insertion_keeps_the_cap<U>(
    before: CacheView<U>,
    key: KeyView,
    value: U,
    expires_in: Option<nat>,
    now: nat,
    after: CacheView<U>,
)
    requires
        before.entries.dom().finite(),
        before.entries.dom().len() <= before.config.max_entries,
        before.stores(key, value, expires_in, now, after),
    ensures
        after.entries.dom().finite(),
        after.entries.dom().len() <= after.config.max_entries,
{
    if before.config.admits(expires_in) {
        let kept = choose|kept: Map<KeyView, EntryView<U>>| #[trigger]
            before.keeps(key, now, kept) && after.entries.dom() == kept.dom().insert(key);
        lemma_live_len(before.entries, now);
    }
}

/// A lookup changes neither which keys are held nor what is cached for them.
pub proof fn lookup_keeps_the_principals<U>(before: CacheView<U>, looked_up: KeyView, now: nat)
    ensures
        before.touched(looked_up, now).entries.dom() == before.entries.dom(),
        forall|key: KeyView| #[trigger]
            before.entries.contains_key(key) ==> {
                &&& before.touched(looked_up, now).entries[key].value == before.entries[key].value
                &&& before.touched(looked_up, now).entries[key].expires_at
                    == before.entries[key].expires_at
            },
{
    assert(before.touched(looked_up, now).entries.dom() =~= before.entries.dom());
}

/// A principal that was cached is found again, until its lifetime less the margin has passed, and
/// no longer.
pub proof fn cached_principal_is_found<U>(
    before: CacheView<U>,
    key: KeyView,
    value: U,
    expires_in: Option<nat>,
    now: nat,
    after: CacheView<U>,
    later: nat,
)
    requires
        before.stores(key, value, expires_in, now, after),
        before.config.admits(expires_in),
    ensures
        after.hits(key, later) == (later < deadline(now, before.config.lifetime(expires_in))),
        after.entries[key].value == value,
{
}

/// Without a reported expiry the fallback lifetime itself holds, whatever the margin.
pub proof fn fallback_lifetime_is_kept<U>(
    before: CacheView<U>,
    key: KeyView,
    value: U,
    now: nat,
    after: CacheView<U>,
    later: nat,
)
    requires
        before.stores(key, value, None, now, after),
        before.config.fallback_ttl@ > 0,
        before.config.max_entries > 0,
    ensures
        after.hits(key, later) == (later < deadline(now, before.config.fallback_ttl@)),
{
}

/// A token that expires within the safety margin is not cached.
pub proof fn expiry_within_the_margin_is_not_cached<U>(
    before: CacheView<U>,
    key: KeyView,
    value: U,
    expires_in: nat,
    now: nat,
    after: CacheView<U>,
)
    requires
        before.stores(key, value, Some(expires_in), now, after),
        expires_in <= before.config.refresh_margin@,
    ensures
        after == before,
{
}

/// What is cached for one key is never served for another: an insertion leaves every other entry
/// as it was, or drops it.
pub proof fn insertion_leaves_other_keys_alone<U>(
    before: CacheView<U>,
    key: KeyView,
    value: U,
    expires_in: Option<nat>,
    now: nat,
    after: CacheView<U>,
    other: KeyView,
)
    requires
        before.stores(key, value, expires_in, now, after),
        other != key,
        after.entries.contains_key(other),
    ensures
        before.entries.contains_key(other),
        after.entries[other] == before.entries[other],
{
}

/// Storing a principal again for a key that is held evicts nothing.
pub proof fn reinsertion_evicts_nothing<U>(
    before: CacheView<U>,
    key: KeyView,
    value: U,
    expires_in: Option<nat>,
    now: nat,
    after: CacheView<U>,
)
    requires
        before.stores(key, value, expires_in, now, after),
        before.entries.contains_key(key),
    ensures
        after.entries.dom() == before.entries.dom(),
{
    assert(after.entries.dom() =~= before.entries.dom());
}

/// A cache with room to spare drops nothing, expired entries included.
pub proof fn insertion_below_the_cap_drops_nothing<U>(
    before: CacheView<U>,
    key: KeyView,
    value: U,
    expires_in: Option<nat>,
    now: nat,
    after: CacheView<U>,
    other: KeyView,
)
    requires
        before.stores(key, value, expires_in, now, after),
        before.entries.dom().len() < before.config.max_entries,
        before.entries.contains_key(other),
    ensures
        after.entries.contains_key(other),
{
}

/// At capacity an unexpired entry survives an insertion when some other unexpired entry was used
/// longer ago.
pub proof fn hot_entry_survives_insertion<U>(
    before: CacheView<U>,
    key: KeyView,
    value: U,
    expires_in: Option<nat>,
    now: nat,
    after: CacheView<U>,
    hot: KeyView,
    cold: KeyView,
)
    requires
        before.stores(key, value, expires_in, now, after),
        before.hits(hot, now),
        before.hits(cold, now),
        before.entries[cold].last_used < before.entries[hot].last_used,
    ensures
        after.entries.contains_key(hot),
{
    if before.config.admits(expires_in) {
        assert(live(before.entries, now).contains_key(hot));
        assert(live(before.entries, now).contains_key(cold));
    }
}

/// After an explicit revocation the key is a miss, and every other entry is as it was.
pub proof fn invalidated_key_is_a_miss<U>(before: CacheView<U>, key: KeyView, now: nat)
    ensures
        !before.without(key).hits(key, now),
        forall|other: KeyView| #[trigger]
            before.entries.contains_key(other) && other != key ==> before.without(
                key,
            ).entries.contains_key(other) && before.without(key).entries[other]
                == before.entries[other],
{
}

/// A principal is found, as it was stored, until the margin before its token expires and no longer:
/// at the expiry itself and after it there is nothing to be found, whatever the margin. What
/// expires within the margin is not stored.
pub proof fn principal_is_found_until_the_margin<U: Clone>(
    cache: &mut CredentialCache<U>,
    key: CacheKey,
    value: U,
    span: Duration,
    now: Duration,
    later: nat,
)
    requires
        call_ensures(CredentialCache::<U>::insert, (cache, key, value, Some(span), now), ()),
        now@ + span@ < time::duration_bound(),
        old(cache)@.config.max_entries > 0,
    ensures
        old(cache)@.config.refresh_margin@ < span@ ==> {
            &&& final(cache)@.hits(key@, later) == (later + old(cache)@.config.refresh_margin@
                < now@ + span@)
            &&& final(cache)@.entries[key@].value == value
        },
        old(cache)@.config.refresh_margin@ >= span@ ==> final(cache)@ == old(cache)@,
{
}

/// Without a reported expiry a principal is found for the fallback lifetime, margin or no margin.
pub proof fn principal_without_expiry_is_found_for_the_fallback<U: Clone>(
    cache: &mut CredentialCache<U>,
    key: CacheKey,
    value: U,
    now: Duration,
    later: nat,
)
    requires
        call_ensures(CredentialCache::<U>::insert, (cache, key, value, None, now), ()),
        now@ + old(cache)@.config.fallback_ttl@ < time::duration_bound(),
        old(cache)@.config.max_entries > 0,
        old(cache)@.config.fallback_ttl@ > 0,
    ensures
        final(cache)@.hits(key@, later) == (later < now@ + old(cache)@.config.fallback_ttl@),
        final(cache)@.entries[key@].value == value,
{
}

/// A cache without room holds nothing, and no cache changes its limits.
pub proof fn insertion_keeps_the_limits<U: Clone>(
    cache: &mut CredentialCache<U>,
    key: CacheKey,
    value: U,
    span: Option<Duration>,
    now: Duration,
)
    requires
        call_ensures(CredentialCache::<U>::insert, (cache, key, value, span, now), ()),
    ensures
        final(cache)@.config == old(cache)@.config,
        old(cache)@.config.max_entries == 0 ==> final(cache)@ == old(cache)@,
        forall|other: KeyView| #[trigger]
            final(cache)@.entries.contains_key(other) && other != key@
                ==> old(cache)@.entries.contains_key(other)
                && final(cache)@.entries[other] == old(cache)@.entries[other],
{
}

/// A lookup answers with the principal stored under that very key until it expires, and with
/// nothing otherwise. It changes no principal and no expiry.
pub proof fn lookup_answers_with_what_was_stored<U: Clone>(
    cache: &mut CredentialCache<U>,
    key: CacheKey,
    now: Duration,
    value: Option<U>,
    other: KeyView,
)
    requires
        call_ensures(CredentialCache::<U>::get, (cache, &key, now), value),
    ensures
        value is Some ==> {
            &&& old(cache)@.entries.contains_key(key@)
            &&& now@ < old(cache)@.entries[key@].expires_at
            &&& cloned(old(cache)@.entries[key@].value, value->Some_0)
        },
        old(cache)@.entries.contains_key(key@) && now@ < old(cache)@.entries[key@].expires_at
            ==> value is Some,
        final(cache)@.entries.contains_key(other) == old(cache)@.entries.contains_key(other),
        old(cache)@.entries.contains_key(other) ==> {
            &&& final(cache)@.entries[other].value == old(cache)@.entries[other].value
            &&& final(cache)@.entries[other].expires_at == old(cache)@.entries[other].expires_at
        },
        final(cache)@.config == old(cache)@.config,
{
}

/// Whether every use lies before the reading of the logical clock.
pub open spec fn is_ordered<U>(cache: CacheView<U>) -> bool {
    forall|key: KeyView| #[trigger]
        cache.entries.contains_key(key) ==> cache.entries[key].last_used < cache.clock
}

/// Uses stay in order until the logical clock has run through its whole range.
pub proof fn uses_stay_in_order<U>(
    before: CacheView<U>,
    key: KeyView,
    value: U,
    expires_in: Option<nat>,
    now: nat,
    after: CacheView<U>,
)
    requires
        is_ordered(before),
        before.clock < u64::MAX,
        before.stores(key, value, expires_in, now, after),
    ensures
        is_ordered(before.touched(key, now)),
        is_ordered(after),
        is_ordered(before.without(key)),
{
    if before.config.admits(expires_in) {
        assert forall|other: KeyView| #[trigger] after.entries.contains_key(other) implies
            after.entries[other].last_used < after.clock by {
            if other != key {
                insertion_leaves_other_keys_alone(
                    before,
                    key,
                    value,
                    expires_in,
                    now,
                    after,
                    other,
                );
            }
        }
    }
}

/// A full cache keeps serving what is in use: an entry that was just looked up survives the next
/// insertion wherever some other entry could be given up in its place.
pub proof fn looked_up_entry_survives_the_next_insertion<U: Clone>(
    looked: &mut CredentialCache<U>,
    hot: CacheKey,
    at: Duration,
    found: Option<U>,
    filled: &mut CredentialCache<U>,
    key: CacheKey,
    value: U,
    span: Option<Duration>,
    now: Duration,
    cold: KeyView,
)
    requires
        call_ensures(CredentialCache::<U>::get, (looked, &hot, at), found),
        call_ensures(CredentialCache::<U>::insert, (filled, key, value, span, now), ()),
        found is Some,
        is_ordered(old(looked)@),
        old(looked)@.clock < u64::MAX,
        cold != hot@,
        old(looked)@.entries.contains_key(cold) && now@ < old(looked)@.entries[cold].expires_at,
        now@ < old(looked)@.entries[hot@].expires_at,
    ensures
        final(looked)@ == old(filled)@ ==> final(filled)@.entries.contains_key(hot@),
{
    if final(looked)@ == old(filled)@ {
        assert(old(looked)@.entries[cold].last_used < old(looked)@.clock);
        hot_entry_survives_insertion(
            old(filled)@,
            key@,
            value,
            time::optional_span(span),
            now@,
            final(filled)@,
            hot@,
            cold,
        );
    }
}

/// A key that was given up is not found again, and nothing else is.
pub proof fn revoked_key_is_not_found<U: Clone>(
    cache: &mut CredentialCache<U>,
    key: CacheKey,
    now: nat,
    other: KeyView,
)
    requires
        call_ensures(CredentialCache::<U>::invalidate, (cache, &key), ()),
    ensures
        !final(cache)@.hits(key@, now),
        other != key@ ==> final(cache)@.hits(other, now) == old(cache)@.hits(other, now),
        other != key@ && old(cache)@.entries.contains_key(other) ==> final(cache)@.entries[other]
            == old(cache)@.entries[other],
{
}

/// What a principal is found by is the scope, the mechanism, its name and the digest of its secret:
/// two keys are the same exactly when all four are.
pub proof fn keys_tell_credentials_apart<U: Clone>(
    scope: Option<&str>,
    mechanism: &'static str,
    principal: &str,
    secret: &str,
    key: CacheKey,
    other_scope: Option<&str>,
    other_mechanism: &'static str,
    other_principal: &str,
    other_secret: &str,
    other: CacheKey,
)
    requires
        call_ensures(CredentialCache::<U>::key, (scope, mechanism, principal, secret), key),
        call_ensures(
            CredentialCache::<U>::key,
            (other_scope, other_mechanism, other_principal, other_secret),
            other,
        ),
    ensures
        (key@ == other@) == ({
            &&& text::optional_str(scope) == text::optional_str(other_scope)
            &&& mechanism@ == other_mechanism@
            &&& principal@ == other_principal@
            &&& blake3_digest(vstd::utf8::encode_utf8(secret@)) == blake3_digest(
                vstd::utf8::encode_utf8(other_secret@),
            )
        }),
{
}

/// A new cache holds nothing, and no cache holds more than its cap.
pub proof fn cache_starts_empty_and_stays_within_its_cap<U: Clone>(
    config: CacheConfig,
    fresh: CredentialCache<U>,
    cache: CredentialCache<U>,
    len: usize,
    empty: bool,
    key: KeyView,
)
    requires
        call_ensures(CredentialCache::<U>::new, (config,), fresh),
        call_ensures(CredentialCache::<U>::len, (&cache,), len),
        call_ensures(CredentialCache::<U>::is_empty, (&cache,), empty),
    ensures
        !fresh@.entries.contains_key(key),
        fresh@.config == config,
        len <= cache@.config.max_entries,
        empty == (len == 0),
        cache@.entries.contains_key(key) ==> len > 0,
{
    if cache@.entries.contains_key(key) {
        assert(cache@.entries.dom().contains(key));
    }
}

/// Expired entries are given up first: as long as there is one, an insertion costs no other entry
/// its place.
pub proof fn expired_entries_go_first<U>(
    before: CacheView<U>,
    key: KeyView,
    value: U,
    expires_in: Option<nat>,
    now: nat,
    after: CacheView<U>,
    expired: KeyView,
    alive: KeyView,
)
    requires
        before.entries.dom().finite(),
        before.entries.dom().len() <= before.config.max_entries,
        before.stores(key, value, expires_in, now, after),
        before.entries.contains_key(expired) && before.entries[expired].expires_at <= now,
        before.entries.contains_key(alive) && before.entries[alive].expires_at > now,
    ensures
        after.entries.contains_key(alive),
{
    let left = live(before.entries, now);
    assert(left.dom().subset_of(before.entries.dom().remove(expired)));
    vstd::set_lib::lemma_len_subset(left.dom(), before.entries.dom().remove(expired));
    assert(left.contains_key(alive));
}

/// No insertion costs more than one unexpired entry its place.
pub proof fn at_most_one_entry_is_evicted<U>(
    before: CacheView<U>,
    key: KeyView,
    value: U,
    expires_in: Option<nat>,
    now: nat,
    after: CacheView<U>,
    one: KeyView,
    other: KeyView,
)
    requires
        before.stores(key, value, expires_in, now, after),
        before.entries.contains_key(one) && before.entries[one].expires_at > now,
        before.entries.contains_key(other) && before.entries[other].expires_at > now,
        one != other,
    ensures
        after.entries.contains_key(one) || after.entries.contains_key(other),
{
    assert(live(before.entries, now).contains_key(one));
    assert(live(before.entries, now).contains_key(other));
}

/// Unless it is told otherwise, a cache keeps up to ten thousand principals, gives one up half a
/// minute before it expires, and keeps one without an expiry for a minute.
pub proof fn limits_are_these_by_default<U: Clone>(
    config: CacheConfig,
    cache: CredentialCache<U>,
    key: KeyView,
)
    requires
        call_ensures(<CacheConfig as Default>::default, (), config),
        call_ensures(<CredentialCache<U> as Default>::default, (), cache),
    ensures
        config.refresh_margin@ == 30 * 1_000_000_000 && config.fallback_ttl@ == 60 * 1_000_000_000
            && config.max_entries == 10_000,
        cache@.config.refresh_margin@ == 30 * 1_000_000_000,
        cache@.config.fallback_ttl@ == 60 * 1_000_000_000,
        cache@.config.max_entries == 10_000,
        !cache@.entries.contains_key(key),
{
}

} // verus!
