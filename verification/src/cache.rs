use vstd::prelude::*;

use crate::element::{copy_element, same_element};
use crate::types::{BackendKind, UiElement};

verus! {

/// A semantic tree as a backend reported it.
#[derive(Debug, Clone, PartialEq, Eq)]
pub struct AccessibilityTreeMetadata {
    pub backend_name: String,
    pub backend_kind: BackendKind,
    pub elements: Vec<UiElement>,
    pub warnings: Vec<String>,
}

/// Two trees hold the same values.
pub open spec fn same_metadata(a: AccessibilityTreeMetadata, b: AccessibilityTreeMetadata) -> bool {
    &&& a.backend_name == b.backend_name
    &&& a.backend_kind == b.backend_kind
    &&& a.elements@.len() == b.elements@.len()
    &&& forall|i: int| 0 <= i < a.elements@.len() ==> same_element(#[trigger] a.elements@[i], b.elements@[i])
    &&& a.warnings@ == b.warnings@
}

fn copy_texts(v: &Vec<String>) -> (r: Vec<String>)
    ensures
        r@ == v@,
{
    let mut r: Vec<String> = Vec::new();
    let mut i: usize = 0;
    while i < v.len()
        invariant
            i <= v@.len(),
            r@ == v@.subrange(0, i as int),
        decreases v@.len() - i,
    {
        r.push(v[i].clone());
        assert(v@.subrange(0, i + 1) =~= v@.subrange(0, i as int).push(v@[i as int]));
        i = i + 1;
    }
    assert(v@.subrange(0, v@.len() as int) =~= v@);
    r
}

/// A copy of a tree that holds the same values.
pub fn copy_metadata(m: &AccessibilityTreeMetadata) -> (r: AccessibilityTreeMetadata)
    ensures
        same_metadata(r, *m),
{
    let mut elements: Vec<UiElement> = Vec::new();
    let mut i: usize = 0;
    while i < m.elements.len()
        invariant
            i <= m.elements@.len(),
            elements@.len() == i,
            forall|j: int| 0 <= j < i ==> same_element(#[trigger] elements@[j], m.elements@[j]),
        decreases m.elements@.len() - i,
    {
        elements.push(copy_element(&m.elements[i]));
        i = i + 1;
    }
    AccessibilityTreeMetadata {
        backend_name: m.backend_name.clone(),
        backend_kind: m.backend_kind,
        elements,
        warnings: copy_texts(&m.warnings),
    }
}

/// A tree kept in the cache, and when it was read (nanoseconds on the
/// caller's monotonic clock).
#[derive(Debug, Clone)]
pub struct AccessibilityCacheSnapshot {
    pub loaded_at_nanos: u128,
    pub metadata: AccessibilityTreeMetadata,
}

/// A tree handed out by the cache: whether it came from the cache, and how
/// old it is in whole milliseconds.
#[derive(Debug, Clone)]
pub struct CachedAccessibilityTree {
    pub metadata: AccessibilityTreeMetadata,
    pub cache_hit: bool,
    pub age_ms: u128,
}

/// The last semantic tree read, kept for `ttl_nanos` nanoseconds.
#[derive(Debug)]
pub struct AccessibilityCache {
    pub ttl_nanos: u128,
    pub snapshot: Option<AccessibilityCacheSnapshot>,
}

/// How long ago `then` was at `now`; zero when the clock reads earlier.
pub open spec fn elapsed(then: u128, now: u128) -> u128 {
    if now >= then {
        (now - then) as u128
    } else {
        0
    }
}

/// The age in milliseconds of the cached tree at `now`, if there is one
/// and it is not older than the cache's lifetime.
pub open spec fn spec_fresh_age(c: AccessibilityCache, now: u128) -> Option<u128> {
    match c.snapshot {
        Some(s) => if elapsed(s.loaded_at_nanos, now) > c.ttl_nanos {
            None
        } else {
            Some(elapsed(s.loaded_at_nanos, now) / 1_000_000)
        },
        None => None,
    }
}

impl AccessibilityCache {
    /// An empty cache whose trees stay fresh for `ttl_nanos` nanoseconds.
    pub fn new(ttl_nanos: u128) -> (c: Self)
        ensures
            c.ttl_nanos == ttl_nanos,
            c.snapshot is None,
    {
        AccessibilityCache { ttl_nanos, snapshot: None }
    }

    /// The cached tree at `now`, unless there is none or it has grown older
    /// than the lifetime (see [`spec_fresh_age`]).
    pub fn fresh(&self, now_nanos: u128) -> (r: Option<CachedAccessibilityTree>)
        ensures
            match spec_fresh_age(*self, now_nanos) {
                Some(age) => r matches Some(t) && t.cache_hit && t.age_ms == age && same_metadata(
                    t.metadata,
                    self.snapshot->0.metadata,
                ),
                None => r is None,
            },
    {
        match &self.snapshot {
            Some(s) => {
                let age: u128 = if now_nanos >= s.loaded_at_nanos {
                    now_nanos - s.loaded_at_nanos
                } else {
                    0
                };
                if age > self.ttl_nanos {
                    return None;
                }
                Some(
                    CachedAccessibilityTree {
                        metadata: copy_metadata(&s.metadata),
                        cache_hit: true,
                        age_ms: age / 1_000_000,
                    },
                )
            },
            None => None,
        }
    }

    /// Keeps a freshly read tree, read at `now`, and hands it back as a miss.
    pub fn store(&mut self, metadata: AccessibilityTreeMetadata, now_nanos: u128) -> (r:
        CachedAccessibilityTree)
        ensures
            final(self).ttl_nanos == old(self).ttl_nanos,
            final(self).snapshot matches Some(s) && s.loaded_at_nanos == now_nanos && same_metadata(
                s.metadata,
                metadata,
            ),
            r.metadata == metadata,
            !r.cache_hit,
            r.age_ms == 0,
    {
        self.snapshot = Some(
            AccessibilityCacheSnapshot { loaded_at_nanos: now_nanos, metadata: copy_metadata(&metadata) },
        );
        CachedAccessibilityTree { metadata, cache_hit: false, age_ms: 0 }
    }

    /// Drops the cached tree; says whether there was one.
    pub fn invalidate(&mut self) -> (had: bool)
        ensures
            had == old(self).snapshot is Some,
            final(self).snapshot is None,
            final(self).ttl_nanos == old(self).ttl_nanos,
    {
        let had = self.snapshot.is_some();
        self.snapshot = None;
        had
    }
}

/// A stored tree stays fresh for the cache's lifetime, aging by the clock.
pub proof fn lemma_stored_tree_fresh_within_ttl(c: AccessibilityCache, stored_at: u128, now: u128)
    requires
        c.snapshot matches Some(s) && s.loaded_at_nanos == stored_at,
        stored_at <= now <= stored_at + c.ttl_nanos,
    ensures
        spec_fresh_age(c, now) == Some(((now - stored_at) / 1_000_000) as u128),
{
}

/// A stored tree is stale once more than the cache's lifetime has passed.
pub proof fn lemma_stored_tree_expires(c: AccessibilityCache, stored_at: u128, now: u128)
    requires
        c.snapshot matches Some(s) && s.loaded_at_nanos == stored_at,
        now > stored_at + c.ttl_nanos,
    ensures
        spec_fresh_age(c, now) is None,
{
}

/// An emptied cache has nothing fresh, at any time.
pub proof fn lemma_invalidated_cache_is_stale(c: AccessibilityCache, now: u128)
    requires
        c.snapshot is None,
    ensures
        spec_fresh_age(c, now) is None,
{
}

} // verus!
