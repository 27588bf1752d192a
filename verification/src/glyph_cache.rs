//! The rendered-glyph cache: a weighted least-recently-used cache bounded
//! by the total byte length of the cached coverage buffers, not by entry
//! count.
//!
//! The cache is modelled as an association sequence in recency order (see
//! [`crate::assoc`]): index 0 is the least recently used entry.  A lookup
//! promotes the touched entry to the most-recently-used end; an insertion
//! evicts least-recently-used entries until the new entry's weight fits the
//! remaining budget, and is rejected outright when that weight exceeds the
//! whole capacity.

use crate::assoc::{
    distinct_keys, has_key, key_at, lemma_drop_first_no_key, lemma_key_at, lemma_promote,
    lemma_push_fresh, lookup, promote,
};
use crate::glyph::{GlyphCacheKey, RenderableVectorGlyph};
use vstd::prelude::*;

verus! {

/// One resident cache entry: a key and the artifact stored under it.
pub type GlyphEntry = (GlyphCacheKey, RenderableVectorGlyph);

/// The sum of the weights (coverage-buffer byte lengths) of all entries.
pub open spec fn total_weight(s: Seq<GlyphEntry>) -> int
    decreases s.len(),
{
    if s.len() == 0 {
        0
    } else {
        total_weight(s.drop_last()) + s.last().1.weight()
    }
}

/// Every resident artifact is well formed.
pub open spec fn glyphs_wf(s: Seq<GlyphEntry>) -> bool {
    forall|i: int| 0 <= i < s.len() ==> (#[trigger] s[i]).1.wf()
}

/// The entries that stay resident when an insertion needs `budget` bytes of
/// weight to remain free: least-recently-used entries leave, in recency
/// order, until the rest weighs no more than the budget.
pub open spec fn evict_to_fit(s: Seq<GlyphEntry>, budget: int) -> Seq<GlyphEntry>
    decreases s.len(),
{
    if total_weight(s) <= budget {
        s
    } else if s.len() == 0 {
        s
    } else {
        evict_to_fit(s.drop_first(), budget)
    }
}

pub proof fn lemma_total_weight_nonneg(s: Seq<GlyphEntry>)
    ensures
        total_weight(s) >= 0,
    decreases s.len(),
{
    if s.len() > 0 {
        lemma_total_weight_nonneg(s.drop_last());
    }
}

pub proof fn lemma_total_weight_push(s: Seq<GlyphEntry>, e: GlyphEntry)
    ensures
        total_weight(s.push(e)) == total_weight(s) + e.1.weight(),
{
    assert(s.push(e).drop_last() =~= s);
    assert(s.push(e).last() == e);
}

pub proof fn lemma_total_weight_remove(s: Seq<GlyphEntry>, i: int)
    requires
        0 <= i < s.len(),
    ensures
        total_weight(s.remove(i)) == total_weight(s) - s[i].1.weight(),
    decreases s.len(),
{
    s.remove_ensures(i);
    if i == s.len() - 1 {
        assert(s.remove(i) =~= s.drop_last());
    } else {
        let t = s.remove(i);
        assert(t.drop_last() =~= s.drop_last().remove(i)) by {
            s.drop_last().remove_ensures(i);
        }
        assert(t.last() == s[s.len() - 1]);
        lemma_total_weight_remove(s.drop_last(), i);
        assert(s.drop_last()[i] == s[i]);
    }
}

/// The first (least recently used) entry carries its share of the total.
pub proof fn lemma_total_weight_first(s: Seq<GlyphEntry>)
    requires
        s.len() > 0,
    ensures
        total_weight(s) == s[0].1.weight() + total_weight(s.drop_first()),
{
    lemma_total_weight_remove(s, 0);
    assert(s.remove(0) =~= s.drop_first());
}

pub proof fn lemma_glyphs_wf_remove(s: Seq<GlyphEntry>, i: int)
    requires
        glyphs_wf(s),
        0 <= i < s.len(),
    ensures
        glyphs_wf(s.remove(i)),
{
    s.remove_ensures(i);
    assert forall|j: int| 0 <= j < s.remove(i).len() implies (#[trigger] s.remove(i)[j]).1.wf() by {
        if j < i {
            assert(s.remove(i)[j] == s[j]);
        } else {
            assert(s.remove(i)[j] == s[j + 1]);
        }
    }
}

pub proof fn lemma_glyphs_wf_push(s: Seq<GlyphEntry>, e: GlyphEntry)
    requires
        glyphs_wf(s),
        e.1.wf(),
    ensures
        glyphs_wf(s.push(e)),
{
    assert forall|j: int| 0 <= j < s.push(e).len() implies (#[trigger] s.push(e)[j]).1.wf() by {
        if j < s.len() {
            assert(s.push(e)[j] == s[j]);
        } else {
            assert(s.push(e)[j] == e);
        }
    }
}

/// Eviction only ever removes the least-recently-used entries, and no more
/// of them than the budget demands: what stays resident is a suffix of the
/// recency order — never a selection from the middle — and unless nothing
/// was evicted, keeping one entry more would still exceed the budget.
pub proof fn lemma_eviction_removes_least_recent(s: Seq<GlyphEntry>, budget: int)
    ensures
        exists|n: int|
            {
                &&& 0 <= n <= s.len()
                &&& evict_to_fit(s, budget) == #[trigger] s.skip(n)
                &&& n > 0 ==> total_weight(s.skip(n - 1)) > budget
            },
    decreases s.len(),
{
    if total_weight(s) <= budget || s.len() == 0 {
        assert(s.skip(0) =~= s);
        assert(evict_to_fit(s, budget) == s.skip(0));
    } else {
        lemma_eviction_removes_least_recent(s.drop_first(), budget);
        let n = choose|n: int|
            {
                &&& 0 <= n <= s.drop_first().len()
                &&& evict_to_fit(s.drop_first(), budget) == #[trigger] s.drop_first().skip(n)
                &&& n > 0 ==> total_weight(s.drop_first().skip(n - 1)) > budget
            };
        assert(s.drop_first().skip(n) =~= s.skip(n + 1));
        assert(evict_to_fit(s, budget) == s.skip(n + 1));
        if n > 0 {
            assert(s.drop_first().skip(n - 1) =~= s.skip(n));
        } else {
            assert(s.skip(0) =~= s);
        }
        assert(total_weight(s.skip(n + 1 - 1)) > budget);
    }
}

/// A weight-zero artifact (such as a zero-size space glyph) never causes an
/// eviction: inserting it leaves every resident entry in place.
pub proof fn lemma_zero_weight_insert(s: Seq<GlyphEntry>, cap: int, glyph: RenderableVectorGlyph)
    requires
        total_weight(s) <= cap,
        glyph.weight() == 0,
    ensures
        evict_to_fit(s, cap - glyph.weight()) == s,
{
}

/// Memoization of rendering: while an entry stays resident, a further
/// lookup of its key returns exactly the stored artifact — the same metrics
/// and the same coverage bytes — and keeps it resident.
pub proof fn lemma_repeated_lookup_identical(s: Seq<GlyphEntry>, key: GlyphCacheKey)
    requires
        distinct_keys(s),
        has_key(s, key),
    ensures
        has_key(promote(s, key), key),
        lookup(promote(s, key), key) == lookup(s, key),
{
    lemma_promote(s, key);
}

/// Key independence: distinct keys — for example the same glyph of the same
/// font at two different pixel sizes — have independent entries.  An access
/// to one key neither removes nor changes the artifact stored under the
/// other, and a fresh insertion leaves every other key's artifact unchanged.
pub proof fn lemma_key_independence(
    s: Seq<GlyphEntry>,
    k1: GlyphCacheKey,
    k2: GlyphCacheKey,
    glyph: RenderableVectorGlyph,
)
    requires
        distinct_keys(s),
        k1 != k2,
        has_key(s, k2),
    ensures
        has_key(s, k1) ==> has_key(promote(s, k1), k2) && lookup(promote(s, k1), k2)
            == lookup(s, k2),
        !has_key(s, k1) ==> has_key(s.push((k1, glyph)), k2) && lookup(s.push((k1, glyph)), k2)
            == lookup(s, k2),
{
    if has_key(s, k1) {
        lemma_promote(s, k1);
    } else {
        lemma_push_fresh(s, k1, glyph);
    }
}

/// The weighted least-recently-used cache of rendered glyphs.
///
/// The view of a cache is its entry sequence in recency order.  The
/// well-formedness invariant `wf` — keys distinct, artifacts well formed,
/// and the total resident weight within the configured capacity — is
/// established by the constructor and preserved by every operation: after
/// any sequence of lookups and insertions the resident coverage bytes never
/// exceed the capacity.
pub struct GlyphCache {
    entries: Vec<GlyphEntry>,
    capacity: usize,
    weight: usize,
}

impl View for GlyphCache {
    type V = Seq<GlyphEntry>;

    closed spec fn view(&self) -> Seq<GlyphEntry> {
        self.entries@
    }
}

impl GlyphCache {
    /// The configured total byte-weight capacity.
    pub closed spec fn spec_capacity(self) -> int {
        self.capacity as int
    }

    /// Internal bookkeeping: the running weight equals the model's total.
    closed spec fn inv(self) -> bool {
        self.weight == total_weight(self.entries@)
    }

    /// Well-formedness of the cache.
    pub closed spec fn wf(self) -> bool {
        &&& self.inv()
        &&& distinct_keys(self@)
        &&& glyphs_wf(self@)
        &&& total_weight(self@) <= self.spec_capacity()
    }

    /// `wf` seen from outside: what it guarantees of the model.
    pub proof fn lemma_wf(self)
        requires
            self.wf(),
        ensures
            distinct_keys(self@),
            glyphs_wf(self@),
            total_weight(self@) <= self.spec_capacity(),
    {
    }

    /// Creates an empty cache bounded by `capacity` bytes of coverage data.
    pub fn new(capacity: usize) -> (c: GlyphCache)
        ensures
            c.wf(),
            c@ == Seq::<GlyphEntry>::empty(),
            c.spec_capacity() == capacity,
    {
        GlyphCache { entries: Vec::new(), capacity, weight: 0 }
    }

    /// The configured capacity.
    pub fn capacity(&self) -> (r: usize)
        ensures
            r == self.spec_capacity(),
    {
        self.capacity
    }

    /// The number of resident entries.
    pub fn len(&self) -> (r: usize)
        ensures
            r == self@.len(),
    {
        self.entries.len()
    }

    /// The summed weight of the resident entries.
    pub fn used_weight(&self) -> (r: usize)
        requires
            self.wf(),
        ensures
            r == total_weight(self@),
    {
        self.weight
    }

    /// The index of the entry carrying `key`, if any.
    fn position_of(&self, key: GlyphCacheKey) -> (r: Option<usize>)
        ensures
            match r {
                Some(i) => i < self@.len() && self@[i as int].0 == key,
                None => !has_key(self@, key),
            },
    {
        let n = self.entries.len();
        let mut i: usize = 0;
        while i < n
            invariant
                i <= n,
                n == self@.len(),
                forall|j: int| 0 <= j < i ==> (#[trigger] self@[j]).0 != key,
            decreases n - i,
        {
            if self.entries[i].0 == key {
                return Some(i);
            }
            i = i + 1;
        }
        None
    }

    /// Looks `key` up.  On a hit the stored artifact is returned as a
    /// shared-buffer clone and the entry becomes the most recently used
    /// one; on a miss nothing changes.
    pub fn get(&mut self, key: GlyphCacheKey) -> (r: Option<RenderableVectorGlyph>)
        requires
            old(self).wf(),
        ensures
            final(self).wf(),
            final(self).spec_capacity() == old(self).spec_capacity(),
            total_weight(final(self)@) <= final(self).spec_capacity(),
            has_key(old(self)@, key) ==> r == Some(lookup(old(self)@, key)) && final(self)@
                == promote(old(self)@, key),
            !has_key(old(self)@, key) ==> r is None && final(self)@ == old(self)@,
    {
        match self.position_of(key) {
            Some(i) => {
                proof {
                    assert(has_key(self@, key));
                    lemma_key_at(self@, key);
                    assert(i == key_at(self@, key));
                    lemma_promote(self@, key);
                    lemma_total_weight_remove(self@, i as int);
                    lemma_total_weight_push(self@.remove(i as int), self@[i as int]);
                    lemma_glyphs_wf_remove(self@, i as int);
                    lemma_glyphs_wf_push(self@.remove(i as int), self@[i as int]);
                }
                let e = self.entries.remove(i);
                let g = e.1.clone();
                self.entries.push(e);
                Some(g)
            },
            None => None,
        }
    }

    /// Inserts a freshly rendered artifact under a key that is not yet
    /// resident.  When the artifact alone outweighs the whole capacity the
    /// cache stays untouched and the insertion reports failure; otherwise
    /// least-recently-used entries are evicted, in order, until the
    /// artifact fits, and it becomes the most recently used entry.
    pub fn put(&mut self, key: GlyphCacheKey, glyph: RenderableVectorGlyph) -> (accepted: bool)
        requires
            old(self).wf(),
            glyph.wf(),
            !has_key(old(self)@, key),
        ensures
            final(self).wf(),
            final(self).spec_capacity() == old(self).spec_capacity(),
            total_weight(final(self)@) <= final(self).spec_capacity(),
            glyph.weight() > old(self).spec_capacity() ==> !accepted && final(self)@ == old(
                self,
            )@,
            glyph.weight() <= old(self).spec_capacity() ==> accepted && final(self)@
                == evict_to_fit(old(self)@, old(self).spec_capacity() - glyph.weight()).push(
                (key, glyph),
            ),
            accepted ==> has_key(final(self)@, key) && lookup(final(self)@, key) == glyph,
    {
        let w = glyph.alpha_map.len();
        if w > self.capacity {
            return false;
        }
        let ghost s0 = self.entries@;
        let ghost budget: int = self.spec_capacity() - w;
        while self.weight > self.capacity - w
            invariant
                self.capacity == old(self).capacity,
                w == glyph.weight(),
                w <= self.capacity,
                self.inv(),
                distinct_keys(self.entries@),
                glyphs_wf(self.entries@),
                !has_key(self.entries@, key),
                budget == self.capacity - w,
                evict_to_fit(self.entries@, budget) == evict_to_fit(s0, budget),
            decreases self.entries.len(),
        {
            let ghost prev = self.entries@;
            proof {
                if prev.len() == 0 {
                    assert(total_weight(prev) == 0);
                }
                lemma_total_weight_first(prev);
                lemma_total_weight_nonneg(prev.drop_first());
                lemma_drop_first_no_key(prev, key);
                lemma_glyphs_wf_remove(prev, 0);
                assert(prev.remove(0) =~= prev.drop_first());
            }
            let e = self.entries.remove(0);
            let ew = e.1.alpha_map.len();
            self.weight = self.weight - ew;
        }
        proof {
            assert(evict_to_fit(self.entries@, budget) == self.entries@);
            lemma_total_weight_push(self.entries@, (key, glyph));
            lemma_push_fresh(self.entries@, key, glyph);
            lemma_glyphs_wf_push(self.entries@, (key, glyph));
        }
        self.entries.push((key, glyph));
        self.weight = self.weight + w;
        true
    }
}

} // verus!
