//! The parsed-font cache: memoizes the expensive "compile raw font bytes
//! into a rasterizer-ready structure" step.
//!
//! Parsing is size-independent, so the cache is keyed by (blob identity,
//! sub-font index) alone and is a pure memoization table: it only ever
//! grows, and for a fixed key every caller observes a reference to the same
//! underlying parsed font.

use crate::assoc::{distinct_keys, has_key, key_at, lemma_key_at, lemma_push_fresh, lookup};
use crate::blob::FontBlob;
use crate::sfnt::{name_table_neutralized, neutralize_name_tables, spec_neutralize};
use std::rc::Rc;
use vstd::prelude::*;

verus! {

/// Declares fontdue's parsed-font type so that shared handles to it can
/// stand in fields and signatures.  The type stays opaque: everything the
/// cache states about a parsed font is that it is the same object.
#[verifier::external_type_specification]
#[verifier::external_body]
pub struct ExFontdueFont(fontdue::Font);

/// Whether fontdue can parse the given bytes as a font collection at the
/// given sub-font index.  Parsing is deterministic: success depends on the
/// bytes and the index alone.
pub uninterp spec fn font_parse_ok(data: Seq<u8>, index: u32) -> bool;

/// Relies on fontdue::Font::from_bytes: compiles raw font bytes into a
/// rasterizer-ready font for the given collection index, with fontdue's
/// default settings, and reports an error exactly on data it cannot parse.
/// The requires keeps fontdue's name-string decoding — the one unchecked
/// read in its parse path, which indexes past a name record of odd length
/// or one ending in an unpaired surrogate — from ever running: with no
/// "name" record the face parser hands fontdue no name strings, and every
/// other read in the path is bounds-checked (the face parser returns
/// errors, fontdue's own table streams return Options).
#[verifier::external_body]
fn parse_font_bytes(data: &Vec<u8>, index: u32) -> (r: Option<Rc<fontdue::Font>>)
    requires
        name_table_neutralized(data@, index),
    ensures
        r is Some <==> font_parse_ok(data@, index),
{
    let settings = fontdue::FontSettings { collection_index: index, ..Default::default() };
    fontdue::Font::from_bytes(data.as_slice(), settings).ok().map(Rc::new)
}

/// The key of a parsed font: which registered binary, and which sub-font
/// inside the collection.  The same blob parsed at two indices yields two
/// independent entries.
#[derive(Clone, Copy, PartialEq, Eq, Hash, Structural, Debug)]
pub struct ParsedFontCacheKey {
    pub blob_id: u64,
    pub font_index: u32,
}

/// One cached parsed font.
pub type ParsedFontEntry = (ParsedFontCacheKey, Rc<fontdue::Font>);

/// The memoization table from key to shared parsed font, in insertion
/// order.  It never evicts: parsed fonts are small and finite in number,
/// unlike rasterized bitmaps.
pub struct ParsedFontCache {
    entries: Vec<ParsedFontEntry>,
}

impl View for ParsedFontCache {
    type V = Seq<ParsedFontEntry>;

    closed spec fn view(&self) -> Seq<ParsedFontEntry> {
        self.entries@
    }
}

impl ParsedFontCache {
    /// Well-formedness: no key occurs twice.
    pub open spec fn wf(self) -> bool {
        distinct_keys(self@)
    }

    /// Creates an empty table.
    pub fn new() -> (c: ParsedFontCache)
        ensures
            c.wf(),
            c@ == Seq::<ParsedFontEntry>::empty(),
    {
        ParsedFontCache { entries: Vec::new() }
    }

    /// The number of fonts parsed so far.
    pub fn len(&self) -> (r: usize)
        ensures
            r == self@.len(),
    {
        self.entries.len()
    }

    /// The index of the entry carrying `key`, if any.
    fn position_of(&self, key: ParsedFontCacheKey) -> (r: Option<usize>)
        ensures
            match r {
                Some(i) => i < self@.len() && self@[i as int].0 == key,
                None => !has_key(self@, key),
            },
    {
        let n = self.entries.len();
        let mut i: usize = 0;
        while i < n
            invariant
                i <= n,
                n == self@.len(),
                forall|j: int| 0 <= j < i ==> (#[trigger] self@[j]).0 != key,
            decreases n - i,
        {
            if self.entries[i].0 == key {
                return Some(i);
            }
            i = i + 1;
        }
        None
    }
}

/// Returns the parsed font for (blob identity, sub-font index), parsing the
/// blob's bytes at most once per key: on a hit the already-parsed font is
/// returned as a new shared reference and the cache stays unchanged; on a
/// miss the bytes are parsed — with their "name" records neutralized
/// first, so that fontdue's unchecked name-string decoding never runs (see
/// [`crate::sfnt`]) — and on success the result is memoized.  Returns
/// `None` exactly when the key is absent and fontdue cannot parse the
/// neutralized bytes at that index.
pub fn get_or_create_fontdue_font(cache: &mut ParsedFontCache, blob: &FontBlob, index: u32) -> (r:
    Option<Rc<fontdue::Font>>)
    requires
        old(cache).wf(),
    ensures
        final(cache).wf(),
        ({
            let k = ParsedFontCacheKey { blob_id: blob.id, font_index: index };
            &&& has_key(old(cache)@, k) ==> r == Some(lookup(old(cache)@, k)) && final(cache)@
                == old(cache)@
            &&& !has_key(old(cache)@, k) ==> {
                &&& r is Some <==> font_parse_ok(spec_neutralize(blob.data@, index), index)
                &&& match r {
                    Some(f) => final(cache)@ == old(cache)@.push((k, f)),
                    None => final(cache)@ == old(cache)@,
                }
            }
        }),
{
    let key = ParsedFontCacheKey { blob_id: blob.id, font_index: index };
    match cache.position_of(key) {
        Some(i) => {
            proof {
                assert(has_key(cache@, key));
                lemma_key_at(cache@, key);
                assert(i == key_at(cache@, key));
            }
            Some(cache.entries[i].1.clone())
        },
        None => {
            let neutralized = neutralize_name_tables(&blob.data, index);
            match parse_font_bytes(&neutralized, index) {
                Some(font) => {
                    proof {
                        lemma_push_fresh(cache@, key, font);
                    }
                    cache.entries.push((key, font.clone()));
                    Some(font)
                },
                None => None,
            }
        },
    }
}

/// Memoization of parsing: once a parsed font is stored under a key, it is
/// the entry every later lookup of that key observes — the same shared
/// object, so the parse work happens at most once per distinct key.
pub proof fn lemma_parse_memoization(s: Seq<ParsedFontEntry>, k: ParsedFontCacheKey, f: Rc<
    fontdue::Font,
>)
    requires
        distinct_keys(s),
        !has_key(s, k),
    ensures
        distinct_keys(s.push((k, f))),
        has_key(s.push((k, f)), k),
        lookup(s.push((k, f)), k) == f,
{
    lemma_push_fresh(s, k, f);
}

/// Sub-font independence: two keys that differ — the same blob at two
/// collection indices, or two blobs — occupy independent entries, and
/// memoizing one leaves what the other maps to untouched.
pub proof fn lemma_subfont_independence(
    s: Seq<ParsedFontEntry>,
    k1: ParsedFontCacheKey,
    k2: ParsedFontCacheKey,
    f: Rc<fontdue::Font>,
)
    requires
        distinct_keys(s),
        k1 != k2,
        !has_key(s, k1),
        has_key(s, k2),
    ensures
        has_key(s.push((k1, f)), k2),
        lookup(s.push((k1, f)), k2) == lookup(s, k2),
        lookup(s.push((k1, f)), k1) == f,
{
    lemma_push_fresh(s, k1, f);
}

} // verus!
