use vstd::prelude::*;

use std::collections::hash_map::DefaultHasher;
use std::hash::Hasher;
use vstd::bytes::{spec_u32_to_le_bytes, spec_u64_to_le_bytes, u32_to_le_bytes, u64_to_le_bytes};
use vstd::std_specs::hash::DefaultHasherAdditionalSpecFns;

verus! {

/// The length prefix that hashing a byte slice writes before the bytes: the
/// length as a `usize`, in little-endian byte order.
pub open spec fn spec_length_prefix(len: usize) -> Seq<u8> {
    if usize::BITS == 64 {
        spec_u64_to_le_bytes(len as u64)
    } else {
        spec_u32_to_le_bytes(len as u32)
    }
}

/// A font's identity: the hash of its bytes, written as a slice is hashed
/// (length prefix, then the bytes), and their length.
pub open spec fn spec_font_key(bytes: Seq<u8>) -> (u64, usize) {
    (DefaultHasher::spec_finish(seq![spec_length_prefix(bytes.len() as usize), bytes]), bytes.len() as usize)
}

/// Computes a font's identity from its bytes.
pub fn font_key(bytes: &[u8]) -> (key: (u64, usize))
    ensures
        key == spec_font_key(bytes@),
{
    let len = bytes.len();
    let prefix: Vec<u8> = if usize::BITS == 64 {
        u64_to_le_bytes(len as u64)
    } else {
        u32_to_le_bytes(len as u32)
    };
    let mut hasher = DefaultHasher::new();
    hasher.write(prefix.as_slice());
    hasher.write(bytes);
    let h = hasher.finish();
    proof {
        assert(prefix@ == spec_length_prefix(len));
        assert(seq![spec_length_prefix(len), bytes@] =~= Seq::<Seq<u8>>::empty().push(prefix@).push(bytes@));
    }
    (h, len)
}

/// The fonts registered so far, each once.
pub struct FontRegistry {
    keys: Vec<(u64, usize)>,
}

/// No key occurs twice.
pub open spec fn distinct_keys(keys: Seq<(u64, usize)>) -> bool {
    forall|i: int, j: int| 0 <= i < keys.len() && 0 <= j < keys.len() && i != j ==> keys[i] != keys[j]
}

impl View for FontRegistry {
    type V = Seq<(u64, usize)>;

    /// The registered keys, in registration order.
    closed spec fn view(&self) -> Seq<(u64, usize)> {
        self.keys@
    }
}

/// The registered keys after registering `key`, and whether it was new.
pub open spec fn spec_register(keys: Seq<(u64, usize)>, key: (u64, usize)) -> (Seq<(u64, usize)>, bool) {
    if keys.contains(key) {
        (keys, false)
    } else {
        (keys.push(key), true)
    }
}

impl FontRegistry {
    /// Every key is registered at most once.
    #[verifier::type_invariant]
    spec fn keys_are_distinct(self) -> bool {
        distinct_keys(self.keys@)
    }

    pub fn new() -> (r: Self)
        ensures
            r@ == Seq::<(u64, usize)>::empty(),
    {
        FontRegistry { keys: Vec::new() }
    }

    /// Whether `key` is registered.
    pub fn contains(&self, key: (u64, usize)) -> (r: bool)
        ensures
            r == self@.contains(key),
    {
        let mut i: usize = 0;
        while i < self.keys.len()
            invariant
                0 <= i <= self.keys@.len(),
                forall|j: int| 0 <= j < i ==> self.keys@[j] != key,
            decreases self.keys@.len() - i,
        {
            let k = self.keys[i];
            if k.0 == key.0 && k.1 == key.1 {
                assert(self.keys@[i as int] == key);
                return true;
            }
            i = i + 1;
        }
        false
    }

    /// Registers `key`; the result says whether it was new.
    pub fn register(&mut self, key: (u64, usize)) -> (is_new: bool)
        ensures
            (final(self)@, is_new) == spec_register(old(self)@, key),
            distinct_keys(final(self)@),
    {
        proof {
            use_type_invariant(&*self);
            lemma_register_once(self.keys@, key);
        }
        if self.contains(key) {
            false
        } else {
            let mut keys: Vec<(u64, usize)> = Vec::new();
            std::mem::swap(&mut keys, &mut self.keys);
            keys.push(key);
            self.keys = keys;
            true
        }
    }
}

/// Trusted: `repose_text::register_font_data` adds the faces found in `bytes`
/// to the process-wide font collection. It returns nothing, and what it does
/// to the collection is not modelled here.
pub assume_specification[ repose_text::register_font_data ](bytes: &[u8]);

/// Registers a font with the text system the first time its bytes are seen;
/// later calls with the same bytes do nothing.
///
/// The result is the promise that the bytes reached the text system: the call
/// to `repose_text::register_font_data` is made exactly when `loaded` is true,
/// and nothing else in this contract speaks of that call.
pub fn register_font_once(registry: &mut FontRegistry, bytes: &[u8]) -> (loaded: bool)
    ensures
        (final(registry)@, loaded) == spec_register(old(registry)@, spec_font_key(bytes@)),
        distinct_keys(final(registry)@),
{
    let key = font_key(bytes);
    let is_new = registry.register(key);
    if is_new {
        repose_text::register_font_data(bytes);
    }
    is_new
}

/// Registration keeps every key once, and registering the same key again
/// changes nothing and reports it as known.
pub proof fn lemma_register_once(keys: Seq<(u64, usize)>, key: (u64, usize))
    requires
        distinct_keys(keys),
    ensures
        distinct_keys(spec_register(keys, key).0),
        spec_register(keys, key).0.contains(key),
        spec_register(spec_register(keys, key).0, key) == (spec_register(keys, key).0, false),
{
    let (after, _) = spec_register(keys, key);
    if !keys.contains(key) {
        assert(after[keys.len() as int] == key);
        assert forall|i: int, j: int| 0 <= i < after.len() && 0 <= j < after.len() && i != j implies after[i] != after[j] by {
            if i == keys.len() as int {
                assert(keys[j] == after[j]);
            } else if j == keys.len() as int {
                assert(keys[i] == after[i]);
            }
        }
    }
}

/// The registered keys after registering each of `fonts` in turn.
pub open spec fn spec_register_all(keys: Seq<(u64, usize)>, fonts: Seq<Seq<u8>>) -> Seq<(u64, usize)>
    decreases fonts.len(),
{
    if fonts.len() == 0 {
        keys
    } else {
        spec_register(spec_register_all(keys, fonts.drop_last()), spec_font_key(fonts.last())).0
    }
}

/// Whether the `i`-th of `fonts`, registered in turn into a fresh registry,
/// is handed to the text system.
pub open spec fn spec_loaded_at(fonts: Seq<Seq<u8>>, i: int) -> bool {
    spec_register(spec_register_all(Seq::empty(), fonts.take(i)), spec_font_key(fonts[i])).1
}

/// After registering `fonts` into a fresh registry, a key is registered
/// exactly when one of the fonts has it, and no key is registered twice.
pub proof fn lemma_register_all(fonts: Seq<Seq<u8>>)
    ensures
        distinct_keys(spec_register_all(Seq::empty(), fonts)),
        forall|k: (u64, usize)|
            spec_register_all(Seq::empty(), fonts).contains(k)
                <==> exists|j: int| 0 <= j < fonts.len() && spec_font_key(#[trigger] fonts[j]) == k,
    decreases fonts.len(),
{
    if fonts.len() > 0 {
        let prev = fonts.drop_last();
        lemma_register_all(prev);
        let before = spec_register_all(Seq::empty(), prev);
        let key = spec_font_key(fonts.last());
        lemma_register_once(before, key);
        let after = spec_register_all(Seq::empty(), fonts);
        assert forall|k: (u64, usize)|
            after.contains(k) <==> exists|j: int| 0 <= j < fonts.len() && spec_font_key(#[trigger] fonts[j]) == k by {
            if after.contains(k) {
                if k == key {
                    assert(spec_font_key(fonts[fonts.len() - 1]) == k);
                } else {
                    if !before.contains(key) {
                        let idx = choose|idx: int| 0 <= idx < after.len() && after[idx] == k;
                        assert(idx < before.len());
                        assert(before[idx] == k);
                    }
                    assert(before.contains(k));
                    let j = choose|j: int| 0 <= j < prev.len() && spec_font_key(#[trigger] prev[j]) == k;
                    assert(fonts[j] == prev[j]);
                }
            }
            if exists|j: int| 0 <= j < fonts.len() && spec_font_key(#[trigger] fonts[j]) == k {
                let j = choose|j: int| 0 <= j < fonts.len() && spec_font_key(#[trigger] fonts[j]) == k;
                if j == fonts.len() - 1 {
                    assert(k == key);
                } else {
                    assert(prev[j] == fonts[j]);
                    assert(before.contains(k));
                    let idx = choose|idx: int| 0 <= idx < before.len() && before[idx] == k;
                    if !before.contains(key) {
                        assert(after[idx] == k);
                    }
                }
            }
        }
    }
}

/// Registering any sequence of fonts into a fresh registry hands a font's
/// bytes to the text system exactly when no earlier font in the sequence has
/// the same key: the same bytes are never loaded twice.
pub proof fn lemma_fonts_loaded_once(fonts: Seq<Seq<u8>>, i: int)
    requires
        0 <= i < fonts.len(),
    ensures
        spec_loaded_at(fonts, i)
            <==> forall|j: int| 0 <= j < i ==> spec_font_key(#[trigger] fonts[j]) != spec_font_key(fonts[i]),
{
    let prefix = fonts.take(i);
    lemma_register_all(prefix);
    if spec_loaded_at(fonts, i) {
        assert forall|j: int| 0 <= j < i implies spec_font_key(#[trigger] fonts[j]) != spec_font_key(fonts[i]) by {
            assert(prefix[j] == fonts[j]);
        }
    } else {
        let j = choose|j: int| 0 <= j < prefix.len() && spec_font_key(#[trigger] prefix[j]) == spec_font_key(fonts[i]);
        assert(prefix[j] == fonts[j]);
    }
}

} // verus!
