//! A de-duplicating, `Vec`-based cache: offering a value returns the key of an equal cached value,
//! or caches the value under a new key.

use std::borrow::Cow;
use std::collections::hash_map::DefaultHasher;
use std::collections::HashMap;
use std::hash::{Hash, Hasher};
use vstd::prelude::*;
use vstd::std_specs::cmp::PartialEqSpec;

verus! {

broadcast use vstd::std_specs::hash::group_hash_axioms;

/// Retrieving the index into a collection of a type.
pub trait AsIndex {
    /// The index value.
    spec fn spec_as_index(&self) -> int;

    /// Retrieves the index value.
    fn as_index(&self) -> (r: usize)
        ensures
            r == self.spec_as_index(),
    ;
}

/// Creating an instance from an index.
pub trait FromIndex: AsIndex + Sized {
    /// Creates an instance from the provided index.
    fn from_index(index: usize) -> (r: Self)
        ensures
            r.spec_as_index() == index,
    ;
}

impl AsIndex for usize {
    open spec fn spec_as_index(&self) -> int {
        *self as int
    }

    fn as_index(&self) -> (r: usize) {
        *self
    }
}

impl FromIndex for usize {
    fn from_index(index: usize) -> (r: usize) {
        index
    }
}

/// Feeds `value` into `hasher` with `T`'s `Hash` implementation (`Hash::hash`).
///
/// Nothing is stated of the effect on the hasher: it depends on `T`'s implementation.
#[verifier::external_body]
fn feed_hasher<T: Hash>(value: &T, hasher: &mut DefaultHasher) {
    value.hash(hasher)
}

/// The hash value of `value`: `T`'s `Hash` implementation fed into a new [`DefaultHasher`].
fn hash_value<T: Hash>(value: &T) -> u64 {
    let mut hasher = DefaultHasher::new();
    feed_hasher(value, &mut hasher);
    hasher.finish()
}

/// The value that a `Cow` holds or borrows.
pub open spec fn cow_value<T: Clone>(c: Cow<T>) -> T {
    match c {
        Cow::Borrowed(b) => *b,
        Cow::Owned(o) => o,
    }
}

/// A mutable [`Vec`]-based cache.
///
/// Values are kept in insertion order; a map from hash values to keys narrows down the values an
/// offered value has to be compared with.
pub struct VecCacheMut<T, K = usize> {
    /// The cached values.
    values: Vec<T>,
    /// The keys of the cached values, by hash value.
    hashes: HashMap<u64, Vec<K>>,
}

impl<T, K: AsIndex> VecCacheMut<T, K> {
    /// The cached values, by index.
    pub closed spec fn spec_values(&self) -> Seq<T> {
        self.values@
    }

    /// Every key in the hash map refers to a cached value.
    pub closed spec fn well_formed(&self) -> bool {
        forall|h: u64, j: int|
            #![trigger self.hashes@[h][j]]
            self.hashes@.contains_key(h) && 0 <= j < self.hashes@[h].len() ==> 0
                <= self.hashes@[h][j].spec_as_index() < self.values@.len()
    }

    /// Creates a new, empty instance.
    pub fn new() -> (r: VecCacheMut<T, K>)
        ensures
            r.well_formed(),
            r.spec_values() == Seq::<T>::empty(),
    {
        VecCacheMut { values: Vec::new(), hashes: HashMap::new() }
    }

    /// Returns the number of values.
    pub fn len(&self) -> (r: usize)
        ensures
            r == self.spec_values().len(),
    {
        self.values.len()
    }

    /// Consumes this instance and returns the values.
    pub fn consume(self) -> (r: Vec<T>)
        ensures
            r@ == self.spec_values(),
    {
        self.values
    }

    /// The number of distinct hash values among the cached values.
    pub closed spec fn spec_hash_count(&self) -> nat {
        self.hashes@.dom().len()
    }

    /// Whether the keys of some hash value number `n`.
    pub closed spec fn spec_has_bucket_of_size(&self, n: int) -> bool {
        exists|h: u64| #[trigger] self.hashes@.contains_key(h) && self.hashes@[h]@.len() == n
    }

    /// The number of keys in the bucket of each distinct hash value, in no particular order.
    pub fn bucket_sizes(&self) -> (r: Vec<usize>)
        ensures
            r@.len() == self.spec_hash_count(),
            forall|i: int| 0 <= i < r@.len() ==> self.spec_has_bucket_of_size(#[trigger] r@[i] as int),
    {
        let mut out: Vec<usize> = Vec::new();
        for keys in it: self.hashes.values()
            invariant
                out@.len() == it.index(),
                it.seq().unref().to_set() == self.hashes@.values(),
                forall|k: int|
                    0 <= k < out@.len() ==> self.spec_has_bucket_of_size(#[trigger] out@[k] as int),
        {
            proof {
                let bucket = *keys;
                assert(it.seq()[out@.len() as int] == keys);
                assert(it.seq().unref()[out@.len() as int] == bucket);
                assert(it.seq().unref().to_set().contains(bucket));
                assert(self.hashes@.values().contains(bucket));
                let h = choose|h: u64|
                    #[trigger] self.hashes@.contains_key(h) && self.hashes@[h] == bucket;
                assert(self.hashes@.contains_key(h) && self.hashes@[h]@.len() == keys@.len());
            }
            out.push(keys.len());
        }
        out
    }

    /// The cached value with the given key.
    ///
    /// The key must refer to a cached value.
    pub fn index(&self, index: K) -> (r: &T)
        requires
            0 <= index.spec_as_index() < self.spec_values().len(),
        ensures
            *r == self.spec_values()[index.spec_as_index()],
    {
        &self.values[index.as_index()]
    }
}

impl<T, K: AsIndex> VecCacheMut<T, K> {
    /// The keys recorded under the hash value `hash`, in the order they were recorded.
    pub closed spec fn spec_bucket(&self, hash: u64) -> Seq<K> {
        if self.hashes@.contains_key(hash) {
            self.hashes@[hash]@
        } else {
            Seq::empty()
        }
    }
}

impl<T: PartialEq + Clone, K: Copy + AsIndex + FromIndex> VecCacheMut<T, K> {
    /// Whether the value with the `j`-th key of the bucket for `hash` equals `value`.
    pub open spec fn bucket_match(&self, hash: u64, j: int, value: T) -> bool {
        self.spec_values()[self.spec_bucket(hash)[j].spec_as_index()].eq_spec(&value)
    }

    /// Whether some value with a key in the bucket for `hash` equals `value`.
    pub open spec fn has_match(&self, hash: u64, value: T) -> bool {
        exists|j: int| 0 <= j < self.spec_bucket(hash).len() && #[trigger] self.bucket_match(hash, j, value)
    }

    /// Whether `j` is the first position in the bucket for `hash` whose value equals `value`.
    pub open spec fn first_match(&self, hash: u64, j: int, value: T) -> bool {
        &&& 0 <= j < self.spec_bucket(hash).len()
        &&& self.bucket_match(hash, j, value)
        &&& forall|i: int| 0 <= i < j ==> !#[trigger] self.bucket_match(hash, i, value)
    }

    /// What offering `value` with hash value `hash` does to the cache `old`, giving `new` and the
    /// key `r`: either the key of a cached value in the bucket for `hash` is returned and nothing
    /// changes, or the value is appended (a borrowed value is cloned) under the new key, which is
    /// recorded at the end of the bucket for `hash`. Where `==` on `T` agrees with its
    /// specification, the first equal value of the bucket is found whenever there is one, and the
    /// value is appended only when there is none.
    pub open spec fn offer_outcome(old: Self, new: Self, value: Cow<T>, hash: u64, r: K) -> bool {
        let v = cow_value(value);
        let found = {
            &&& new.spec_values() == old.spec_values()
            &&& forall|h: u64| #[trigger] new.spec_bucket(h) == old.spec_bucket(h)
            &&& exists|j: int|
                0 <= j < old.spec_bucket(hash).len() && r == #[trigger] old.spec_bucket(hash)[j]
                    && (T::obeys_eq_spec() ==> old.first_match(hash, j, v))
        };
        let appended = {
            &&& new.spec_values() == old.spec_values().push(new.spec_values().last())
            &&& r.spec_as_index() == old.spec_values().len()
            &&& match value {
                Cow::Owned(o) => new.spec_values().last() == o,
                Cow::Borrowed(b) => cloned(*b, new.spec_values().last()),
            }
            &&& new.spec_bucket(hash) == old.spec_bucket(hash).push(r)
            &&& forall|h: u64| h != hash ==> #[trigger] new.spec_bucket(h) == old.spec_bucket(h)
            &&& T::obeys_eq_spec() ==> !old.has_match(hash, v)
        };
        &&& new.well_formed()
        &&& 0 <= r.spec_as_index() < new.spec_values().len()
        &&& found || appended
        &&& T::obeys_eq_spec() ==> (found <==> old.has_match(hash, v))
    }

    /// Offers a value whose hash value is `hash` and returns its key.
    ///
    /// The cached values recorded under `hash` are compared with the value in the order they
    /// were recorded; the key of the first equal one is returned and nothing changes. Without an
    /// equal one, the value is appended (a borrowed value is cloned), and its new key, the index
    /// at which it was appended, is recorded under `hash` and returned. Cached values never
    /// change.
    pub fn offer_hashed(&mut self, value: Cow<T>, hash: u64) -> (r: K)
        requires
            old(self).well_formed(),
            old(self).spec_values().len() < usize::MAX,
        ensures
            Self::offer_outcome(*old(self), *final(self), value, hash, r),
    {
        let ghost v = cow_value(value);
        let ghost before = *self;
        let value_ref: &T = match &value {
            Cow::Borrowed(b) => *b,
            Cow::Owned(o) => o,
        };
        let ghost old_values = self.values@;
        let ghost old_hashes = self.hashes@;
        let ghost bucket = before.spec_bucket(hash);
        let mut indices: Vec<K> = match self.hashes.remove(&hash) {
            Some(indices) => indices,
            None => Vec::new(),
        };
        proof {
            assert(indices@ == bucket);
            assert forall|j: int| 0 <= j < indices@.len() implies 0
                <= #[trigger] indices@[j].spec_as_index() < self.values@.len() by {
                assert(old_hashes[hash][j] == indices@[j]);
            }
        }
        let mut found: Option<usize> = None;
        let mut i: usize = 0;
        while i < indices.len()
            invariant_except_break
                found is None,
                T::obeys_eq_spec() ==> forall|j: int|
                    0 <= j < i ==> !#[trigger] before.bucket_match(hash, j, v),
            invariant
                self.values@ == old_values,
                before.spec_values() == old_values,
                *value_ref == v,
                indices@ == bucket,
                bucket == before.spec_bucket(hash),
                forall|j: int|
                    0 <= j < indices@.len() ==> 0 <= #[trigger] indices@[j].spec_as_index()
                        < self.values@.len(),
                i <= indices@.len(),
            ensures
                found matches Some(j) ==> j < indices@.len() && (T::obeys_eq_spec()
                    ==> before.first_match(hash, j as int, v)),
                found is None ==> T::obeys_eq_spec() ==> !before.has_match(hash, v),
            decreases indices@.len() - i,
        {
            let key = indices[i];
            let equal = self.values[key.as_index()] == *value_ref;
            proof {
                if T::obeys_eq_spec() {
                    assert(equal == before.bucket_match(hash, i as int, v));
                }
            }
            if equal {
                found = Some(i);
                break;
            }
            i = i + 1;
        }
        match found {
            Some(j) => {
                let key = indices[j];
                self.hashes.insert(hash, indices);
                proof {
                    assert(old_hashes.contains_key(hash));
                    assert(self.hashes@ =~= old_hashes);
                    assert forall|h: u64| #[trigger] self.spec_bucket(h) == before.spec_bucket(h) by {}
                    assert(key == before.spec_bucket(hash)[j as int]);
                }
                key
            },
            None => {
                let index = K::from_index(self.values.len());
                let owned: T = match value {
                    Cow::Owned(v) => v,
                    Cow::Borrowed(b) => b.clone(),
                };
                self.values.push(owned);
                indices.push(index);
                self.hashes.insert(hash, indices);
                proof {
                    assert(self.spec_bucket(hash) == before.spec_bucket(hash).push(index));
                    assert forall|h: u64| h != hash implies #[trigger] self.spec_bucket(h)
                        == before.spec_bucket(h) by {}
                }
                index
            },
        }
    }
}

impl<T: PartialEq + Clone, K: Copy + AsIndex + FromIndex> VecCacheMut<T, K> {
    /// A value is found again: after an offer under a hash value returned `first_key`, offering
    /// under the same hash value a value equal to the one cached at `first_key` changes nothing
    /// and returns the key of a cached value equal to it (where `==` on `T` agrees with its
    /// specification).
    pub proof fn lemma_offer_again_finds(
        c0: Self,
        c1: Self,
        c2: Self,
        first: Cow<T>,
        second: Cow<T>,
        hash: u64,
        first_key: K,
        second_key: K,
    )
        requires
            T::obeys_eq_spec(),
            Self::offer_outcome(c0, c1, first, hash, first_key),
            Self::offer_outcome(c1, c2, second, hash, second_key),
            c1.spec_values()[first_key.spec_as_index()].eq_spec(&cow_value(second)),
        ensures
            c2.spec_values() == c1.spec_values(),
            forall|h: u64| #[trigger] c2.spec_bucket(h) == c1.spec_bucket(h),
            c2.spec_values()[second_key.spec_as_index()].eq_spec(&cow_value(second)),
    {
        let v = cow_value(second);
        let bucket = c1.spec_bucket(hash);
        let j: int = if c1.spec_values() == c0.spec_values() && (forall|h: u64|
            #[trigger] c1.spec_bucket(h) == c0.spec_bucket(h)) && exists|j: int|
            0 <= j < c0.spec_bucket(hash).len() && first_key == #[trigger] c0.spec_bucket(hash)[j] {
            let j = choose|j: int|
                0 <= j < c0.spec_bucket(hash).len() && first_key == #[trigger] c0.spec_bucket(
                    hash,
                )[j];
            assert(c1.spec_bucket(hash) == c0.spec_bucket(hash));
            j
        } else {
            assert(bucket == c0.spec_bucket(hash).push(first_key));
            c0.spec_bucket(hash).len() as int
        };
        assert(0 <= j < bucket.len() && bucket[j] == first_key);
        assert(c1.bucket_match(hash, j, v));
        assert(c1.has_match(hash, v));
        let j2 = choose|j2: int|
            0 <= j2 < c1.spec_bucket(hash).len() && second_key == #[trigger] c1.spec_bucket(
                hash,
            )[j2] && c1.first_match(hash, j2, v);
        assert(c1.bucket_match(hash, j2, v));
    }
}

impl<T: PartialEq + Hash + Clone, K: Copy + AsIndex + FromIndex> VecCacheMut<T, K> {
    /// Offers a value and returns its key.
    ///
    /// The value's hash value comes from `T`'s `Hash` implementation; the value is then offered
    /// as [`offer_hashed`](Self::offer_hashed) does with that hash value.
    pub fn offer(&mut self, value: Cow<T>) -> (r: K)
        requires
            old(self).well_formed(),
            old(self).spec_values().len() < usize::MAX,
        ensures
            exists|hash: u64| #[trigger] Self::offer_outcome(*old(self), *final(self), value, hash, r),
    {
        let hash = {
            let value_ref: &T = match &value {
                Cow::Borrowed(b) => *b,
                Cow::Owned(o) => o,
            };
            hash_value(value_ref)
        };
        self.offer_hashed(value, hash)
    }
}

} // verus!
