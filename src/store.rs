//! An ordered, durable key-value store over byte strings.
//!
//! Persistence, write-ahead logging and crash recovery are done by `sled`.
//! The store's contents are modelled as a `Map` from keys to values; each
//! operation states its effect on that map.
use vstd::prelude::*;

verus! {

#[verifier::external_type_specification]
#[verifier::external_body]
pub struct ExDb(sled::Db);

#[verifier::external_type_specification]
#[verifier::external_body]
pub struct ExSledError(sled::Error);

/// What a `sled::Db` holds: each key with its current value.
pub uninterp spec fn tree_contents(db: sled::Db) -> Map<Seq<u8>, Seq<u8>>;

/// Relies on `sled::Tree::get`: `Ok(Some(v))` with the value stored under
/// `key`, `Ok(None)` where the key is absent; reading changes nothing.
#[verifier::external_body]
fn sled_get(db: &sled::Db, key: &[u8]) -> (r: Result<Option<Vec<u8>>, sled::Error>)
    ensures
        r matches Ok(o) ==> opt_view(o) == lookup(tree_contents(*db), key@),
{
    db.get(key).map(|o| o.map(|v| v.to_vec()))
}

/// Relies on `sled::Tree::insert`: on `Ok` the key now maps to `value`, and
/// the value it held before, if any, is returned.
#[verifier::external_body]
fn sled_insert(db: &mut sled::Db, key: &[u8], value: &[u8]) -> (r: Result<
    Option<Vec<u8>>,
    sled::Error,
>)
    ensures
        r matches Ok(o) ==> {
            &&& opt_view(o) == lookup(tree_contents(*old(db)), key@)
            &&& tree_contents(*final(db)) == tree_contents(*old(db)).insert(key@, value@)
        },
{
    db.insert(key, value).map(|o| o.map(|v| v.to_vec()))
}

/// Relies on `sled::Tree::remove`: on `Ok` the key is absent afterwards, and
/// the value it held before, if any, is returned.
#[verifier::external_body]
fn sled_remove(db: &mut sled::Db, key: &[u8]) -> (r: Result<Option<Vec<u8>>, sled::Error>)
    ensures
        r matches Ok(o) ==> {
            &&& opt_view(o) == lookup(tree_contents(*old(db)), key@)
            &&& tree_contents(*final(db)) == tree_contents(*old(db)).remove(key@)
        },
{
    db.remove(key).map(|o| o.map(|v| v.to_vec()))
}

/// Relies on `sled::Tree::compare_and_swap` with a new value present: where
/// the current value equals `expected` (`None`: the key is absent) it is
/// replaced by `new` and `Ok(Ok(()))` comes back; otherwise nothing changes
/// and `Ok(Err(..))` carries the current value.
#[verifier::external_body]
fn sled_compare_and_swap(
    db: &mut sled::Db,
    key: &[u8],
    expected: Option<&[u8]>,
    new: &[u8],
) -> (r: Result<Result<(), Option<Vec<u8>>>, sled::Error>)
    ensures
        r matches Ok(Ok(())) ==> {
            &&& lookup(tree_contents(*old(db)), key@) == opt_slice_view(expected)
            &&& tree_contents(*final(db)) == tree_contents(*old(db)).insert(key@, new@)
        },
        r matches Ok(Err(cur)) ==> {
            &&& lookup(tree_contents(*old(db)), key@) != opt_slice_view(expected)
            &&& opt_view(cur) == lookup(tree_contents(*old(db)), key@)
            &&& tree_contents(*final(db)) == tree_contents(*old(db))
        },
{
    db.compare_and_swap(key, expected, Some(new)).map(
        |res| res.map_err(|e| e.current.map(|v| v.to_vec())),
    )
}

/// Relies on `sled::Tree::iter`: every entry, once, in ascending byte order
/// of the keys.
#[verifier::external_body]
fn sled_entries(db: &sled::Db) -> (r: Result<Vec<(Vec<u8>, Vec<u8>)>, sled::Error>)
    ensures
        r matches Ok(v) ==> lists_in_order(entries_view(v@), tree_contents(*db)),
{
    db.iter().map(|e| e.map(|(k, v)| (k.to_vec(), v.to_vec()))).collect()
}

/// The value under `k`, if any.
pub open spec fn lookup(m: Map<Seq<u8>, Seq<u8>>, k: Seq<u8>) -> Option<Seq<u8>> {
    if m.contains_key(k) {
        Some(m[k])
    } else {
        None
    }
}

pub open spec fn opt_view(o: Option<Vec<u8>>) -> Option<Seq<u8>> {
    match o {
        Some(v) => Some(v@),
        None => None,
    }
}

pub open spec fn opt_slice_view(o: Option<&[u8]>) -> Option<Seq<u8>> {
    match o {
        Some(v) => Some(v@),
        None => None,
    }
}

pub open spec fn entries_view(v: Seq<(Vec<u8>, Vec<u8>)>) -> Seq<(Seq<u8>, Seq<u8>)> {
    v.map_values(|e: (Vec<u8>, Vec<u8>)| (e.0@, e.1@))
}

/// Strict lexicographic order on byte strings: a proper prefix comes first.
pub open spec fn lex_lt(a: Seq<u8>, b: Seq<u8>) -> bool
    decreases a.len(),
{
    if b.len() == 0 {
        false
    } else if a.len() == 0 {
        true
    } else if a[0] != b[0] {
        a[0] < b[0]
    } else {
        lex_lt(a.drop_first(), b.drop_first())
    }
}

/// `s` lists exactly the entries of `m`, with keys strictly ascending.
pub open spec fn lists_in_order(s: Seq<(Seq<u8>, Seq<u8>)>, m: Map<Seq<u8>, Seq<u8>>) -> bool {
    &&& forall|i: int, j: int| 0 <= i < j < s.len() ==> lex_lt(#[trigger] s[i].0, #[trigger] s[j].0)
    &&& forall|i: int| 0 <= i < s.len() ==> lookup(m, #[trigger] s[i].0) == Some(s[i].1)
    &&& forall|k: Seq<u8>| #[trigger] m.contains_key(k) ==> exists|i: int| 0 <= i < s.len() && s[i].0 == k
}

/// Relies on `sled::Tree::flush`: it writes out all dirty buffers and
/// fsyncs; reading nothing back, it changes no key or value.
#[verifier::external_body]
fn sled_flush(db: &sled::Db) -> (r: Result<(), sled::Error>) {
    db.flush().map(|_| ())
}

/// Why an operation of the store did not succeed.
#[derive(Debug, PartialEq, Eq)]
pub enum StoreError {
    /// The key is absent.
    NotFound,
    /// A compare-and-swap found another value; it carries the current one
    /// (`None`: the key is absent).
    Conflict(Option<Vec<u8>>),
    /// The storage medium failed; the operation must be taken as not done,
    /// and the store's contents are not known.
    StorageIo,
}

/// Whether `r` reports a failure of the storage medium.
pub open spec fn storage_failed<T>(r: Result<T, StoreError>) -> bool {
    r matches Err(StoreError::StorageIo)
}

/// What `get(k)` on a store holding `m` may report.
pub open spec fn get_post(m: Map<Seq<u8>, Seq<u8>>, k: Seq<u8>, r: Result<Vec<u8>, StoreError>) -> bool {
    match r {
        Ok(v) => lookup(m, k) == Some(v@),
        Err(StoreError::NotFound) => lookup(m, k) is None,
        Err(StoreError::StorageIo) => true,
        Err(StoreError::Conflict(_)) => false,
    }
}

/// What `insert(k, v)` on a store holding `m0` may report, leaving `m1`.
pub open spec fn insert_post(
    m0: Map<Seq<u8>, Seq<u8>>,
    k: Seq<u8>,
    v: Seq<u8>,
    r: Result<Option<Vec<u8>>, StoreError>,
    m1: Map<Seq<u8>, Seq<u8>>,
) -> bool {
    match r {
        Ok(prev) => m1 == m0.insert(k, v) && opt_view(prev) == lookup(m0, k),
        Err(e) => e is StorageIo,
    }
}

/// What `delete(k)` on a store holding `m0` may report, leaving `m1`: the
/// removed value, or `NotFound` with nothing changed.
pub open spec fn delete_post(
    m0: Map<Seq<u8>, Seq<u8>>,
    k: Seq<u8>,
    r: Result<Vec<u8>, StoreError>,
    m1: Map<Seq<u8>, Seq<u8>>,
) -> bool {
    match r {
        Ok(v) => lookup(m0, k) == Some(v@) && m1 == m0.remove(k),
        Err(StoreError::NotFound) => lookup(m0, k) is None && m1 == m0,
        Err(StoreError::StorageIo) => true,
        Err(StoreError::Conflict(_)) => false,
    }
}

/// What `compare_and_swap(k, expected, new)` on a store holding `m0` may
/// report, leaving `m1`: success exactly where the current value is
/// `expected`, else a conflict that carries the current value and changes
/// nothing.
pub open spec fn cas_post(
    m0: Map<Seq<u8>, Seq<u8>>,
    k: Seq<u8>,
    expected: Option<Seq<u8>>,
    new: Seq<u8>,
    r: Result<(), StoreError>,
    m1: Map<Seq<u8>, Seq<u8>>,
) -> bool {
    match r {
        Ok(()) => lookup(m0, k) == expected && m1 == m0.insert(k, new),
        Err(StoreError::Conflict(cur)) => {
            &&& lookup(m0, k) != expected
            &&& opt_view(cur) == lookup(m0, k)
            &&& m1 == m0
        },
        Err(StoreError::StorageIo) => true,
        Err(StoreError::NotFound) => false,
    }
}

/// What `update(k, v)` on a store holding `m0` may report, leaving `m1`:
/// a present key takes the new value, an absent one is `NotFound` with
/// nothing changed.
pub open spec fn update_post(
    m0: Map<Seq<u8>, Seq<u8>>,
    k: Seq<u8>,
    v: Seq<u8>,
    r: Result<(), StoreError>,
    m1: Map<Seq<u8>, Seq<u8>>,
) -> bool {
    match r {
        Ok(()) => m0.contains_key(k) && m1 == m0.insert(k, v),
        Err(StoreError::NotFound) => !m0.contains_key(k) && m1 == m0,
        Err(StoreError::StorageIo) => true,
        Err(StoreError::Conflict(_)) => false,
    }
}

/// A handle on an open store. Its contents are read and changed only
/// through its methods.
pub struct KvStore {
    db: sled::Db,
}

impl View for KvStore {
    type V = Map<Seq<u8>, Seq<u8>>;

    closed spec fn view(&self) -> Map<Seq<u8>, Seq<u8>> {
        tree_contents(self.db)
    }
}

impl KvStore {
    /// Takes ownership of an opened database; the store then holds what the
    /// database holds. The store must hold the only handle to it: a clone
    /// of a `sled::Db` shares its tree, and a write through another handle
    /// would change the store's contents behind the contracts below.
    pub fn new(db: sled::Db) -> (s: KvStore)
        ensures
            s@ == tree_contents(db),
    {
        KvStore { db }
    }

    /// The value under `key`, or `NotFound` where it is absent.
    pub fn get(&self, key: &[u8]) -> (r: Result<Vec<u8>, StoreError>)
        ensures
            get_post(self@, key@, r),
    {
        match sled_get(&self.db, key) {
            Ok(Some(v)) => Ok(v),
            Ok(None) => Err(StoreError::NotFound),
            Err(_) => Err(StoreError::StorageIo),
        }
    }

    /// Sets `key` to `value`, returning the value it replaced, if any. The
    /// write is flushed to stable storage before the call returns `Ok`.
    pub fn insert(&mut self, key: &[u8], value: &[u8]) -> (r: Result<Option<Vec<u8>>, StoreError>)
        ensures
            insert_post(old(self)@, key@, value@, r, final(self)@),
    {
        match sled_insert(&mut self.db, key, value) {
            Ok(prev) => match sled_flush(&self.db) {
                Ok(()) => Ok(prev),
                Err(_) => Err(StoreError::StorageIo),
            },
            Err(_) => Err(StoreError::StorageIo),
        }
    }

    /// Removes `key`, returning the value it held, or `NotFound` (and no
    /// change) where it is absent. A removal is flushed to stable storage
    /// before the call returns `Ok`.
    pub fn delete(&mut self, key: &[u8]) -> (r: Result<Vec<u8>, StoreError>)
        ensures
            delete_post(old(self)@, key@, r, final(self)@),
    {
        match sled_remove(&mut self.db, key) {
            Ok(Some(v)) => match sled_flush(&self.db) {
                Ok(()) => Ok(v),
                Err(_) => Err(StoreError::StorageIo),
            },
            Ok(None) => {
                assert(old(self)@.remove(key@) =~= old(self)@);
                Err(StoreError::NotFound)
            },
            Err(_) => Err(StoreError::StorageIo),
        }
    }

    /// Replaces the value under `key` by `new` only where it currently equals
    /// `expected` (`None`: only where the key is absent), flushing the write
    /// before it returns `Ok`. Otherwise the store is unchanged and
    /// `Conflict` carries the current value.
    pub fn compare_and_swap(&mut self, key: &[u8], expected: Option<&[u8]>, new: &[u8]) -> (r: Result<
        (),
        StoreError,
    >)
        ensures
            cas_post(old(self)@, key@, opt_slice_view(expected), new@, r, final(self)@),
    {
        match sled_compare_and_swap(&mut self.db, key, expected, new) {
            Ok(Ok(())) => match sled_flush(&self.db) {
                Ok(()) => Ok(()),
                Err(_) => Err(StoreError::StorageIo),
            },
            Ok(Err(cur)) => Err(StoreError::Conflict(cur)),
            Err(_) => Err(StoreError::StorageIo),
        }
    }

    /// Every entry of the store, in ascending byte order of the keys.
    pub fn scan(&self) -> (r: Result<Vec<(Vec<u8>, Vec<u8>)>, StoreError>)
        ensures
            match r {
                Ok(v) => lists_in_order(entries_view(v@), self@),
                Err(e) => e is StorageIo,
            },
    {
        match sled_entries(&self.db) {
            Ok(v) => Ok(v),
            Err(_) => Err(StoreError::StorageIo),
        }
    }

    /// Sets a present `key` to `value`: reads the current value, then swaps
    /// it for `value` against exactly those bytes. An absent key is
    /// `NotFound`, and nothing changes.
    pub fn update(&mut self, key: &[u8], value: &[u8]) -> (r: Result<(), StoreError>)
        ensures
            update_post(old(self)@, key@, value@, r, final(self)@),
    {
        let current = match self.get(key) {
            Ok(v) => v,
            Err(e) => {
                return Err(e);
            },
        };
        self.compare_and_swap(key, Some(current.as_slice()), value)
    }
}

} // verus!
