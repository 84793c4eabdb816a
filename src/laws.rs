//! Laws that relate the store's operations. Each is stated over the
//! postconditions that the operations' contracts give (`get_post`,
//! `insert_post`, ...), for calls that did not report a storage failure: after
//! one, the store's contents are not known.
use crate::store::{
    cas_post, delete_post, get_post, insert_post, lookup, opt_view, storage_failed, StoreError,
};
use vstd::prelude::*;

verus! {

/// After `insert(k, v)` succeeds, `get(k)` returns `v`.
pub proof fn lemma_get_after_insert(
    m0: Map<Seq<u8>, Seq<u8>>,
    k: Seq<u8>,
    v: Seq<u8>,
    ins: Result<Option<Vec<u8>>, StoreError>,
    m1: Map<Seq<u8>, Seq<u8>>,
    got: Result<Vec<u8>, StoreError>,
)
    requires
        insert_post(m0, k, v, ins, m1),
        !storage_failed(ins),
        get_post(m1, k, got),
        !storage_failed(got),
    ensures
        got matches Ok(x) && x@ == v,
{
}

/// After `delete(k)`, whatever it found, `get(k)` reports `NotFound`.
pub proof fn lemma_get_after_delete(
    m0: Map<Seq<u8>, Seq<u8>>,
    k: Seq<u8>,
    del: Result<Vec<u8>, StoreError>,
    m1: Map<Seq<u8>, Seq<u8>>,
    got: Result<Vec<u8>, StoreError>,
)
    requires
        delete_post(m0, k, del, m1),
        !storage_failed(del),
        get_post(m1, k, got),
        !storage_failed(got),
    ensures
        got matches Err(StoreError::NotFound),
        !m1.contains_key(k),
{
}

/// A second `delete(k)` right after a first reports `NotFound` and leaves
/// the contents as the first one left them: without `k`.
pub proof fn lemma_delete_twice(
    m0: Map<Seq<u8>, Seq<u8>>,
    k: Seq<u8>,
    first: Result<Vec<u8>, StoreError>,
    m1: Map<Seq<u8>, Seq<u8>>,
    second: Result<Vec<u8>, StoreError>,
    m2: Map<Seq<u8>, Seq<u8>>,
)
    requires
        delete_post(m0, k, first, m1),
        !storage_failed(first),
        delete_post(m1, k, second, m2),
        !storage_failed(second),
    ensures
        second matches Err(StoreError::NotFound),
        m2 == m1,
        m1 == m0.remove(k),
{
    if !m0.contains_key(k) {
        assert(m0.remove(k) =~= m0);
    }
}

/// A compare-and-swap whose expected value is the current one succeeds and
/// sets the new value.
pub proof fn lemma_cas_expected_current(
    m0: Map<Seq<u8>, Seq<u8>>,
    k: Seq<u8>,
    new: Seq<u8>,
    r: Result<(), StoreError>,
    m1: Map<Seq<u8>, Seq<u8>>,
)
    requires
        cas_post(m0, k, lookup(m0, k), new, r, m1),
        !storage_failed(r),
    ensures
        r is Ok,
        m1 == m0.insert(k, new),
{
}

/// A compare-and-swap whose expected value is not the current one reports a
/// conflict that carries the current value, and changes nothing.
pub proof fn lemma_cas_expected_wrong(
    m0: Map<Seq<u8>, Seq<u8>>,
    k: Seq<u8>,
    expected: Option<Seq<u8>>,
    new: Seq<u8>,
    r: Result<(), StoreError>,
    m1: Map<Seq<u8>, Seq<u8>>,
)
    requires
        expected != lookup(m0, k),
        cas_post(m0, k, expected, new, r, m1),
        !storage_failed(r),
    ensures
        r matches Err(StoreError::Conflict(cur)) && opt_view(cur) == lookup(m0, k),
        m1 == m0,
{
}

/// Of two compare-and-swaps on one key from the same expected value, one
/// after the other, where the first succeeds with a value other than the
/// expected one: the second reports a conflict that carries the first's value
/// and changes nothing. So of callers racing from one expected value, one wins.
pub proof fn lemma_cas_race_one_winner(
    m0: Map<Seq<u8>, Seq<u8>>,
    k: Seq<u8>,
    expected: Option<Seq<u8>>,
    first_new: Seq<u8>,
    first: Result<(), StoreError>,
    m1: Map<Seq<u8>, Seq<u8>>,
    second_new: Seq<u8>,
    second: Result<(), StoreError>,
    m2: Map<Seq<u8>, Seq<u8>>,
)
    requires
        Some(first_new) != expected,
        cas_post(m0, k, expected, first_new, first, m1),
        first is Ok,
        cas_post(m1, k, expected, second_new, second, m2),
        !storage_failed(second),
    ensures
        second matches Err(StoreError::Conflict(cur)) && opt_view(cur) == Some(first_new),
        m2 == m1,
{
    assert(lookup(m1, k) == Some(first_new));
}

} // verus!
