use kvshell::store::{KvStore, StoreError};

fn fresh_store() -> KvStore {
    let db = sled::Config::new().temporary(true).open().unwrap();
    KvStore::new(db)
}

#[test]
fn insert_then_get_returns_value() {
    let mut s = fresh_store();
    assert_eq!(s.insert(b"k", b"v1"), Ok(None));
    assert_eq!(s.get(b"k"), Ok(b"v1".to_vec()));
}

#[test]
fn insert_returns_replaced_value() {
    let mut s = fresh_store();
    assert_eq!(s.insert(b"k", b"one"), Ok(None));
    assert_eq!(s.insert(b"k", b"two"), Ok(Some(b"one".to_vec())));
    assert_eq!(s.get(b"k"), Ok(b"two".to_vec()));
}

#[test]
fn get_absent_key_is_not_found() {
    let s = fresh_store();
    assert_eq!(s.get(b"nope"), Err(StoreError::NotFound));
}

#[test]
fn empty_value_is_not_absence() {
    let mut s = fresh_store();
    assert_eq!(s.insert(b"e", b""), Ok(None));
    assert_eq!(s.get(b"e"), Ok(Vec::new()));
    assert_eq!(s.delete(b"e"), Ok(Vec::new()));
    assert_eq!(s.get(b"e"), Err(StoreError::NotFound));
}

#[test]
fn delete_then_get_is_not_found() {
    let mut s = fresh_store();
    s.insert(b"k", b"v").unwrap();
    assert_eq!(s.delete(b"k"), Ok(b"v".to_vec()));
    assert_eq!(s.get(b"k"), Err(StoreError::NotFound));
}

#[test]
fn delete_twice_second_is_not_found() {
    let mut s = fresh_store();
    s.insert(b"k", b"v").unwrap();
    s.insert(b"other", b"w").unwrap();
    assert_eq!(s.delete(b"k"), Ok(b"v".to_vec()));
    assert_eq!(s.delete(b"k"), Err(StoreError::NotFound));
    assert_eq!(s.get(b"k"), Err(StoreError::NotFound));
    assert_eq!(s.get(b"other"), Ok(b"w".to_vec()));
}

#[test]
fn cas_from_current_value_succeeds() {
    let mut s = fresh_store();
    s.insert(b"k", b"old").unwrap();
    assert_eq!(s.compare_and_swap(b"k", Some(b"old".as_slice()), b"new"), Ok(()));
    assert_eq!(s.get(b"k"), Ok(b"new".to_vec()));
}

#[test]
fn cas_from_wrong_value_conflicts() {
    let mut s = fresh_store();
    s.insert(b"k", b"old").unwrap();
    assert_eq!(
        s.compare_and_swap(b"k", Some(b"other".as_slice()), b"new"),
        Err(StoreError::Conflict(Some(b"old".to_vec())))
    );
    assert_eq!(s.get(b"k"), Ok(b"old".to_vec()));
}

#[test]
fn cas_expecting_absence() {
    let mut s = fresh_store();
    assert_eq!(s.compare_and_swap(b"k", None, b"first"), Ok(()));
    assert_eq!(s.get(b"k"), Ok(b"first".to_vec()));
    assert_eq!(
        s.compare_and_swap(b"k", None, b"second"),
        Err(StoreError::Conflict(Some(b"first".to_vec())))
    );
    assert_eq!(
        s.compare_and_swap(b"absent", Some(b"x".as_slice()), b"y"),
        Err(StoreError::Conflict(None))
    );
    assert_eq!(s.get(b"absent"), Err(StoreError::NotFound));
}

#[test]
fn cas_race_from_same_value_has_one_winner() {
    let mut s = fresh_store();
    s.insert(b"k", b"start").unwrap();
    let mut wins = 0;
    let mut conflicts = 0;
    for new in [b"a".as_slice(), b"b".as_slice(), b"c".as_slice(), b"d".as_slice()] {
        match s.compare_and_swap(b"k", Some(b"start".as_slice()), new) {
            Ok(()) => wins += 1,
            Err(StoreError::Conflict(cur)) => {
                assert_eq!(cur, Some(b"a".to_vec()));
                conflicts += 1;
            }
            Err(e) => panic!("unexpected {:?}", e),
        }
    }
    assert_eq!(wins, 1);
    assert_eq!(conflicts, 3);
    assert_eq!(s.get(b"k"), Ok(b"a".to_vec()));
}

#[test]
fn scan_yields_keys_in_order() {
    let mut s = fresh_store();
    s.insert(b"a", b"1").unwrap();
    s.insert(b"c", b"3").unwrap();
    s.insert(b"b", b"2").unwrap();
    let entries = s.scan().unwrap();
    assert_eq!(
        entries,
        vec![
            (b"a".to_vec(), b"1".to_vec()),
            (b"b".to_vec(), b"2".to_vec()),
            (b"c".to_vec(), b"3".to_vec()),
        ]
    );
}

#[test]
fn scan_puts_prefix_first() {
    let mut s = fresh_store();
    s.insert(b"b", b"").unwrap();
    s.insert(b"ab", b"").unwrap();
    s.insert(b"a", b"").unwrap();
    let keys: Vec<Vec<u8>> = s.scan().unwrap().into_iter().map(|e| e.0).collect();
    assert_eq!(keys, vec![b"a".to_vec(), b"ab".to_vec(), b"b".to_vec()]);
}

#[test]
fn scan_of_empty_store() {
    let s = fresh_store();
    assert_eq!(s.scan(), Ok(Vec::new()));
}

#[test]
fn update_present_key() {
    let mut s = fresh_store();
    s.insert(b"k", b"old ").unwrap();
    assert_eq!(s.update(b"k", b"new"), Ok(()));
    assert_eq!(s.get(b"k"), Ok(b"new".to_vec()));
}

#[test]
fn update_absent_key_is_not_found() {
    let mut s = fresh_store();
    assert_eq!(s.update(b"k", b"new"), Err(StoreError::NotFound));
    assert_eq!(s.get(b"k"), Err(StoreError::NotFound));
}

#[test]
fn update_on_fresh_store_sets_new_value() {
    let mut s = fresh_store();
    s.insert(b"a", b"1").unwrap();
    assert_eq!(s.update(b"a", b"2"), Ok(()));
    assert_eq!(s.scan(), Ok(vec![(b"a".to_vec(), b"2".to_vec())]));
}

#[test]
fn update_compares_exact_bytes() {
    let mut s = fresh_store();
    s.insert(b"k", b"\tb").unwrap();
    assert_eq!(s.update(b"k", b"c"), Ok(()));
    assert_eq!(s.get(b"k"), Ok(b"c".to_vec()));
    s.insert(b"e", b"").unwrap();
    assert_eq!(s.update(b"e", b"x"), Ok(()));
    assert_eq!(s.get(b"e"), Ok(b"x".to_vec()));
}

#[test]
fn update_absent_key_leaves_store_empty() {
    let mut s = fresh_store();
    assert_eq!(s.update(b"a", b"2"), Err(StoreError::NotFound));
    assert_eq!(s.scan(), Ok(Vec::new()));
}
