//! What the shell does with a parsed command: one call into the store, and a
//! reply that says what came of it.
use crate::command::{Command, CommandModel};
use crate::store::{entries_view, lists_in_order, lookup, KvStore, StoreError};
use vstd::prelude::*;

verus! {

/// The outcome of one command.
#[derive(Debug, PartialEq, Eq)]
pub enum Reply {
    Help,
    Exit,
    Invalid,
    /// Every entry, keys ascending.
    Listed(Vec<(Vec<u8>, Vec<u8>)>),
    Inserted,
    /// The value found under the key.
    Value(Vec<u8>),
    /// The key of a `GET`, `UPDATE` or `DELETE` is absent.
    Missing,
    Updated,
    Deleted,
    /// The storage medium failed; the command must be taken as not done.
    StorageFailure,
}

/// Carries out `cmd` on `store`.
pub fn execute(store: &mut KvStore, cmd: &Command) -> (r: Reply)
    ensures
        match cmd@ {
            CommandModel::Help => r is Help && final(store)@ == old(store)@,
            CommandModel::Exit => r is Exit && final(store)@ == old(store)@,
            CommandModel::Invalid => r is Invalid && final(store)@ == old(store)@,
            CommandModel::List => {
                &&& final(store)@ == old(store)@
                &&& r is Listed || r is StorageFailure
                &&& r matches Reply::Listed(v) ==> lists_in_order(entries_view(v@), old(store)@)
            },
            CommandModel::Insert(k, v) => {
                &&& r is Inserted || r is StorageFailure
                &&& r is Inserted ==> final(store)@ == old(store)@.insert(k, v)
            },
            CommandModel::Get(k) => {
                &&& final(store)@ == old(store)@
                &&& r is Value || r is Missing || r is StorageFailure
                &&& r matches Reply::Value(v) ==> lookup(old(store)@, k) == Some(v@)
                &&& r is Missing ==> lookup(old(store)@, k) is None
            },
            CommandModel::Update(k, v) => {
                &&& r is Updated || r is Missing || r is StorageFailure
                &&& r is Updated ==> old(store)@.contains_key(k) && final(store)@ == old(store)@.insert(k, v)
                &&& r is Missing ==> !old(store)@.contains_key(k) && final(store)@ == old(store)@
            },
            CommandModel::Delete(k) => {
                &&& r is Deleted || r is Missing || r is StorageFailure
                &&& r is Deleted ==> old(store)@.contains_key(k) && final(store)@ == old(store)@.remove(k)
                &&& r is Missing ==> !old(store)@.contains_key(k) && final(store)@ == old(store)@
            },
        },
{
    match cmd {
        Command::Help => Reply::Help,
        Command::Exit => Reply::Exit,
        Command::Invalid => Reply::Invalid,
        Command::List => match store.scan() {
            Ok(v) => Reply::Listed(v),
            Err(_) => Reply::StorageFailure,
        },
        Command::Insert(k, v) => match store.insert(k.as_slice(), v.as_slice()) {
            Ok(_) => Reply::Inserted,
            Err(_) => Reply::StorageFailure,
        },
        Command::Get(k) => match store.get(k.as_slice()) {
            Ok(v) => Reply::Value(v),
            Err(StoreError::NotFound) => Reply::Missing,
            Err(_) => Reply::StorageFailure,
        },
        Command::Update(k, v) => match store.update(k.as_slice(), v.as_slice()) {
            Ok(()) => Reply::Updated,
            Err(StoreError::NotFound) => Reply::Missing,
            Err(_) => Reply::StorageFailure,
        },
        Command::Delete(k) => match store.delete(k.as_slice()) {
            Ok(_) => Reply::Deleted,
            Err(StoreError::NotFound) => Reply::Missing,
            Err(_) => Reply::StorageFailure,
        },
    }
}

} // verus!
