use vstd::prelude::*;

use crate::errors::KeyringError;

verus! {

/// A handle to the persistent store. The store is an external collaborator
/// with no implementation at this layer, so no operation ever produces one:
/// the type only fixes the call surface the future backend must fill.
pub struct StoreHandle;

/// The store has no implementation at this layer: opening reports so.
pub fn store_open(_path: String) -> (r: Result<StoreHandle, KeyringError>)
    ensures
        r is Err && r->Err_0 == KeyringError::NotImplemented,
{
    Err(KeyringError::NotImplemented)
}

/// Storing a blob (which would answer with its content hash) reports that
/// the store is not implemented.
pub fn store_put_blob(_store: &StoreHandle, _data: &[u8]) -> (r: Result<Vec<u8>, KeyringError>)
    ensures
        r is Err && r->Err_0 == KeyringError::NotImplemented,
{
    Err(KeyringError::NotImplemented)
}

/// Fetching a blob by its hash reports that the store is not implemented.
pub fn store_get_blob(_store: &StoreHandle, _hash: &[u8]) -> (r: Result<Vec<u8>, KeyringError>)
    ensures
        r is Err && r->Err_0 == KeyringError::NotImplemented,
{
    Err(KeyringError::NotImplemented)
}

/// An existence query for a blob reports that the store is not implemented.
pub fn store_has_blob(_store: &StoreHandle, _hash: &[u8]) -> (r: Result<bool, KeyringError>)
    ensures
        r is Err && r->Err_0 == KeyringError::NotImplemented,
{
    Err(KeyringError::NotImplemented)
}

/// Storing a structured document reports that the store is not implemented.
pub fn store_put_document(_store: &StoreHandle, _doc: &[u8]) -> (r: Result<Vec<u8>, KeyringError>)
    ensures
        r is Err && r->Err_0 == KeyringError::NotImplemented,
{
    Err(KeyringError::NotImplemented)
}

/// Fetching a document by identifier reports that the store is not
/// implemented.
pub fn store_get_document(_store: &StoreHandle, _id: &[u8]) -> (r: Result<Vec<u8>, KeyringError>)
    ensures
        r is Err && r->Err_0 == KeyringError::NotImplemented,
{
    Err(KeyringError::NotImplemented)
}

/// Listing the documents under a keyring identifier reports that the store
/// is not implemented.
pub fn store_list_documents(_store: &StoreHandle, _keyring_id: &[u8]) -> (r: Result<
    Vec<Vec<u8>>,
    KeyringError,
>)
    ensures
        r is Err && r->Err_0 == KeyringError::NotImplemented,
{
    Err(KeyringError::NotImplemented)
}

/// Deleting a document by identifier reports that the store is not
/// implemented.
pub fn store_delete_document(_store: &StoreHandle, _id: &[u8]) -> (r: Result<(), KeyringError>)
    ensures
        r is Err && r->Err_0 == KeyringError::NotImplemented,
{
    Err(KeyringError::NotImplemented)
}

} // verus!
