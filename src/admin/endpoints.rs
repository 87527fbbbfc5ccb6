//! The decisions of the administrative endpoints. The store and the runtime
//! are called around them; these functions take what came back and say
//! what happens next.
use vstd::prelude::*;

use crate::admin::error::Error;
use crate::admin::loader::LoadError;
use crate::database::error::Error as StoreError;
use crate::proxy::{Proxy, ProxyMetadata};
use crate::resolution::RuntimeFault;

verus! {

pub const OK: u16 = 200;

pub const CREATED: u16 = 201;

pub const NOT_FOUND: u16 = 404;

/// The error reported when the component bytes could not be had.
pub fn load_failure(e: &LoadError) -> (r: Error)
    ensures
        r matches Error::FailedToLoad(m) && m@ == e.text(),
{
    Error::FailedToLoad(e.to_string())
}

/// After an insert: `201` where the tag was new, a conflict where the store
/// already held it.
pub fn created(inserted: Option<ProxyMetadata>) -> (r: Result<u16, Error>)
    ensures
        inserted is Some ==> r == Ok::<u16, Error>(201),
        inserted is None ==> r == Err::<u16, Error>(Error::TagAlreadyExists),
{
    match inserted {
        Some(_) => Ok(CREATED),
        None => Err(Error::TagAlreadyExists),
    }
}

/// After selecting the current extension: `404` where the tag is unknown,
/// else the component to activate.
pub fn activation(selected: Option<Proxy>) -> (r: Result<Vec<u8>, u16>)
    ensures
        match selected {
            Some(p) => r == Ok::<Vec<u8>, u16>(p.component),
            None => r == Err::<Vec<u8>, u16>(404),
        },
{
    match selected {
        Some(p) => Ok(p.component),
        None => Err(NOT_FOUND),
    }
}

/// After an extension was changed or deleted: the tag whose component must
/// be swapped in, where the change hit the current extension. A store that
/// names no current extension is a read failure.
pub fn reload_target(changed: &ProxyMetadata, current: Option<ProxyMetadata>) -> (r: Result<
    Option<String>,
    Error,
>)
    ensures
        match current {
            None => r == Err::<Option<String>, Error>(
                Error::DatabaseError(StoreError::UnableToReadRoads),
            ),
            Some(c) => if c.tag@ == changed.tag@ {
                r == Ok::<Option<String>, Error>(Some(c.tag))
            } else {
                r == Ok::<Option<String>, Error>(None)
            },
        },
{
    match current {
        None => Err(Error::DatabaseError(StoreError::UnableToReadRoads)),
        Some(c) => {
            if c.tag == changed.tag {
                Ok(Some(c.tag))
            } else {
                Ok(None)
            }
        },
    }
}

/// The component of the extension to swap in; a missing one is a read
/// failure.
pub fn reload_component(fetched: Option<Proxy>) -> (r: Result<Vec<u8>, Error>)
    ensures
        match fetched {
            Some(p) => r == Ok::<Vec<u8>, Error>(p.component),
            None => r == Err::<Vec<u8>, Error>(
                Error::DatabaseError(StoreError::UnableToReadRoads),
            ),
        },
{
    match fetched {
        Some(p) => Ok(p.component),
        None => Err(Error::DatabaseError(StoreError::UnableToReadRoads)),
    }
}

/// After a hot swap: `200`, or the failure to hand the component over.
pub fn swapped(outcome: Result<(), RuntimeFault>) -> (r: Result<u16, Error>)
    ensures
        outcome is Ok ==> r == Ok::<u16, Error>(200),
        outcome is Err ==> r == Err::<u16, Error>(Error::FailedToSendMessage),
{
    match outcome {
        Ok(()) => Ok(OK),
        Err(_) => Err(Error::FailedToSendMessage),
    }
}

/// After an update: the changed extension, or `404` where the tag is
/// unknown.
pub fn update_target(updated: Option<ProxyMetadata>) -> (r: Result<ProxyMetadata, u16>)
    ensures
        match updated {
            Some(m) => r == Ok::<ProxyMetadata, u16>(m),
            None => r == Err::<ProxyMetadata, u16>(404),
        },
{
    match updated {
        Some(m) => Ok(m),
        None => Err(NOT_FOUND),
    }
}

/// After a delete: the deleted extension, or `200` with nothing more to do
/// where no extension had the tag.
pub fn delete_target(deleted: Option<ProxyMetadata>) -> (r: Result<ProxyMetadata, u16>)
    ensures
        match deleted {
            Some(m) => r == Ok::<ProxyMetadata, u16>(m),
            None => r == Err::<ProxyMetadata, u16>(200),
        },
{
    match deleted {
        Some(m) => Ok(m),
        None => Err(OK),
    }
}

/// After activating the selected extension: `200`, or a read failure where
/// the swap was refused.
pub fn activated(outcome: Result<(), RuntimeFault>) -> (r: Result<u16, Error>)
    ensures
        outcome is Ok ==> r == Ok::<u16, Error>(200),
        outcome is Err ==> r == Err::<u16, Error>(Error::DatabaseError(StoreError::UnableToReadRoads)),
{
    match outcome {
        Ok(()) => Ok(OK),
        Err(_) => Err(Error::DatabaseError(StoreError::UnableToReadRoads)),
    }
}

} // verus!
