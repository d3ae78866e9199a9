//! The credentials of the cloud providers.
//!
//! The credentials live in the operating system's secret store, under one
//! service name and the provider's name. Reading and writing the store is
//! the caller's part; what an outcome of the store means is decided here.
//! That a provider has no credential is no error.

use vstd::prelude::*;
use crate::error::{AppError, AppErrorView, prefixed};
use crate::text::concat3;

verus! {

/// The service name under which the credentials are stored.
pub const SERVICE_NAME: &'static str = "app.voxlore";

/// What the store answered to a read.
#[derive(Debug, Clone, PartialEq, Eq)]
pub enum SecretRead {
    /// The credential.
    Found(String),
    /// There is no entry.
    NoEntry,
    /// The store failed, with the cause.
    Failed(String),
}

/// What the store answered to a removal.
#[derive(Debug, Clone, PartialEq, Eq)]
pub enum SecretChange {
    /// It was done.
    Done,
    /// There was no entry.
    NoEntry,
    /// The store failed, with the cause.
    Failed(String),
}

/// The message of a failure `what` for `provider` with `cause`.
pub open spec fn failure_text(what: Seq<char>, provider: Seq<char>, cause: Seq<char>) -> Seq<char> {
    what + provider + ": "@ + cause
}

fn failure(what: &str, provider: &str, cause: &str) -> (e: AppError)
    ensures
        e@ == AppErrorView::Security(failure_text(what@, provider@, cause@)),
{
    let head: String = concat3(what, provider, ": ");
    AppError::Security(prefixed(head.as_str(), cause))
}

/// The secret store as the library sees it.
#[derive(Debug, Clone, Copy, PartialEq, Eq, Structural)]
pub struct KeyStore;

impl KeyStore {
    /// The store.
    pub fn new() -> (k: Self) {
        KeyStore
    }

    /// The service name under which the credentials are stored.
    pub fn service_name(&self) -> (n: &'static str)
        ensures
            n@ == SERVICE_NAME@,
    {
        SERVICE_NAME
    }

    /// The error where the store gives no entry to work on.
    pub fn entry_error(&self, cause: &str) -> (e: AppError)
        ensures
            e@ == AppErrorView::Security("Keyring entry error: "@ + cause@),
    {
        AppError::Security(prefixed("Keyring entry error: ", cause))
    }

    /// What saving a credential came to: done, or the store's failure
    /// with its cause.
    pub fn save_result(&self, provider: &str, outcome: Result<(), String>) -> (r: Result<
        (),
        AppError,
    >)
        ensures
            match outcome {
                Ok(_) => r is Ok,
                Err(cause) => r matches Err(e) && e@ == AppErrorView::Security(
                    failure_text("Failed to save key for "@, provider@, cause@),
                ),
            },
    {
        match outcome {
            Ok(_) => Ok(()),
            Err(cause) => Err(failure("Failed to save key for ", provider, cause.as_str())),
        }
    }

    /// What reading a credential came to: the credential, or none where
    /// there is no entry, or the store's failure.
    pub fn get_result(&self, provider: &str, outcome: SecretRead) -> (r: Result<
        Option<String>,
        AppError,
    >)
        ensures
            match outcome {
                SecretRead::Found(secret) => r matches Ok(Some(s)) && s@ == secret@,
                SecretRead::NoEntry => r matches Ok(None),
                SecretRead::Failed(cause) => r matches Err(e) && e@ == AppErrorView::Security(
                    failure_text("Failed to get key for "@, provider@, cause@),
                ),
            },
    {
        match outcome {
            SecretRead::Found(secret) => Ok(Some(secret)),
            SecretRead::NoEntry => Ok(None),
            SecretRead::Failed(cause) => Err(
                failure("Failed to get key for ", provider, cause.as_str()),
            ),
        }
    }

    /// What removing a credential came to; that there was none to remove
    /// is as good as done.
    pub fn delete_result(&self, provider: &str, outcome: SecretChange) -> (r: Result<(), AppError>)
        ensures
            match outcome {
                SecretChange::Done => r is Ok,
                SecretChange::NoEntry => r is Ok,
                SecretChange::Failed(cause) => r matches Err(e) && e@ == AppErrorView::Security(
                    failure_text("Failed to delete key for "@, provider@, cause@),
                ),
            },
    {
        match outcome {
            SecretChange::Done => Ok(()),
            SecretChange::NoEntry => Ok(()),
            SecretChange::Failed(cause) => Err(
                failure("Failed to delete key for ", provider, cause.as_str()),
            ),
        }
    }

    /// Whether a provider has a credential, from what a read came to.
    pub fn has_result(&self, provider: &str, outcome: SecretRead) -> (r: Result<bool, AppError>)
        ensures
            match outcome {
                SecretRead::Found(_) => r == Ok::<bool, AppError>(true),
                SecretRead::NoEntry => r == Ok::<bool, AppError>(false),
                SecretRead::Failed(cause) => r matches Err(e) && e@ == AppErrorView::Security(
                    failure_text("Failed to check key for "@, provider@, cause@),
                ),
            },
    {
        match outcome {
            SecretRead::Found(_) => Ok(true),
            SecretRead::NoEntry => Ok(false),
            SecretRead::Failed(cause) => Err(
                failure("Failed to check key for ", provider, cause.as_str()),
            ),
        }
    }
}

} // verus!
