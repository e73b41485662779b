//! The failure kinds that the library reports. Every failure of the
//! token store, the login flow, or a remote call is one of these; all
//! of them propagate to the caller unhandled.

use vstd::prelude::*;

verus! {

/// One flat error type for the whole library.
///
/// * `MissingCredentials`: the client id or secret was not provided.
/// * `MissingAuthCode`: the OAuth callback carried no `code` parameter.
/// * `TokenExchangeFailed`: the token endpoint answered with a
///   non-success status or an unusable body; `message` is the server's
///   answer.
/// * `AccountNotFound`: the token store has no entry under the asked
///   account name.
/// * `NoStoreFile`: the token store document has never been created.
/// * `CorruptStore`: the token store document exists but could not be
///   decoded.
/// * `RemoteApiError`: a read or write call to the remote API answered
///   with a non-success status.
#[derive(Debug, Clone, PartialEq, Eq)]
pub enum SyncError {
    MissingCredentials,
    MissingAuthCode,
    TokenExchangeFailed { message: String },
    AccountNotFound,
    NoStoreFile,
    CorruptStore,
    RemoteApiError { status: u16, body: String },
}

} // verus!
