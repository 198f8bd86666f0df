use vstd::prelude::*;

verus! {

/// Errors that can arise in the operation of the session stores of this
/// crate.
#[derive(Debug)]
pub enum StoreError {
    /// An error that comes from sqlx.
    SqlxError(sqlx::Error),
    /// An error that comes from serde_json.
    SerdeJson(serde_json::Error),
    /// An error that comes from base64.
    Base64(base64::DecodeError),
}

} // verus!
