use vstd::prelude::*;

verus! {

/// `sqlx::Error`, an error that a database operation reports.
#[verifier::external_type_specification]
#[verifier::external_body]
pub struct ExSqlxError(sqlx::Error);

/// `serde_json::Error`, an error of reading or writing JSON.
#[verifier::external_type_specification]
#[verifier::external_body]
pub struct ExSerdeJsonError(serde_json::Error);

/// `base64::DecodeError`, an error of decoding base64 text.
#[verifier::external_type_specification]
#[verifier::external_body]
pub struct ExBase64DecodeError(base64::DecodeError);

} // verus!
