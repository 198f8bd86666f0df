use vstd::prelude::*;

use async_session::chrono::{DateTime, Utc};
use async_session::Session;

use crate::error::StoreError;

verus! {

/// `async_session::Session`, a session with its id, expiry and data.
#[verifier::external_type_specification]
#[verifier::external_body]
pub struct ExSession(Session);

/// The session id that `Session::id_from_cookie_value` computes from a
/// cookie value, or `None` where it fails (the cookie value is not base64).
pub uninterp spec fn session_id_of_cookie(cookie_value: Seq<char>) -> Option<Seq<char>>;

/// The id and the expiry of the session that `serde_json::from_str` reads
/// from `json`, or `None` where it reads no session.
pub uninterp spec fn session_json_read(json: Seq<char>) -> Option<(Seq<char>, Option<(i64, u32)>)>;

/// Whether `data` is JSON text that a session's data can be read from: an
/// object whose values are strings. This is when `serde_json::from_value`
/// builds a session from an id, an expiry and this data.
pub uninterp spec fn session_data_readable(data: Seq<char>) -> bool;

/// Whether `DateTime::<Utc>::from_timestamp(secs, nanos)` gives a time.
pub uninterp spec fn is_utc_timestamp(secs: i64, nanos: u32) -> bool;

/// The id of a session, as `Session::id` gives it.
pub uninterp spec fn id_of(session: Session) -> Seq<char>;

/// The expiry of a session, as `Session::expiry` gives it, in seconds and
/// nanoseconds since the Unix epoch.
pub uninterp spec fn expiry_of(session: Session) -> Option<(i64, u32)>;

/// The cookie value that a session holds, as `Session::into_cookie_value`
/// hands it out.
pub uninterp spec fn cookie_value_of(session: Session) -> Option<Seq<char>>;

/// Calls `async_session::Session::id_from_cookie_value`, which decodes the
/// cookie value from base64 and hashes it into the session id. The contract
/// claims that the outcome is a function of the cookie value alone.
#[verifier::external_body]
fn id_from_cookie_value(cookie_value: &str) -> (r: Result<String, base64::DecodeError>)
    ensures
        match r {
            Ok(id) => session_id_of_cookie(cookie_value@) == Some(id@),
            Err(_) => session_id_of_cookie(cookie_value@) is None,
        },
{
    Session::id_from_cookie_value(cookie_value)
}

/// Calls `serde_json::from_str::<Session>`. The contract claims that the
/// outcome is a function of the text, that the session read has the id and
/// the expiry that the text holds, and that it holds no cookie value: that
/// field is `#[serde(skip)]`, so it takes its default, `None`. Of the
/// session's data nothing is claimed: it lives behind a lock that every
/// clone of the session shares.
#[verifier::external_body]
fn session_from_json(json: &str) -> (r: Result<Session, serde_json::Error>)
    ensures
        match r {
            Ok(session) => {
                &&& session_json_read(json@) == Some((id_of(session), expiry_of(session)))
                &&& cookie_value_of(session) is None
            },
            Err(_) => session_json_read(json@) is None,
        },
{
    serde_json::from_str(json)
}

/// Calls `serde_json::to_string` on a session. `Session` derives both
/// `Serialize` and `Deserialize`; its expiry is written as RFC 3339 text,
/// which chrono documents that it reads back, and its data is a map of
/// strings. So the contract claims that text it writes reads back as a
/// session with the same id and expiry. Which text it is, and whether it
/// fails, is not claimed: the data is shared with the session's clones and
/// written in the order of a hash map, and a poisoned lock fails.
#[verifier::external_body]
pub(crate) fn session_to_json(session: &Session) -> (r: Result<String, serde_json::Error>)
    ensures
        r matches Ok(json) ==> session_json_read(json@) == Some((id_of(*session), expiry_of(*session))),
{
    serde_json::to_string(session)
}

/// Calls `serde_json::to_value` on a session and writes out the `data`
/// member of the value it gives: the session's data as JSON text. The data
/// is a map of strings, so the contract claims that the text is one a
/// session's data can be read from. Which text it is, and whether it fails,
/// is not claimed, as for `session_to_json`.
#[verifier::external_body]
pub(crate) fn session_data_json(session: &Session) -> (r: Result<String, serde_json::Error>)
    ensures
        r matches Ok(data) ==> session_data_readable(data@),
{
    let value = serde_json::to_value(session)?;
    serde_json::to_string(&value["data"])
}

/// Calls `serde_json::from_value::<Session>` on the session that `id`, the
/// expiry `expires` and the data text `data` make: the three parts that a
/// session serialises to. The expiry is made by `DateTime::from_timestamp`,
/// and is left out where that gives no time. The contract claims that this
/// succeeds exactly when the data text is readable, and that the session
/// built has the id and expiry given and no cookie value. Of its data
/// nothing is claimed, as for `session_from_json`.
#[verifier::external_body]
fn session_from_parts(id: &str, data: &str, expires: Option<(i64, u32)>) -> (r: Result<
    Session,
    serde_json::Error,
>)
    ensures
        match r {
            Ok(session) => {
                &&& session_data_readable(data@)
                &&& id_of(session) == id@
                &&& expiry_of(session) == rebuilt_expiry(expires)
                &&& cookie_value_of(session) is None
            },
            Err(_) => !session_data_readable(data@),
        },
{
    let expiry = match expires {
        Some((secs, nanos)) => DateTime::<Utc>::from_timestamp(secs, nanos),
        None => None,
    };
    let mut parts = serde_json::Map::new();
    parts.insert("id".to_owned(), serde_json::Value::String(id.to_owned()));
    parts.insert("expiry".to_owned(), serde_json::to_value(expiry)?);
    parts.insert("data".to_owned(), serde_json::from_str(data)?);
    serde_json::from_value(serde_json::Value::Object(parts))
}

/// Calls `Session::id` and copies the id.
#[verifier::external_body]
pub(crate) fn session_id(session: &Session) -> (id: String)
    ensures
        id@ == id_of(*session),
{
    session.id().to_owned()
}

/// Calls `Session::expiry` and gives the time as seconds and nanoseconds
/// since the Unix epoch (`timestamp` and `timestamp_subsec_nanos`), which
/// chrono documents that `DateTime::from_timestamp` turns back into the
/// same time.
#[verifier::external_body]
pub(crate) fn session_expiry(session: &Session) -> (expires: Option<(i64, u32)>)
    ensures
        expires == expiry_of(*session),
        expires matches Some((secs, nanos)) ==> is_utc_timestamp(secs, nanos),
{
    match session.expiry() {
        Some(expiry) => Some((expiry.timestamp(), expiry.timestamp_subsec_nanos())),
        None => None,
    }
}

/// Calls `Session::into_cookie_value`, which hands out the cookie value the
/// session holds: the one a new session was made with, and `None` for a
/// session read from a store.
#[verifier::external_body]
fn into_cookie_value(session: Session) -> (cookie_value: Option<String>)
    ensures
        match cookie_value {
            Some(v) => cookie_value_of(session) == Some(v@),
            None => cookie_value_of(session) is None,
        },
{
    session.into_cookie_value()
}

/// A statement that reads or deletes one session, and the session id to
/// bind to it first.
#[derive(Debug)]
pub struct SessionStatement {
    /// The SQL text.
    pub sql: String,
    /// The id of the session.
    pub id: String,
}

/// A statement that writes one session, with the session id, the stored
/// text and the expiry to bind to it.
#[derive(Debug)]
pub struct SessionWrite {
    /// The SQL text.
    pub sql: String,
    /// The id of the session.
    pub id: String,
    /// The stored text: the session's data as JSON (MySQL), or the whole
    /// session as JSON (SQLite).
    pub json: String,
    /// The expiry, in seconds and nanoseconds since the Unix epoch.
    pub expires: Option<(i64, u32)>,
}

/// The id of the session that the cookie value `cookie_value` stands for:
/// the first step of loading a session.
pub fn session_id_from_cookie(cookie_value: &str) -> (r: Result<String, StoreError>)
    ensures
        match r {
            Ok(id) => session_id_of_cookie(cookie_value@) == Some(id@),
            Err(e) => session_id_of_cookie(cookie_value@) is None && e is Base64,
        },
{
    match id_from_cookie_value(cookie_value) {
        Ok(id) => Ok(id),
        Err(e) => Err(StoreError::Base64(e)),
    }
}

/// The expiry that a session built from the stored expiry `expires` has:
/// `expires` itself where it is a time, and none otherwise.
pub open spec fn rebuilt_expiry(expires: Option<(i64, u32)>) -> Option<(i64, u32)> {
    match expires {
        Some((secs, nanos)) => if is_utc_timestamp(secs, nanos) {
            expires
        } else {
            None
        },
        None => None,
    }
}

/// The session that a stored row of session data and expiry makes, given
/// the session id the row was found under (`None` where no live row was
/// found): the last step of loading a session from its parts. A row whose
/// data cannot be read is an error.
pub fn session_from_parts_row(id: String, row: Option<(String, Option<(i64, u32)>)>) -> (r: Result<
    Option<Session>,
    StoreError,
>)
    ensures
        match row {
            None => r is Ok && r->Ok_0 is None,
            Some((data, expires)) => match r {
                Ok(Some(session)) => {
                    &&& session_data_readable(data@)
                    &&& id_of(session) == id@
                    &&& expiry_of(session) == rebuilt_expiry(expires)
                    &&& cookie_value_of(session) is None
                },
                Ok(None) => false,
                Err(e) => !session_data_readable(data@) && e is SerdeJson,
            },
        },
{
    match row {
        None => Ok(None),
        Some((data, expires)) => match session_from_parts(id.as_str(), data.as_str(), expires) {
            Ok(session) => Ok(Some(session)),
            Err(e) => Err(StoreError::SerdeJson(e)),
        },
    }
}

/// The session that a stored row holds, where the row is the session's JSON
/// text, or `None` where no live row was found or the row is not a session:
/// the last step of loading a session where every failure reads as "no
/// session".
pub fn session_from_row_or_none(row: Option<String>) -> (r: Option<Session>)
    ensures
        match row {
            None => r is None,
            Some(json) => match r {
                Some(session) => {
                    &&& session_json_read(json@) == Some((id_of(session), expiry_of(session)))
                    &&& cookie_value_of(session) is None
                },
                None => session_json_read(json@) is None,
            },
        },
{
    match row {
        None => None,
        Some(json) => match session_from_json(json.as_str()) {
            Ok(session) => Some(session),
            Err(_) => None,
        },
    }
}

/// What a store answers once a session is written: the cookie value the
/// session holds, if any. The last step of storing a session.
pub fn stored_session_cookie(session: Session) -> (cookie_value: Option<String>)
    ensures
        match cookie_value {
            Some(v) => cookie_value_of(session) == Some(v@),
            None => cookie_value_of(session) is None,
        },
{
    into_cookie_value(session)
}

/// Read after write, for a store that keeps whole sessions as JSON: the
/// session read back from the text written for a session has that
/// session's id and expiry, and no cookie value, so storing it again
/// answers `None`. The first requirement is what `store_statement` gives of
/// the text; the others are what `session_from_row_or_none` gives of the
/// session read from it.
pub proof fn lemma_whole_session_read_after_write(stored: Session, json: Seq<char>, loaded: Session)
    requires
        session_json_read(json) == Some((id_of(stored), expiry_of(stored))),
        session_json_read(json) == Some((id_of(loaded), expiry_of(loaded))),
        cookie_value_of(loaded) is None,
    ensures
        id_of(loaded) == id_of(stored),
        expiry_of(loaded) == expiry_of(stored),
        cookie_value_of(loaded) is None,
{
}

/// Read after write, for a store that keeps a session's data and expiry in
/// a row under its id: the data text written is one that reads back, and
/// the session rebuilt under the same id from that row has the stored
/// session's id and expiry, and no cookie value. The first three
/// requirements are what `store_statement` gives of the row; the rest are
/// what `session_from_parts_row` gives of a session rebuilt from it.
pub proof fn lemma_parts_read_after_write(
    stored: Session,
    data: Seq<char>,
    expires: Option<(i64, u32)>,
    loaded: Session,
)
    requires
        session_data_readable(data),
        expires == expiry_of(stored),
        expires matches Some((secs, nanos)) ==> is_utc_timestamp(secs, nanos),
        id_of(loaded) == id_of(stored),
        expiry_of(loaded) == rebuilt_expiry(expires),
        cookie_value_of(loaded) is None,
    ensures
        id_of(loaded) == id_of(stored),
        expiry_of(loaded) == expiry_of(stored),
        cookie_value_of(loaded) is None,
{
}

} // verus!
