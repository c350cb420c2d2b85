//! Codecs at the system's boundaries: the status strings of the relational
//! table and of the HTTP body, identifier strings, whole persisted rows,
//! and the storage URL taken from configuration.

use vstd::prelude::*;
use vstd::string::StrSliceExecFns;

use crate::text::{starts_with, str_eq, str_starts_with};
use crate::todo::{Todo, TodoId, TodoStatus};

verus! {

/// The literal string a status is persisted and served as.
pub open spec fn status_str(s: TodoStatus) -> Seq<char> {
    match s {
        TodoStatus::Pending => "pending"@,
        TodoStatus::Done => "done"@,
    }
}

/// The status string persisted into a row and served in JSON.
pub fn format_status(t: &Todo) -> (r: &'static str)
    ensures
        r@ == status_str(t@.status),
{
    match t.status {
        TodoStatus::Pending => "pending",
        TodoStatus::Done => "done",
    }
}

/// Strict decoding of a client-supplied status string; anything but the two
/// literal values is a client error.
pub fn parse_status(s: &str) -> (r: Option<TodoStatus>)
    ensures
        r == (if s@ == status_str(TodoStatus::Pending) {
            Some(TodoStatus::Pending)
        } else if s@ == status_str(TodoStatus::Done) {
            Some(TodoStatus::Done)
        } else {
            None::<TodoStatus>
        }),
{
    if str_eq(s, "pending") {
        Some(TodoStatus::Pending)
    } else if str_eq(s, "done") {
        Some(TodoStatus::Done)
    } else {
        None
    }
}

/// Permissive decoding of a persisted status string: an unrecognized value
/// reads as `Pending` rather than failing.
pub fn decode_status(s: &str) -> (r: TodoStatus)
    ensures
        r == (if s@ == status_str(TodoStatus::Done) {
            TodoStatus::Done
        } else {
            TodoStatus::Pending
        }),
{
    if str_eq(s, "done") {
        TodoStatus::Done
    } else {
        TodoStatus::Pending
    }
}

/// What `uuid::Uuid::parse_str` accepts, as the 128-bit identifier value.
pub uninterp spec fn uuid_parse(s: Seq<char>) -> Option<u128>;

/// Relies on `uuid::Uuid::parse_str` and `Uuid::as_u128`: the identifier a
/// UUID string denotes, a function of the characters alone.
#[verifier::external_body]
fn parse_uuid_str(s: &str) -> (r: Option<u128>)
    ensures
        r == uuid_parse(s@),
{
    uuid::Uuid::parse_str(s).ok().map(|u| u.as_u128())
}

/// Decodes a path-segment identifier; `None` is a client error.
pub fn parse_id(s: &str) -> (r: Option<TodoId>)
    ensures
        r == (match uuid_parse(s@) {
            Some(u) => Some(TodoId(u)),
            None => None::<TodoId>,
        }),
{
    match parse_uuid_str(s) {
        Some(u) => Some(TodoId(u)),
        None => None,
    }
}

/// What `chrono::DateTime::parse_from_rfc3339` accepts, as milliseconds.
pub uninterp spec fn rfc3339_parse(s: Seq<char>) -> Option<u64>;

/// Relies on `chrono::DateTime::parse_from_rfc3339` and
/// `DateTime::timestamp_millis`: the instant an RFC 3339 string denotes, a
/// function of the characters alone.
#[verifier::external_body]
fn parse_rfc3339_millis(s: &str) -> (r: Option<u64>)
    ensures
        r == rfc3339_parse(s@),
{
    chrono::DateTime::parse_from_rfc3339(s).ok().map(|d| d.timestamp_millis() as u64)
}

/// Decodes one persisted row into a todo. Answers `None` exactly when the
/// id or a timestamp does not parse; the status column is decoded
/// permissively, as [`decode_status`] does.
pub fn decode_row(
    id: &str,
    title: String,
    description: Option<String>,
    status: &str,
    created_at: &str,
    updated_at: &str,
) -> (r: Option<Todo>)
    ensures
        r is Some <==> {
            &&& uuid_parse(id@) is Some
            &&& rfc3339_parse(created_at@) is Some
            &&& rfc3339_parse(updated_at@) is Some
        },
        r matches Some(t) ==> {
            &&& Some(t@.id) == uuid_parse(id@)
            &&& t@.title == title@
            &&& t@.description == description.deep_view()
            &&& t@.status == (if status@ == status_str(TodoStatus::Done) {
                TodoStatus::Done
            } else {
                TodoStatus::Pending
            })
            &&& Some(t@.created_at) == rfc3339_parse(created_at@)
            &&& Some(t@.updated_at) == rfc3339_parse(updated_at@)
        },
{
    let id_v = match parse_id(id) {
        Some(v) => v,
        None => {
            return None;
        },
    };
    let created = match parse_rfc3339_millis(created_at) {
        Some(v) => v,
        None => {
            return None;
        },
    };
    let updated = match parse_rfc3339_millis(updated_at) {
        Some(v) => v,
        None => {
            return None;
        },
    };
    let st = decode_status(status);
    Some(
        Todo {
            id: id_v,
            title: title,
            description: description,
            status: st,
            created_at: created,
            updated_at: updated,
        },
    )
}

/// The file path a storage URL names, if it names one: `None` for the
/// in-memory store and for any other scheme.
pub open spec fn sqlite_path_of_url(url: Seq<char>) -> Option<Seq<char>> {
    if starts_with(url, "sqlite::memory:"@) {
        None
    } else if starts_with(url, "sqlite://"@) {
        Some(url.skip("sqlite://"@.len() as int))
    } else {
        None
    }
}

/// Decides which file the configured storage URL points at: the path whose
/// directory and file must exist before the storage engine connects. The
/// in-memory store, and any URL of another scheme, needs no preparation.
pub fn prepare_sqlite_file(database_url: &str) -> (r: Option<String>)
    ensures
        r.deep_view() == sqlite_path_of_url(database_url@),
{
    if str_starts_with(database_url, "sqlite::memory:") {
        None
    } else if str_starts_with(database_url, "sqlite://") {
        let p = "sqlite://";
        let n = p.unicode_len();
        let rest = database_url.substring_char(n, database_url.unicode_len());
        proof {
            assert(rest@ =~= database_url@.skip("sqlite://"@.len() as int));
        }
        Some(rest.to_owned())
    } else {
        None
    }
}

} // verus!
