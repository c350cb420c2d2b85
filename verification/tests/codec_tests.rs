use todo_api::codec::{decode_row, decode_status, format_status, parse_id, parse_status,
    prepare_sqlite_file};
use todo_api::http_types::ApiError;
use todo_api::text::trim_chars;
use todo_api::todo::{Todo, TodoId, TodoStatus};

#[test]
fn parse_id_reads_canonical_uuid_strings() {
    assert_eq!(
        parse_id("00000000-0000-0000-0000-000000000001"),
        Some(TodoId(1))
    );
    assert_eq!(
        parse_id("00000000-0000-0000-0000-0000000000ff"),
        Some(TodoId(255))
    );
    assert_eq!(parse_id("not-a-uuid"), None);
    assert_eq!(parse_id(""), None);
}

#[test]
fn status_strings_round_trip() {
    let t = Todo {
        id: TodoId(1),
        title: "a".to_string(),
        description: None,
        status: TodoStatus::Pending,
        created_at: 0,
        updated_at: 0,
    };
    assert_eq!(format_status(&t), "pending");
    let d = Todo { status: TodoStatus::Done, ..t };
    assert_eq!(format_status(&d), "done");
    assert_eq!(parse_status("pending"), Some(TodoStatus::Pending));
    assert_eq!(parse_status("done"), Some(TodoStatus::Done));
    assert_eq!(parse_status("finished"), None);
    assert_eq!(parse_status(""), None);
}

#[test]
fn unrecognized_persisted_status_reads_as_pending() {
    assert_eq!(decode_status("done"), TodoStatus::Done);
    assert_eq!(decode_status("pending"), TodoStatus::Pending);
    assert_eq!(decode_status("something-else"), TodoStatus::Pending);
}

#[test]
fn decode_row_reads_a_well_formed_row() {
    let t = decode_row(
        "00000000-0000-0000-0000-000000000001",
        "Test".to_string(),
        Some("First".to_string()),
        "done",
        "1970-01-01T00:00:02+00:00",
        "1970-01-01T00:00:03+00:00",
    )
    .unwrap();
    assert_eq!(t.id, TodoId(1));
    assert_eq!(t.title, "Test");
    assert_eq!(t.description.as_deref(), Some("First"));
    assert_eq!(t.status, TodoStatus::Done);
    assert_eq!(t.created_at, 2000);
    assert_eq!(t.updated_at, 3000);
}

#[test]
fn decode_row_rejects_malformed_id_or_timestamp() {
    assert!(decode_row(
        "xyz",
        "a".to_string(),
        None,
        "pending",
        "1970-01-01T00:00:02+00:00",
        "1970-01-01T00:00:02+00:00",
    )
    .is_none());
    assert!(decode_row(
        "00000000-0000-0000-0000-000000000001",
        "a".to_string(),
        None,
        "pending",
        "yesterday",
        "1970-01-01T00:00:02+00:00",
    )
    .is_none());
    assert!(decode_row(
        "00000000-0000-0000-0000-000000000001",
        "a".to_string(),
        None,
        "pending",
        "1970-01-01T00:00:02+00:00",
        "later",
    )
    .is_none());
}

#[test]
fn storage_url_names_the_file_to_prepare() {
    assert_eq!(prepare_sqlite_file("sqlite://todos.db").as_deref(), Some("todos.db"));
    assert_eq!(
        prepare_sqlite_file("sqlite://data/todos.db").as_deref(),
        Some("data/todos.db")
    );
    assert_eq!(prepare_sqlite_file("sqlite::memory:"), None);
    assert_eq!(prepare_sqlite_file("postgres://localhost/x"), None);
    assert_eq!(prepare_sqlite_file(""), None);
}

#[test]
fn api_error_is_a_client_error() {
    let e = ApiError { message: "invalid id".to_string() };
    assert_eq!(e.status_code(), 400);
    assert_eq!(e.message, "invalid id");
}

#[test]
fn trim_removes_outer_whitespace_only() {
    let trimmed = trim_chars(&vec![' ', '\t', 'a', ' ', 'b', '\n', ' ']);
    assert_eq!(trimmed, vec!['a', ' ', 'b']);
    let empty = trim_chars(&vec![' ', '\r', '\n']);
    assert!(empty.is_empty());
    let untouched = trim_chars(&vec!['a', 'b']);
    assert_eq!(untouched, vec!['a', 'b']);
}
