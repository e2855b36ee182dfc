use rsdb::cursor::{Pull, ResultCursor};
use rsdb::model::Error;
use rsdb::postgres::{pull_of, update_count};

fn message(e: &Error) -> String {
    match e {
        Error::General(m) => m.clone(),
    }
}

#[test]
fn no_row_before_first_advance() {
    let c: ResultCursor<i32> = ResultCursor::new();
    assert!(!c.is_positioned());
    assert_eq!(message(&c.current_row().unwrap_err()), "no current row");
    assert!(c.needs_pull());
}

#[test]
fn rows_are_seen_in_stream_order() {
    let mut c: ResultCursor<i32> = ResultCursor::new();
    assert!(c.advance(Pull::Row(10)));
    assert_eq!(*c.current_row().unwrap(), 10);
    assert!(c.advance(Pull::Row(20)));
    assert_eq!(*c.current_row().unwrap(), 20);
    assert!(c.advance(Pull::Row(30)));
    assert_eq!(*c.current_row().unwrap(), 30);
}

#[test]
fn no_row_after_exhaustion() {
    let mut c: ResultCursor<i32> = ResultCursor::new();
    assert!(c.advance(Pull::Row(1)));
    assert!(!c.advance(Pull::End));
    assert_eq!(message(&c.current_row().unwrap_err()), "no current row");
    assert!(!c.needs_pull());
    assert!(!c.advance(Pull::Row(2)));
    assert!(c.current_row().is_err());
    assert!(c.error().is_none());
}

#[test]
fn stream_failure_is_kept_apart_from_end() {
    let mut c: ResultCursor<String> = ResultCursor::new();
    assert!(!c.advance(Pull::Failed(Error::General("broken pipe".to_owned()))));
    assert_eq!(message(c.error().unwrap()), "broken pipe");
    assert!(c.current_row().is_err());
    assert!(!c.needs_pull());
}

#[test]
fn empty_stream_never_positions() {
    let mut c: ResultCursor<i32> = ResultCursor::new();
    assert!(!c.advance(Pull::End));
    assert!(!c.is_positioned());
}

#[test]
fn typed_getters_fail_without_row() {
    let c: ResultCursor<tokio_postgres::Row> = ResultCursor::new();
    assert_eq!(message(&c.get_i8(0).unwrap_err()), "no current row");
    assert_eq!(message(&c.get_i16(0).unwrap_err()), "no current row");
    assert_eq!(message(&c.get_i32(0).unwrap_err()), "no current row");
    assert_eq!(message(&c.get_i64(0).unwrap_err()), "no current row");
    assert_eq!(message(&c.get_string(1).unwrap_err()), "no current row");
    assert_eq!(message(&c.get_bytes(1).unwrap_err()), "no current row");
    assert!(c.meta_data().is_err());
}

#[test]
fn typed_getters_fail_after_end() {
    let mut c: ResultCursor<tokio_postgres::Row> = ResultCursor::new();
    assert!(!c.advance(pull_of(None)));
    assert_eq!(message(&c.get_i32(0).unwrap_err()), "no current row");
    assert_eq!(message(&c.get_string(1).unwrap_err()), "no current row");
}

#[test]
fn end_of_stream_becomes_end() {
    assert!(matches!(pull_of(None), Pull::End));
}

#[test]
fn update_count_is_the_reported_count() {
    assert_eq!(update_count(Ok(3)).unwrap(), 3);
    assert_eq!(update_count(Ok(0)).unwrap(), 0);
}

#[test]
fn category_rows_read_as_pairs() {
    let mut c: ResultCursor<(i32, String)> = ResultCursor::new();
    let stream = vec![(1, "Action".to_owned()), (2, "Animation".to_owned())];
    let mut seen = Vec::new();
    let mut items = stream.clone().into_iter();
    while c.advance(match items.next() {
        Some(r) => Pull::Row(r),
        None => Pull::End,
    }) {
        let (id, name) = c.current_row().unwrap().clone();
        seen.push((id, name));
    }
    assert_eq!(seen, stream);
    assert!(c.current_row().is_err());
}

#[test]
fn count_query_yields_one_row() {
    let mut c: ResultCursor<i64> = ResultCursor::new();
    let mut rows = 0;
    let mut items = vec![7i64].into_iter();
    while c.advance(match items.next() {
        Some(r) => Pull::Row(r),
        None => Pull::End,
    }) {
        assert_eq!(*c.current_row().unwrap(), 7);
        rows += 1;
    }
    assert_eq!(rows, 1);
}

#[test]
fn metadata_is_reported_unavailable() {
    let c: ResultCursor<tokio_postgres::Row> = ResultCursor::new();
    assert_eq!(message(&c.meta_data().unwrap_err()), "No Metadata");
}
