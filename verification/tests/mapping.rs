use dbactor::error::DbError;
use dbactor::executor::map_row;
use dbactor::executor::map_rows;

#[test]
fn maps_present_description() {
    let r = map_row(Some("A1".to_owned()), Some("Widget".to_owned()));
    assert_eq!(r, Ok(("A1".to_owned(), "Widget".to_owned())));
}

#[test]
fn maps_null_description_to_empty() {
    let r = map_row(Some("A2".to_owned()), None);
    assert_eq!(r, Ok(("A2".to_owned(), String::new())));
}

#[test]
fn null_identifier_is_an_error() {
    let r = map_row(None, Some("orphan".to_owned()));
    assert_eq!(r, Err(DbError::RowMapping));
}

#[test]
fn null_identifier_without_description_is_an_error() {
    let r = map_row(None, None);
    assert_eq!(r, Err(DbError::RowMapping));
}

#[test]
fn fixture_result_set_maps_in_order() {
    let rows = vec![
        (Some("A1".to_owned()), Some("Widget".to_owned())),
        (Some("A2".to_owned()), None),
    ];
    let r = map_rows(rows);
    assert_eq!(
        r,
        Ok(vec![
            ("A1".to_owned(), "Widget".to_owned()),
            ("A2".to_owned(), String::new()),
        ])
    );
}

#[test]
fn empty_result_set_is_empty_not_an_error() {
    let r = map_rows(Vec::new());
    assert_eq!(r, Ok(Vec::new()));
}

#[test]
fn one_null_identifier_fails_whole_call_without_partial_result() {
    let rows = vec![
        (Some("A1".to_owned()), Some("Widget".to_owned())),
        (None, Some("no id".to_owned())),
        (Some("A3".to_owned()), None),
    ];
    let r = map_rows(rows);
    assert_eq!(r, Err(DbError::RowMapping));
}
