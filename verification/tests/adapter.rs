use table_queries::adapter::{absorb_row_not_found, StoreError};

#[derive(Debug, Clone, PartialEq, Eq)]
struct Row {
    id: i64,
    name: String,
}

#[test]
fn test_notfound() {
    // The optional lookup turns the store's row-not-found outcome into an
    // empty result instead of an error.
    let fetched: Result<Row, StoreError<String>> = Err(StoreError::RowNotFound);
    assert_eq!(absorb_row_not_found(fetched), Ok(None));
}

#[test]
fn present_row_is_wrapped() {
    let row = Row { id: 7, name: "test".to_string() };
    let fetched: Result<Row, StoreError<String>> = Ok(row.clone());
    assert_eq!(absorb_row_not_found(fetched), Ok(Some(row)));
}

#[test]
fn other_failures_propagate_unchanged() {
    let fetched: Result<Row, StoreError<String>> =
        Err(StoreError::Other("connection reset".to_string()));
    assert_eq!(
        absorb_row_not_found(fetched),
        Err(StoreError::Other("connection reset".to_string()))
    );
}
