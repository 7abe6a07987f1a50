use bookshelf::models::{BookError, SearchConfig, SortDescriptor, SortOrder, StoreResult};
use bookshelf::query::{
    assemble, column_allowed, fill, read_count, read_page, render_limit, render_order,
    QueryBuilder,
};
use bookshelf::sqlite::SqlValue;

fn clause(text: &str) -> (String, Vec<String>) {
    ("name LIKE ?".to_string(), vec![format!("%{}%", text)])
}

fn no_clause(_text: &str) -> (String, Vec<String>) {
    (String::new(), vec!["unused".to_string()])
}

fn number(row: &Vec<SqlValue>) -> Result<i64, BookError> {
    match row.first() {
        Some(SqlValue::Integer(i)) if *i >= 0 => Ok(*i),
        _ => Err(BookError::Generic("no number".to_string())),
    }
}

#[test]
fn statements_of_an_unfiltered_search() {
    let config = SearchConfig::new("").build();
    let mut builder = QueryBuilder::new("SELECT name FROM authors", &config, &["name"]);
    builder.use_where_clause(clause).unwrap();
    assert_eq!(builder.count_sql(), "SELECT COUNT(*) FROM (SELECT name FROM authors);");
    assert_eq!(builder.fetch_sql(), "SELECT name FROM authors ");
    assert!(builder.bound_params().is_empty());
    assert_eq!(builder.skipped(), 0);
}

#[test]
fn statements_of_a_filtered_sorted_page() {
    let config = SearchConfig::new("gand")
        .use_take(20)
        .use_skip_page(3)
        .use_sort(vec![
            SortDescriptor("name".to_string(), SortOrder::Desc),
            SortDescriptor("secret".to_string(), SortOrder::Asc),
            SortDescriptor("book_id".to_string(), SortOrder::Asc),
        ])
        .build();
    let mut builder =
        QueryBuilder::new("SELECT name FROM authors", &config, &["book_id", "name"]);
    builder.use_where_clause(clause).unwrap();
    assert_eq!(
        builder.count_sql(),
        "SELECT COUNT(*) FROM (SELECT name FROM authors WHERE name LIKE ?);"
    );
    assert_eq!(
        builder.fetch_sql(),
        "SELECT name FROM authors WHERE name LIKE ? ORDER BY name DESC, book_id ASC LIMIT 20 OFFSET 60"
    );
    assert_eq!(builder.bound_params(), vec!["%gand%".to_string()]);
    assert_eq!(builder.skipped(), 3);
}

#[test]
fn count_is_the_same_for_every_page() {
    let first = SearchConfig::new("gand").build();
    let second = SearchConfig::new("gand")
        .use_take(2)
        .use_skip_page(7)
        .use_sort(vec![SortDescriptor("name".to_string(), SortOrder::Asc)])
        .build();
    let mut a = QueryBuilder::new("SELECT name FROM authors", &first, &["name"]);
    let mut b = QueryBuilder::new("SELECT name FROM authors", &second, &["name"]);
    a.use_where_clause(clause).unwrap();
    b.use_where_clause(clause).unwrap();
    assert_eq!(a.count_sql(), b.count_sql());
    assert_eq!(a.bound_params(), b.bound_params());
    assert_ne!(a.fetch_sql(), b.fetch_sql());
}

#[test]
fn an_empty_clause_leaves_the_search_unfiltered() {
    let config = SearchConfig::new("gand").build();
    let mut builder = QueryBuilder::new("SELECT 1", &config, &[]);
    builder.use_where_clause(no_clause).unwrap();
    assert_eq!(builder.count_sql(), "SELECT COUNT(*) FROM (SELECT 1);");
    assert!(builder.bound_params().is_empty());
}

#[test]
fn page_size_without_pages_to_skip() {
    let config = SearchConfig::new("").use_take(5).build();
    let builder = QueryBuilder::new("SELECT 1", &config, &[]);
    assert_eq!(builder.fetch_sql(), "SELECT 1 LIMIT 5");
    assert_eq!(builder.skipped(), 0);

    let zero = SearchConfig::new("").use_take(5).use_skip_page(0).build();
    let builder = QueryBuilder::new("SELECT 1", &zero, &[]);
    assert_eq!(builder.fetch_sql(), "SELECT 1 LIMIT 5");
    assert_eq!(builder.skipped(), 0);
}

#[test]
fn pages_to_skip_without_page_size_are_ignored() {
    let config = SearchConfig::new("").use_skip_page(4).build();
    let builder = QueryBuilder::new("SELECT 1", &config, &[]);
    assert_eq!(builder.fetch_sql(), "SELECT 1 ");
    assert_eq!(builder.skipped(), 0);
}

#[test]
fn offset_does_not_overflow() {
    let config = SearchConfig::new("").use_take(u64::MAX).use_skip_page(u64::MAX).build();
    let builder = QueryBuilder::new("SELECT 1", &config, &[]);
    assert_eq!(
        builder.fetch_sql(),
        "SELECT 1 LIMIT 18446744073709551615 OFFSET 340282366920938463426481119284349108225"
    );
    assert_eq!(builder.skipped(), u64::MAX);
}

#[test]
fn clause_and_raw_parameters_exclude_each_other() {
    let config = SearchConfig::new("gand").build();
    let mut builder = QueryBuilder::new("SELECT 1", &config, &[]);
    builder.use_where_clause(clause).unwrap();
    match builder.use_params(vec!["x".to_string()]) {
        Err(BookError::Generic(msg)) => {
            assert_eq!(msg, "Either use 'use_where_clause' or 'use_params'")
        }
        other => panic!("{:?}", other),
    }
    assert_eq!(builder.bound_params(), vec!["%gand%".to_string()]);

    let mut builder = QueryBuilder::new("SELECT ?", &config, &[]);
    builder.use_params(vec!["x".to_string()]).unwrap();
    match builder.use_where_clause(clause) {
        Err(BookError::Generic(msg)) => {
            assert_eq!(msg, "Either use 'use_where_clause' or 'use_params'")
        }
        other => panic!("{:?}", other),
    }
    assert_eq!(builder.count_sql(), "SELECT COUNT(*) FROM (SELECT ?);");
    assert_eq!(builder.bound_params(), vec!["x".to_string()]);
}

#[test]
fn order_and_limit_clauses() {
    let sort = vec![
        SortDescriptor("b".to_string(), SortOrder::Asc),
        SortDescriptor("a".to_string(), SortOrder::Desc),
    ];
    assert_eq!(render_order(&sort, &["a", "b"]), "ORDER BY b ASC, a DESC ");
    assert_eq!(render_order(&sort, &["a"]), "ORDER BY a DESC ");
    assert_eq!(render_order(&sort, &[]), "");
    assert_eq!(render_order(&Vec::new(), &["a"]), "");
    assert_eq!(render_limit(None, Some(&3)), "");
    assert_eq!(render_limit(Some(&2), None), "LIMIT 2");
    assert_eq!(render_limit(Some(&2), Some(&1)), "LIMIT 2 OFFSET 2");
    assert_eq!(render_limit(Some(&0), Some(&9)), "LIMIT 0 OFFSET 0");
    assert!(column_allowed(&["a", "b"], "b"));
    assert!(!column_allowed(&["a", "b"], "c"));
}

#[test]
fn reading_the_count() {
    assert_eq!(read_count(&vec![vec![SqlValue::Integer(3)]]).unwrap(), 3);
    assert_eq!(read_count(&vec![vec![SqlValue::Integer(0), SqlValue::Null]]).unwrap(), 0);
    assert!(matches!(read_count(&Vec::new()), Err(BookError::NotFound)));
    assert!(matches!(read_count(&vec![Vec::new()]), Err(BookError::DBError(_))));
    assert!(matches!(
        read_count(&vec![vec![SqlValue::Integer(-1)]]),
        Err(BookError::DBError(_))
    ));
    assert!(matches!(
        read_count(&vec![vec![SqlValue::Text("3".to_string())]]),
        Err(BookError::DBError(_))
    ));
}

#[test]
fn filling_the_envelope() {
    let mut result: StoreResult<i64> = StoreResult::default();
    result.items.push(99);
    let rows = vec![vec![SqlValue::Integer(1)], vec![SqlValue::Integer(2)]];
    fill(&mut result, 7, 1, &rows, number).unwrap();
    assert_eq!(result.total, 7);
    assert_eq!(result.skipped, 1);
    assert_eq!(result.items, vec![99, 1, 2]);

    let rows = vec![
        vec![SqlValue::Integer(1)],
        vec![SqlValue::Null],
        vec![SqlValue::Integer(3)],
    ];
    match fill(&mut result, 3, 0, &rows, number) {
        Err(BookError::Generic(msg)) => assert_eq!(msg, "no number"),
        other => panic!("{:?}", other),
    }
    assert_eq!(result.total, 7);
    assert_eq!(result.skipped, 1);
    assert_eq!(result.items, vec![99, 1, 2]);
}

#[test]
fn reading_a_page() {
    let rows = vec![vec![SqlValue::Integer(4)], vec![SqlValue::Integer(5)]];
    assert_eq!(read_page(&rows, number).unwrap(), vec![4, 5]);
    assert!(read_page(&Vec::new(), number).unwrap().is_empty());
    let rows = vec![
        vec![SqlValue::Integer(4)],
        vec![SqlValue::Integer(-1)],
        vec![SqlValue::Null],
    ];
    match read_page(&rows, number) {
        Err(BookError::Generic(msg)) => assert_eq!(msg, "no number"),
        other => panic!("{:?}", other),
    }
}

#[test]
fn the_envelope_from_both_answers() {
    let counted = vec![vec![SqlValue::Integer(3)]];
    let rows = vec![vec![SqlValue::Integer(1)], vec![SqlValue::Integer(2)]];
    let mut result: StoreResult<i64> = StoreResult::default();
    assemble(&mut result, 1, &counted, &rows, number).unwrap();
    assert_eq!(result.total, 3);
    assert_eq!(result.skipped, 1);
    assert_eq!(result.items, vec![1, 2]);

    let no_row: Vec<Vec<SqlValue>> = Vec::new();
    assert!(matches!(
        assemble(&mut result, 0, &no_row, &rows, number),
        Err(BookError::NotFound)
    ));
    let no_count = vec![vec![SqlValue::Text("three".to_string())]];
    assert!(matches!(
        assemble(&mut result, 0, &no_count, &rows, number),
        Err(BookError::DBError(_))
    ));
    let bad_rows = vec![vec![SqlValue::Integer(1)], vec![SqlValue::Null]];
    assert!(matches!(
        assemble(&mut result, 0, &counted, &bad_rows, number),
        Err(BookError::Generic(_))
    ));
    assert_eq!(result.total, 3);
    assert_eq!(result.skipped, 1);
    assert_eq!(result.items, vec![1, 2]);
}

#[test]
fn a_builder_that_filters_by_a_clause_takes_no_raw_parameters() {
    let config = SearchConfig::new("").build();
    let mut builder = QueryBuilder::new("SELECT name FROM authors", &config, &["name"]);
    builder.use_where_clause(clause).unwrap();
    match builder.use_params(vec!["x".to_string()]) {
        Err(BookError::Generic(msg)) => {
            assert_eq!(msg, "Either use 'use_where_clause' or 'use_params'")
        }
        other => panic!("{:?}", other),
    }
    assert!(builder.bound_params().is_empty());

    let config = SearchConfig::new("tolkien").build();
    let mut builder = QueryBuilder::new("SELECT name FROM authors", &config, &["name"]);
    builder.use_where_clause(no_clause).unwrap();
    assert!(builder.use_params(vec!["x".to_string()]).is_err());
    assert!(builder.bound_params().is_empty());
    assert_eq!(builder.count_sql(), "SELECT COUNT(*) FROM (SELECT name FROM authors);");
}

#[test]
fn parameters_of_a_search_are_texts() {
    let values = bookshelf::query::text_values(&vec!["%a%".to_string(), "".to_string()]);
    assert_eq!(values.len(), 2);
    match &values[0] {
        bookshelf::sqlite::SqlValue::Text(t) => assert_eq!(t, "%a%"),
        other => panic!("{:?}", other),
    }
    match &values[1] {
        bookshelf::sqlite::SqlValue::Text(t) => assert_eq!(t, ""),
        other => panic!("{:?}", other),
    }
    assert!(bookshelf::query::text_values(&Vec::new()).is_empty());
}
