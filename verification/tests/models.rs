use bookshelf::models::{BookError, SearchConfig, SortDescriptor, SortOrder, StoreResult};

#[test]
fn test_sort_order_from() {
    assert_eq!(SortOrder::from("any Value"), SortOrder::Asc);
    assert_eq!(SortOrder::from("asc"), SortOrder::Asc);

    let s = "deSC".to_string();
    assert_eq!(SortOrder::from(s), SortOrder::Desc);

    assert_eq!(SortOrder::from("desc"), SortOrder::Desc);
    assert_eq!(SortOrder::from("dEsC"), SortOrder::Desc);
}

#[test]
fn sort_order_from_lowercase_is_exact() {
    assert_eq!(SortOrder::from_lowercase("desc"), SortOrder::Desc);
    assert_eq!(SortOrder::from_lowercase("DESC"), SortOrder::Asc);
    assert_eq!(SortOrder::from_lowercase(""), SortOrder::Asc);
    assert_eq!(SortOrder::Asc.keyword(), "ASC");
    assert_eq!(SortOrder::Desc.keyword(), "DESC");
}

#[test]
fn new_request_is_unsorted_and_unpaged() {
    let config = SearchConfig::new("tolkien").build();
    assert_eq!(config.get_text(), "tolkien");
    assert_eq!(config.get_take(), None);
    assert_eq!(config.get_skip_page(), None);
    assert!(config.get_sort_desc().is_none());
}

#[test]
fn build_keeps_what_was_asked_for() {
    let config = SearchConfig::new("tolkien")
        .use_take(20)
        .use_skip_page(3)
        .use_sort(vec![
            SortDescriptor("title".to_string(), SortOrder::Asc),
            SortDescriptor("isbn".to_string(), SortOrder::Desc),
        ])
        .build();
    assert_eq!(config.get_text(), "tolkien");
    assert_eq!(config.get_take(), Some(&20));
    assert_eq!(config.get_skip_page(), Some(&3));
    let sort = config.get_sort_desc().unwrap();
    assert_eq!(sort.len(), 2);
    assert_eq!(sort[0].0, "title");
    assert_eq!(sort[0].1, SortOrder::Asc);
    assert_eq!(sort[1].0, "isbn");
    assert_eq!(sort[1].1, SortOrder::Desc);
}

#[test]
fn use_sort_leaves_out_what_is_no_identifier() {
    let config = SearchConfig::new("")
        .use_sort(vec![
            SortDescriptor("title".to_string(), SortOrder::Asc),
            SortDescriptor("id; DROP TABLE books".to_string(), SortOrder::Desc),
            SortDescriptor("".to_string(), SortOrder::Desc),
            SortDescriptor("1st".to_string(), SortOrder::Asc),
            SortDescriptor("sub_title".to_string(), SortOrder::Desc),
            SortDescriptor("titel\u{e9}".to_string(), SortOrder::Desc),
        ])
        .build();
    let sort = config.get_sort_desc().unwrap();
    assert_eq!(sort.len(), 2);
    assert_eq!(sort[0].0, "title");
    assert_eq!(sort[1].0, "sub_title");
    assert_eq!(sort[1].1, SortOrder::Desc);
}

#[test]
fn error_messages() {
    assert_eq!(BookError::Generic("what happened".to_string()).message(), "what happened");
    assert_eq!(BookError::NotFound.message(), "Did not find item with given id");
    assert_eq!(
        BookError::DBError("disk full".to_string()).message(),
        "Database error: disk full"
    );
    assert_eq!(BookError::EmptyAuthors.message(), "Book requires at least one author");
}

#[test]
fn default_result_is_empty() {
    let result: StoreResult<String> = StoreResult::default();
    assert_eq!(result.total, 0);
    assert_eq!(result.skipped, 0);
    assert!(result.items.is_empty());
}
