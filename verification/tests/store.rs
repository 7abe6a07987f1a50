use bookshelf::models::{
    Book, BookDB, BookError, SearchConfig, SortDescriptor, SortOrder, StoreResult,
};
use bookshelf::sqlite::{SqlValue, FIRST_TIMESTAMP, LAST_TIMESTAMP};
use bookshelf::store::{
    authors_filter, books_filter, check_book_id, check_row_id, convert_timestamp, decode_book,
    first_texts, pattern_of, read_times, tags_filter, SqliteStore,
};
use chrono::{TimeZone, Utc};

fn strings(items: &[&str]) -> Vec<String> {
    items.iter().map(|s| s.to_string()).collect()
}

fn first_book() -> Book {
    Book {
        authors: vec!["David Lagercrantz".to_owned()],
        cover_img: None,
        description: Some("Lisbeth Salander is an unstoppable force!".to_owned()),
        isbn: "9780857056429".to_owned(),
        lang: "EN".to_owned(),
        tags: Some(vec!["Thriller".to_owned(), "Suspense".to_owned()]),
        title: "The Girl Who Takes an Eye for an Eye".to_owned(),
        sub_title: None,
        publisher: Some("McLehose Press".to_owned()),
        publish_date: Some(Utc.timestamp_opt(1483523713, 0).unwrap().timestamp()),
        id: 1,

        ..Default::default()
    }
}

fn second_book() -> Book {
    Book {
        authors: vec!["Jochen Schiller".to_owned()],
        cover_img: None,
        description: Some("Explains mobile communications in details.".to_owned()),
        isbn: "9780321123817".to_owned(),
        lang: "EN".to_owned(),
        tags: Some(vec![
            "Data Transmission Systems".to_owned(),
            "Wireless".to_owned(),
            "Communications".to_owned(),
        ]),
        title: "Mobile Communications".to_owned(),
        sub_title: Some("Second Edition".to_owned()),
        publisher: Some("Addison Wesley".to_owned()),
        publish_date: Some(Utc.timestamp_opt(1062150913, 0).unwrap().timestamp()),
        id: 2,

        ..Default::default()
    }
}

fn third_book() -> Book {
    Book {
        authors: vec!["Richard Dawkins".to_owned()],
        cover_img: None,
        description: Some(
            "Richard Dawkins provozierendes Buch beseitigt jeden Zweifel an Darwins Theorie."
                .to_owned(),
        ),
        isbn: "9783550087653".to_owned(),
        lang: "DE".to_owned(),
        tags: Some(vec![
            "Wissenschaft".to_owned(),
            "Biologie".to_owned(),
            "Religion".to_owned(),
        ]),
        title: "Es gibt keine Schöpfung".to_owned(),
        sub_title: None,
        publisher: Some("Ullstein Verlag".to_owned()),
        publish_date: Some(Utc.timestamp_opt(1283075713, 0).unwrap().timestamp()),
        id: 3,

        ..Default::default()
    }
}

/// Leaves exactly the three sample books in the store, with the ids 1 to 3.
fn seed(db: &mut SqliteStore) {
    let all = db.fetch_books(SearchConfig::new("").build()).unwrap();
    for book in &all.items {
        db.delete_book(book).unwrap();
    }
    for mut book in [first_book(), second_book(), third_book()] {
        let wanted = book.id;
        db.add_book(&mut book).unwrap();
        assert_eq!(book.id, wanted);
    }
}

/// The place of the database of a test: a database in memory under the
/// given name, since a test may not write to the disk.
fn in_memory(name: &str) -> String {
    format!("file:{}?mode=memory", name)
}

fn seeded() -> SqliteStore {
    let mut db = SqliteStore::new(":memory:").unwrap();
    seed(&mut db);
    db
}

fn sorted(v: &Vec<String>) -> Vec<String> {
    let mut copy = v.clone();
    copy.sort();
    copy
}

fn assert_same_book(a: &Book, b: &Book) {
    assert_eq!(a.id, b.id, "Book id mismatch");
    assert_eq!(a.cover_img, b.cover_img, "Cover image mismatch");
    assert_eq!(a.description, b.description, "Description mismatch");
    assert_eq!(a.isbn, b.isbn, "ISBN mismatch");
    assert_eq!(a.lang, b.lang, "Language mismatch");
    assert_eq!(a.title, b.title, "Title mismatch");
    assert_eq!(a.sub_title, b.sub_title, "Sub title mismatch");
    assert_eq!(a.publisher, b.publisher, "Publisher mismatch");
    assert_eq!(a.publish_date, b.publish_date, "Publisher date mismatch");
    assert_eq!(sorted(&a.authors), sorted(&b.authors));
    assert_eq!(a.tags.is_some(), b.tags.is_some(), "Tags mismatch");
    if a.tags.is_some() {
        assert_eq!(sorted(a.tags.as_ref().unwrap()), sorted(b.tags.as_ref().unwrap()));
    }
}

fn assert_same_books(testee: &mut Vec<Book>, expected: &mut Vec<Book>) {
    assert!(testee.len() == expected.len(), "Books count mismatch");
    expected.sort_by(|a, b| a.id.cmp(&b.id));
    testee.sort_by(|a, b| a.id.cmp(&b.id));
    for (pos, item) in testee.iter().enumerate() {
        assert_same_book(item, &expected[pos]);
    }
}

#[test]
fn fetch_books() {
    let mut db = SqliteStore::new(&in_memory("db_file")).unwrap();
    seed(&mut db);

    let mut books = db.fetch_books(SearchConfig::new("").build()).unwrap();
    assert_eq!(books.total, 3);
    assert_eq!(books.skipped, 0);
    assert_eq!(books.items.len(), 3);

    assert_same_books(
        &mut books.items,
        &mut vec![first_book(), second_book(), third_book()],
    );

    let mut partial_books = db
        .fetch_books(SearchConfig::new("").use_take(2).use_skip_page(1).build())
        .unwrap();
    assert_eq!(partial_books.total, 3);
    assert_eq!(partial_books.skipped, 1);
    assert_eq!(partial_books.items.len(), 1);

    assert_same_books(&mut partial_books.items, &mut vec![third_book()]);
}

#[test]
fn delete_book_successfully() {
    let mut db = SqliteStore::new(&in_memory("db_file")).unwrap();
    seed(&mut db);

    db.delete_book_by_id(1).unwrap();
    assert!(db.get_book(1).is_err());
}

#[test]
fn add_book_successfully() {
    let mut db = SqliteStore::new(&in_memory("db_file")).unwrap();
    let mut new_book = Book {
        authors: vec![String::from("Schiller"), "Goethe".to_owned()],
        cover_img: None,
        description: Some("Most loved and famous book ever!".to_owned()),
        isbn: String::from("123456789"),
        lang: String::from("DE"),
        tags: Some(vec!["Classic".to_owned(), "Poem".to_owned()]),
        title: String::from("The Famous One"),
        sub_title: None,
        publisher: Some("Plato Verlag".to_owned()),
        publish_date: Some(Utc.with_ymd_and_hms(1743, 1, 12, 13, 14, 44).unwrap().timestamp()),
        id: 123465798, // Should never be set or inserted
        created: Utc::now()
            .checked_sub_signed(chrono::Duration::seconds(1000000))
            .unwrap()
            .timestamp(),
        updated: Utc::now()
            .checked_sub_signed(chrono::Duration::seconds(1000000))
            .unwrap()
            .timestamp(),
    };

    db.add_book(&mut new_book).unwrap();
    let saved_book = db.get_book(new_book.id).unwrap();

    assert_eq!(new_book.title, saved_book.title);
    assert_eq!(new_book.sub_title, saved_book.sub_title);
    assert_eq!(new_book.isbn, saved_book.isbn);
    assert_eq!(new_book.cover_img, saved_book.cover_img);
    assert_eq!(new_book.description, saved_book.description);
    assert_eq!(new_book.lang, saved_book.lang);
    assert_eq!(new_book.publisher, saved_book.publisher);
    assert_eq!(new_book.publish_date, saved_book.publish_date);

    assert_eq!(new_book.created, saved_book.created);
    assert_eq!(new_book.updated, saved_book.updated);

    assert_eq!(new_book.authors, saved_book.authors);
    assert_eq!(new_book.tags, saved_book.tags);
}

#[test]
fn added_book_is_in_its_normal_form() {
    let mut db = SqliteStore::new(":memory:").unwrap();
    let mut book = Book {
        authors: strings(&["Schiller", "Goethe", "Schiller"]),
        tags: Some(strings(&["Poem", "Classic", "Poem"])),
        title: "The Famous One".to_owned(),
        id: 77,
        ..Default::default()
    };
    db.add_book(&mut book).unwrap();
    assert_eq!(book.id, 1);
    assert_eq!(book.authors, strings(&["Goethe", "Schiller"]));
    assert_eq!(book.tags, Some(strings(&["Classic", "Poem"])));
    assert!(book.created > 1_600_000_000);
    assert_eq!(book.created, book.updated);
    let saved = db.get_book(1).unwrap();
    assert_eq!(saved, book);

    let mut bare = Book {
        authors: strings(&["Anonymous"]),
        tags: Some(Vec::new()),
        ..Default::default()
    };
    db.add_book(&mut bare).unwrap();
    assert_eq!(bare.id, 2);
    assert_eq!(bare.tags, None);
    assert_eq!(db.get_book(2).unwrap(), bare);
}

#[test]
fn book_without_author_is_refused_and_nothing_is_written() {
    let mut db = seeded();

    let mut nobody = Book { title: "Nobody's".to_owned(), ..Default::default() };
    let before = nobody.clone();
    assert!(matches!(db.add_book(&mut nobody), Err(BookError::EmptyAuthors)));
    assert_eq!(nobody, before);
    assert_eq!(db.fetch_books(SearchConfig::new("").build()).unwrap().total, 3);

    let stored = db.get_book(1).unwrap();
    let mut changed = stored.clone();
    changed.title = "Changed".to_owned();
    changed.tags = Some(strings(&["New"]));
    changed.authors = Vec::new();
    let handed_in = changed.clone();
    assert!(matches!(db.update_book(&mut changed), Err(BookError::EmptyAuthors)));
    assert_eq!(changed, handed_in);
    assert_eq!(db.get_book(1).unwrap(), stored);
}

#[test]
fn update_writes_the_normal_form() {
    let mut db = seeded();
    let mut book = db.get_book(2).unwrap();
    book.title = "Mobile Communications, again".to_owned();
    book.authors = strings(&["Zed", "Jochen Schiller", "Zed", "Abe"]);
    book.tags = Some(strings(&["b", "a", "b"]));
    book.publish_date = None;
    db.update_book(&mut book).unwrap();
    assert_eq!(book.authors, strings(&["Abe", "Jochen Schiller", "Zed"]));
    assert_eq!(book.tags, Some(strings(&["a", "b"])));
    let saved = db.get_book(2).unwrap();
    assert_eq!(saved.title, "Mobile Communications, again");
    assert_eq!(saved.authors, book.authors);
    assert_eq!(saved.tags, book.tags);
    assert_eq!(saved.publish_date, None);
    assert_eq!(saved.created, book.created);
    assert_eq!(saved.id, 2);

    book.tags = Some(Vec::new());
    db.update_book(&mut book).unwrap();
    assert_eq!(book.tags, None);
    assert_eq!(db.get_book(2).unwrap().tags, None);
}

#[test]
fn missing_book_is_not_found() {
    let mut db = seeded();
    assert!(matches!(db.get_book(4), Err(BookError::NotFound)));
    db.delete_book_by_id(1).unwrap();
    assert!(matches!(db.get_book(1), Err(BookError::NotFound)));
    let third = db.get_book(3).unwrap();
    db.delete_book(&third).unwrap();
    assert!(matches!(db.get_book(3), Err(BookError::NotFound)));
    let rest = db.fetch_books(SearchConfig::new("").build()).unwrap();
    assert_eq!(rest.total, 1);
    assert_eq!(rest.items[0].id, 2);
    assert!(db.get_tags(SearchConfig::new("Thriller").build()).unwrap().items.is_empty());
}

#[test]
fn total_does_not_depend_on_the_page() {
    let mut db = seeded();
    let pages: Vec<(Option<u64>, Option<u64>)> = vec![
        (None, None),
        (None, Some(2)),
        (Some(1), None),
        (Some(1), Some(0)),
        (Some(1), Some(1)),
        (Some(1), Some(2)),
        (Some(2), Some(1)),
        (Some(5), Some(0)),
        (Some(0), Some(0)),
    ];
    for text in ["", "EN", "e", "Dawkins", "no such text"] {
        let all = db.fetch_books(SearchConfig::new(text).build()).unwrap();
        assert_eq!(all.total as usize, all.items.len());
        for (take, skip) in &pages {
            let mut config = SearchConfig::new(text);
            if let Some(t) = take {
                config = config.use_take(*t);
            }
            if let Some(s) = skip {
                config = config.use_skip_page(*s);
            }
            let page: StoreResult<Book> = db.fetch_books(config.build()).unwrap();
            assert_eq!(page.total, all.total, "{:?} {:?} {:?}", text, take, skip);
            if let Some(t) = take {
                assert!(page.items.len() as u64 <= *t);
            }
            let skipped = if take.is_some() { skip.unwrap_or(0) } else { 0 };
            assert_eq!(page.skipped, skipped);
            if !page.items.is_empty() || page.skipped <= page.total {
                assert!(page.skipped + page.items.len() as u64 <= page.total);
            }
        }
    }
}

#[test]
fn pages_beyond_the_last_are_empty() {
    let mut db = seeded();
    let page = db
        .fetch_books(SearchConfig::new("").use_take(1).use_skip_page(5).build())
        .unwrap();
    assert_eq!(page.total, 3);
    assert_eq!(page.skipped, 5);
    assert!(page.items.is_empty());
}

#[test]
fn books_are_found_by_any_of_their_texts() {
    let mut db = seeded();
    let ids = |db: &mut SqliteStore, text: &str| -> Vec<i64> {
        let mut ids: Vec<i64> = db
            .fetch_books(SearchConfig::new(text).build())
            .unwrap()
            .items
            .iter()
            .map(|b| b.id)
            .collect();
        ids.sort();
        ids
    };
    assert_eq!(ids(&mut db, "Girl"), vec![1]);
    assert_eq!(ids(&mut db, "Second Edition"), vec![2]);
    assert_eq!(ids(&mut db, "Ullstein"), vec![3]);
    assert_eq!(ids(&mut db, "97803"), vec![2]);
    assert_eq!(ids(&mut db, "unstoppable"), vec![1]);
    assert_eq!(ids(&mut db, "Dawkins"), vec![3]);
    assert_eq!(ids(&mut db, "Wireless"), vec![2]);
    assert_eq!(ids(&mut db, "i"), vec![1, 2, 3]);
    assert_eq!(ids(&mut db, "nothing of the kind"), Vec::<i64>::new());
}

#[test]
fn books_are_sorted_by_known_columns_only() {
    let mut db = seeded();
    let config = SearchConfig::new("")
        .use_sort(vec![
            SortDescriptor("lang".to_owned(), SortOrder::Desc),
            SortDescriptor("no_such_column".to_owned(), SortOrder::Asc),
            SortDescriptor("title".to_owned(), SortOrder::Desc),
        ])
        .build();
    let found = db.fetch_books(config).unwrap();
    let ids: Vec<i64> = found.items.iter().map(|b| b.id).collect();
    assert_eq!(ids, vec![1, 2, 3]);

    let config = SearchConfig::new("")
        .use_sort(vec![SortDescriptor("title".to_owned(), SortOrder::Asc)])
        .use_take(2)
        .build();
    let found = db.fetch_books(config).unwrap();
    let ids: Vec<i64> = found.items.iter().map(|b| b.id).collect();
    assert_eq!(ids, vec![3, 2]);
    assert_eq!(found.total, 3);
}

#[test]
fn tags_and_authors() {
    let mut db = seeded();
    let all = db
        .get_tags(
            SearchConfig::new("")
                .use_sort(vec![SortDescriptor("tag".to_owned(), SortOrder::Asc)])
                .build(),
        )
        .unwrap();
    assert_eq!(all.total, 8);
    assert_eq!(
        all.items,
        strings(&[
            "Biologie",
            "Communications",
            "Data Transmission Systems",
            "Religion",
            "Suspense",
            "Thriller",
            "Wireless",
            "Wissenschaft"
        ])
    );
    let some = db.get_tags(SearchConfig::new("ss").build()).unwrap();
    assert_eq!(some.total, 3);
    assert_eq!(
        sorted(&some.items),
        strings(&["Data Transmission Systems", "Wireless", "Wissenschaft"])
    );

    let authors = db.get_authors(SearchConfig::new("").build()).unwrap();
    assert_eq!(authors.total, 3);
    let found = db.get_authors(SearchConfig::new("ch r").build()).unwrap();
    assert_eq!(found.total, 2);
    assert_eq!(sorted(&found.items), strings(&["Jochen Schiller", "Richard Dawkins"]));
    let page = db
        .get_authors(
            SearchConfig::new("a")
                .use_sort(vec![SortDescriptor("name".to_owned(), SortOrder::Desc)])
                .use_take(1)
                .use_skip_page(1)
                .build(),
        )
        .unwrap();
    assert_eq!(page.total, 2);
    assert_eq!(page.skipped, 1);
    assert_eq!(page.items, strings(&["David Lagercrantz"]));
}

#[test]
fn filter_clauses() {
    assert_eq!(pattern_of("x y"), "%x y%");
    assert_eq!(pattern_of(""), "%%");
    let (clause, params) = tags_filter("ab");
    assert_eq!(clause, "tag LIKE ?");
    assert_eq!(params, strings(&["%ab%"]));

    let (clause, params) = books_filter("ab");
    assert_eq!(clause.matches('?').count(), 7);
    assert_eq!(params, vec!["%ab%".to_string(); 7]);

    let (clause, params) = authors_filter("ab");
    assert_eq!(clause, "name LIKE ?");
    assert_eq!(params, strings(&["%ab%"]));
    let (clause, params) = authors_filter("j r  tolkien ");
    assert_eq!(
        clause,
        "name LIKE ? AND name LIKE ? AND name LIKE ? AND name LIKE ? AND name LIKE ?"
    );
    assert_eq!(params, strings(&["%j%", "%r%", "%%", "%tolkien%", "%%"]));
    let (clause, params) = authors_filter("");
    assert_eq!(clause, "name LIKE ?");
    assert_eq!(params, strings(&["%%"]));
    let (_, params) = authors_filter("J\u{fc}rgen \u{c5}se");
    assert_eq!(params, strings(&["%J\u{fc}rgen%", "%\u{c5}se%"]));
}

#[test]
fn timestamps() {
    assert_eq!(convert_timestamp(0).unwrap(), 0);
    assert_eq!(convert_timestamp(1483523713).unwrap(), 1483523713);
    assert_eq!(convert_timestamp(-7161900316).unwrap(), -7161900316);
    for bad in [i64::MAX, i64::MIN] {
        match convert_timestamp(bad) {
            Err(BookError::Generic(msg)) => assert_eq!(msg, "Invalid timestamp conversion"),
            other => panic!("{:?}", other),
        }
        assert!(Utc.timestamp_opt(bad, 0).single().is_none());
    }
}

#[test]
fn row_ids() {
    assert_eq!(check_row_id(1).unwrap(), 1);
    assert_eq!(check_row_id(i64::MAX).unwrap(), i64::MAX);
    match check_row_id(0) {
        Err(BookError::Generic(msg)) => assert_eq!(msg, "return row id is invalid: 0"),
        other => panic!("{:?}", other),
    }
    match check_row_id(-12) {
        Err(BookError::Generic(msg)) => assert_eq!(msg, "return row id is invalid: -12"),
        other => panic!("{:?}", other),
    }
}

fn row() -> Vec<SqlValue> {
    vec![
        SqlValue::Integer(9),
        SqlValue::Null,
        SqlValue::Text("about".to_string()),
        SqlValue::Text("123".to_string()),
        SqlValue::Text("EN".to_string()),
        SqlValue::Text("Title".to_string()),
        SqlValue::Null,
        SqlValue::Text("Press".to_string()),
        SqlValue::Integer(1062150913),
        SqlValue::Integer(1700000000),
        SqlValue::Integer(1700000001),
    ]
}

#[test]
fn decoding_a_row() {
    let book = decode_book(&row(), strings(&["A", "B"]), Vec::new()).unwrap();
    assert_eq!(
        book,
        Book {
            authors: strings(&["A", "B"]),
            cover_img: None,
            description: Some("about".to_string()),
            isbn: "123".to_string(),
            lang: "EN".to_string(),
            tags: None,
            title: "Title".to_string(),
            sub_title: None,
            publisher: Some("Press".to_string()),
            publish_date: Some(1062150913),
            id: 9,
            created: 1700000000,
            updated: 1700000001,
        }
    );
    let book = decode_book(&row(), Vec::new(), strings(&["t"])).unwrap();
    assert_eq!(book.tags, Some(strings(&["t"])));

    let mut no_day = row();
    no_day[8] = SqlValue::Null;
    assert_eq!(decode_book(&no_day, Vec::new(), Vec::new()).unwrap().publish_date, None);
    no_day[8] = SqlValue::Text("1990".to_string());
    assert_eq!(decode_book(&no_day, Vec::new(), Vec::new()).unwrap().publish_date, None);

    let mut short = row();
    short.pop();
    assert!(matches!(decode_book(&short, Vec::new(), Vec::new()), Err(BookError::DBError(_))));
    for (at, bad) in [
        (0, SqlValue::Null),
        (1, SqlValue::Integer(1)),
        (3, SqlValue::Null),
        (5, SqlValue::Other),
        (7, SqlValue::Integer(0)),
        (9, SqlValue::Text("now".to_string())),
        (10, SqlValue::Null),
    ] {
        let mut r = row();
        r[at] = bad;
        assert!(
            matches!(decode_book(&r, Vec::new(), Vec::new()), Err(BookError::DBError(_))),
            "{}",
            at
        );
    }
    for at in [8, 9, 10] {
        let mut r = row();
        r[at] = SqlValue::Integer(i64::MAX);
        assert!(matches!(
            decode_book(&r, Vec::new(), Vec::new()),
            Err(BookError::Generic(_))
        ));
    }
}

#[test]
fn reading_the_times() {
    let rows = vec![vec![SqlValue::Integer(5), SqlValue::Integer(6), SqlValue::Null]];
    assert_eq!(read_times(&rows).unwrap(), (5, 6));
    assert!(matches!(read_times(&Vec::new()), Err(BookError::NotFound)));
    assert!(matches!(
        read_times(&vec![vec![SqlValue::Integer(5)]]),
        Err(BookError::DBError(_))
    ));
    assert!(matches!(
        read_times(&vec![vec![SqlValue::Integer(5), SqlValue::Null]]),
        Err(BookError::DBError(_))
    ));
    assert!(matches!(
        read_times(&vec![vec![SqlValue::Integer(i64::MIN), SqlValue::Integer(1)]]),
        Err(BookError::Generic(_))
    ));
}

#[test]
fn store_on_a_path_that_cannot_be_opened() {
    assert!(matches!(
        SqliteStore::new("/no/such/directory/books.db"),
        Err(BookError::DBError(_))
    ));
}

#[test]
fn an_answer_without_a_row_is_not_found() {
    let none: Vec<Vec<SqlValue>> = Vec::new();
    assert!(matches!(bookshelf::store::first_row(&none), Err(BookError::NotFound)));
    let rows = vec![
        vec![SqlValue::Integer(7), SqlValue::Null],
        vec![SqlValue::Integer(8), SqlValue::Null],
    ];
    let first = bookshelf::store::first_row(&rows).unwrap();
    assert!(matches!(first[0], SqlValue::Integer(7)));
    assert_eq!(first.len(), 2);
}

#[test]
fn a_value_of_another_type_is_refused_with_its_text() {
    match bookshelf::store::read_text(&SqlValue::Integer(1)) {
        Err(BookError::DBError(text)) => {
            assert_eq!(text, "a column holds a value of another type")
        }
        other => panic!("{:?}", other),
    }
    match bookshelf::store::read_int(&SqlValue::Null) {
        Err(BookError::DBError(text)) => {
            assert_eq!(text, "a column holds a value of another type")
        }
        other => panic!("{:?}", other),
    }
    match bookshelf::store::read_opt_text(&SqlValue::Other) {
        Err(BookError::DBError(text)) => {
            assert_eq!(text, "a column holds a value of another type")
        }
        other => panic!("{:?}", other),
    }
}

#[test]
fn the_calendar_ends_where_it_is_said_to_end() {
    assert_eq!(FIRST_TIMESTAMP, -8_334_601_228_800);
    assert_eq!(LAST_TIMESTAMP, 8_210_266_876_799);
    assert_eq!(convert_timestamp(FIRST_TIMESTAMP).unwrap(), FIRST_TIMESTAMP);
    assert_eq!(convert_timestamp(LAST_TIMESTAMP).unwrap(), LAST_TIMESTAMP);
    assert_eq!(convert_timestamp(0).unwrap(), 0);
    for outside in [FIRST_TIMESTAMP - 1, LAST_TIMESTAMP + 1, i64::MIN, i64::MAX] {
        match convert_timestamp(outside) {
            Err(BookError::Generic(msg)) => assert_eq!(msg, "Invalid timestamp conversion"),
            other => panic!("{:?}", other),
        }
    }
    assert_eq!(
        Utc.timestamp_opt(FIRST_TIMESTAMP, 0).unwrap().to_rfc3339(),
        "-262143-01-01T00:00:00+00:00"
    );
    assert_eq!(
        Utc.timestamp_opt(LAST_TIMESTAMP, 0).unwrap().to_rfc3339(),
        "+262142-12-31T23:59:59+00:00"
    );
}

#[test]
fn a_name_is_written_with_the_id_of_its_book() {
    let row = bookshelf::store::name_row(4, &"Goethe".to_string());
    assert_eq!(row.len(), 2);
    assert!(matches!(row[0], SqlValue::Integer(4)));
    match &row[1] {
        SqlValue::Text(name) => assert_eq!(name, "Goethe"),
        other => panic!("{:?}", other),
    }
}

/// A database in memory that every connection of the test shares.
fn shared(name: &str) -> String {
    format!("file:{}?mode=memory&cache=shared", name)
}

#[test]
fn a_text_that_is_not_utf8_fails_the_read() {
    let path = shared("not_utf8");
    let mut db = SqliteStore::new(&path).unwrap();
    let raw = rusqlite::Connection::open(&path).unwrap();
    let mut book = first_book();
    db.add_book(&mut book).unwrap();
    assert_eq!(db.get_book(book.id).unwrap().title, book.title);

    raw.execute("UPDATE books SET title = CAST(X'ff' AS TEXT) WHERE id = ?1", [book.id])
        .unwrap();
    assert!(matches!(db.get_book(book.id), Err(BookError::DBError(_))));
    assert!(matches!(
        db.fetch_books(SearchConfig::new("").build()),
        Err(BookError::DBError(_))
    ));
}

#[test]
fn a_blob_in_a_column_of_texts_is_a_value_of_another_type() {
    let path = shared("blob_title");
    let mut db = SqliteStore::new(&path).unwrap();
    let raw = rusqlite::Connection::open(&path).unwrap();
    let mut book = first_book();
    db.add_book(&mut book).unwrap();

    raw.execute("UPDATE books SET title = X'0102' WHERE id = ?1", [book.id]).unwrap();
    match db.get_book(book.id) {
        Err(BookError::DBError(text)) => {
            assert_eq!(text, "a column holds a value of another type")
        }
        other => panic!("{:?}", other),
    }
}

#[test]
fn the_book_of_another_id_is_refused() {
    let book = Book { id: 4, ..first_book() };
    assert_eq!(check_book_id(book.clone(), 4).unwrap(), book);
    match check_book_id(book, 5) {
        Err(BookError::DBError(text)) => {
            assert_eq!(text, "a row holds another id than was asked for")
        }
        other => panic!("{:?}", other),
    }
}

#[test]
fn the_book_that_is_read_has_the_id_asked_for() {
    let mut db = seeded();
    for id in 1..=3 {
        assert_eq!(db.get_book(id).unwrap().id, id);
    }
    assert!(matches!(db.get_book(4), Err(BookError::NotFound)));
}

#[test]
fn first_texts_of_rows() {
    let rows = vec![
        vec![SqlValue::Text("a".to_string()), SqlValue::Integer(1)],
        vec![SqlValue::Text("b".to_string())],
    ];
    assert_eq!(first_texts(&rows).unwrap(), strings(&["a", "b"]));
    assert!(first_texts(&Vec::new()).unwrap().is_empty());
    for bad in [vec![], vec![SqlValue::Integer(1)], vec![SqlValue::Null]] {
        let rows = vec![vec![SqlValue::Text("a".to_string())], bad];
        match first_texts(&rows) {
            Err(BookError::DBError(text)) => {
                assert_eq!(text, "a column holds a value of another type")
            }
            other => panic!("{:?}", other),
        }
    }
}

#[test]
fn the_times_of_a_book_are_read_where_the_answer_holds_them() {
    let rows = vec![vec![SqlValue::Integer(10), SqlValue::Integer(20), SqlValue::Null]];
    assert_eq!(read_times(&rows).unwrap(), (10, 20));
    assert!(matches!(read_times(&Vec::new()), Err(BookError::NotFound)));
    assert!(matches!(
        read_times(&vec![vec![SqlValue::Integer(10)]]),
        Err(BookError::DBError(_))
    ));
    assert!(matches!(
        read_times(&vec![vec![SqlValue::Integer(10), SqlValue::Text("x".to_string())]]),
        Err(BookError::DBError(_))
    ));
    assert!(matches!(
        read_times(&vec![vec![SqlValue::Integer(LAST_TIMESTAMP + 1), SqlValue::Integer(1)]]),
        Err(BookError::Generic(_))
    ));
    assert!(matches!(
        read_times(&vec![vec![SqlValue::Integer(1), SqlValue::Integer(FIRST_TIMESTAMP - 1)]]),
        Err(BookError::Generic(_))
    ));
}
