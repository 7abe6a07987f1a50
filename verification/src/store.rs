//! The store of books in a SQLite database.
//!
//! Every search goes through a [`QueryBuilder`]; the store adds the
//! statement that selects all records, the columns that may be sorted by,
//! and the clause that filters by the text of the request.

use crate::models::{
    Book, BookDB, BookError, BookModel, ConfigInitialized, SearchConfig, StoreResult,
    normal_tags, opt_text, opt_texts, well_read,
};
use crate::order::{copy_strings, normalize_names};
use crate::query::{QueryBuilder, can_bind, db_error, to_outside};
use crate::sqlite::{
    SqlValue, begin, commit, connection_of, exclusive, execute, guarded, insert, migrate,
    migration_error_text, open, pragma_update, query, timestamp_exists,
    timestamp_in_range,
};
use crate::text::{i64_to_decimal, signed_decimal, texts};
use vstd::prelude::*;
use vstd::string::*;

verus! {

/// The statement that selects every book.
pub const SELECT_BOOKS_QUERY: &'static str =
    "SELECT id, cover_img, description, isbn, lang, title, sub_title, publisher, publish_date, created, updated FROM books";

/// The statement that selects every author, each once.
pub const SELECT_AUTHORS_QUERY: &'static str = "SELECT DISTINCT name FROM authors";

/// The statement that selects every tag, each once.
pub const SELECT_TAGS_QUERY: &'static str = "SELECT DISTINCT tag FROM tags";

/// The tables of the catalogue.
pub const SCHEMA: &'static str =
    "CREATE TABLE books (id INTEGER PRIMARY KEY, cover_img TEXT, description TEXT, isbn TEXT NOT NULL, lang TEXT NOT NULL, title TEXT NOT NULL, sub_title TEXT, publisher TEXT, publish_date INTEGER, created INTEGER NOT NULL, updated INTEGER NOT NULL); CREATE TABLE authors (book_id INTEGER NOT NULL REFERENCES books (id) ON DELETE CASCADE, name TEXT NOT NULL); CREATE TABLE tags (book_id INTEGER NOT NULL REFERENCES books (id) ON DELETE CASCADE, tag TEXT NOT NULL); CREATE INDEX authors_of_book ON authors (book_id); CREATE INDEX tags_of_book ON tags (book_id);";

/// The clause that selects the books of which some text holds the filter
/// text; it takes the pattern seven times.
pub const BOOKS_FILTER: &'static str =
    "id IN (SELECT DISTINCT B.id FROM books AS B LEFT JOIN authors AS A ON A.book_id = B.id LEFT JOIN tags AS T ON T.book_id = B.id WHERE B.title LIKE ? OR B.sub_title LIKE ? OR B.publisher LIKE ? OR B.isbn LIKE ? OR B.description LIKE ? OR A.name LIKE ? OR T.tag LIKE ?)";

/// The text of the failure for a point in time that the calendar lacks.
pub open spec fn bad_timestamp() -> Seq<char> {
    "Invalid timestamp conversion"@
}

/// Whether a failure says that a number is no point in time.
pub open spec fn is_bad_timestamp(e: BookError) -> bool {
    e matches BookError::Generic(msg) && msg@ == bad_timestamp()
}

/// Accepts a number of seconds since the epoch if the calendar has that
/// point in time.
pub fn convert_timestamp(timestamp: i64) -> (r: Result<i64, BookError>)
    ensures
        match r {
            Ok(t) => t == timestamp && timestamp_exists(timestamp),
            Err(e) => !timestamp_exists(timestamp) && (e matches BookError::Generic(msg) && msg@
                == bad_timestamp()),
        },
{
    if timestamp_in_range(timestamp) {
        Ok(timestamp)
    } else {
        Err(BookError::Generic(String::from_str("Invalid timestamp conversion")))
    }
}

/// The pattern that matches every text that holds `text`.
pub open spec fn like_pattern(text: Seq<char>) -> Seq<char> {
    "%"@ + text + "%"@
}

/// Writes the pattern that matches every text that holds `text`.
pub fn pattern_of(text: &str) -> (pattern: String)
    ensures
        pattern@ == like_pattern(text@),
{
    let mut pattern = String::from_str("%");
    pattern.append(text);
    pattern.append("%");
    pattern
}

/// The filter of the books: the clause and its seven parameters, each the
/// pattern of the filter text.
pub fn books_filter(text: &str) -> (out: (String, Vec<String>))
    ensures
        out.0@ == BOOKS_FILTER@,
        out.1@.len() == 7,
        forall|i: int| 0 <= i < 7 ==> (#[trigger] out.1@[i])@ == like_pattern(text@),
{
    let mut params: Vec<String> = Vec::new();
    let mut i: usize = 0;
    while i < 7
        invariant
            i <= 7,
            params@.len() == i,
            forall|k: int| 0 <= k < i ==> (#[trigger] params@[k])@ == like_pattern(text@),
        decreases 7 - i,
    {
        params.push(pattern_of(text));
        i = i + 1;
    }
    (String::from_str(BOOKS_FILTER), params)
}

/// The filter of the tags: the clause and the pattern of the filter text.
pub fn tags_filter(text: &str) -> (out: (String, Vec<String>))
    ensures
        out.0@ == "tag LIKE ?"@,
        texts(out.1@) == seq![like_pattern(text@)],
{
    let mut params: Vec<String> = Vec::new();
    params.push(pattern_of(text));
    assert(texts(params@) =~= seq![like_pattern(text@)]);
    (String::from_str("tag LIKE ?"), params)
}

/// The words of a text: what stands between its blanks. A text without a
/// blank is one word, and two blanks side by side hold an empty word.
pub open spec fn words(s: Seq<char>) -> Seq<Seq<char>>
    decreases s.len(),
{
    if s.len() == 0 {
        seq![Seq::empty()]
    } else {
        let head = words(s.drop_last());
        if s.last() == ' ' {
            head.push(Seq::empty())
        } else {
            head.drop_last().push(head.last().push(s.last()))
        }
    }
}

/// The patterns of a list of words.
pub open spec fn patterns(w: Seq<Seq<char>>) -> Seq<Seq<char>> {
    Seq::new(w.len(), |i: int| like_pattern(w[i]))
}

/// `name LIKE ?` as often as `n`, joined by `AND`.
pub open spec fn name_clause(n: nat) -> Seq<char>
    decreases n,
{
    if n == 0 {
        Seq::empty()
    } else if n == 1 {
        "name LIKE ?"@
    } else {
        name_clause((n - 1) as nat) + " AND "@ + "name LIKE ?"@
    }
}

/// The filter of the authors: a name matches if it holds every word of the
/// filter text. The clause asks for each word once, the parameters are the
/// patterns of the words.
pub fn authors_filter(text: &str) -> (out: (String, Vec<String>))
    ensures
        texts(out.1@) == patterns(words(text@)),
        out.0@ == name_clause(words(text@).len()),
{
    let n = text.unicode_len();
    let mut parts: Vec<String> = Vec::new();
    let mut clause = String::new();
    let mut start: usize = 0;
    let mut i: usize = 0;
    proof {
        assert(text@.take(0) =~= Seq::<char>::empty());
        assert(text@.subrange(0, 0) =~= Seq::<char>::empty());
        assert(patterns(words(text@.take(0))) =~= texts(parts@).push(
            like_pattern(text@.subrange(0, 0)),
        ));
    }
    while i < n
        invariant
            n == text@.len(),
            start <= i <= n,
            words(text@.take(i as int)).len() == parts@.len() + 1,
            words(text@.take(i as int)).last() == text@.subrange(start as int, i as int),
            patterns(words(text@.take(i as int)).drop_last()) == texts(parts@),
            clause@ == name_clause(parts@.len() as nat),
        decreases n - i,
    {
        let ghost seen = text@.take(i as int);
        let ghost before = texts(parts@);
        let ghost head = words(seen);
        proof {
            assert(text@.take(i + 1).drop_last() =~= seen);
            assert(text@.take(i + 1).last() == text@[i as int]);
        }
        if text.get_char(i) == ' ' {
            let word = text.substring_char(start, i);
            if parts.len() > 0 {
                clause.append(" AND ");
            }
            clause.append("name LIKE ?");
            parts.push(pattern_of(word));
            start = i + 1;
            proof {
                let next = words(text@.take(i + 1));
                assert(next == head.push(Seq::empty()));
                assert(next.drop_last() =~= head);
                assert(text@.subrange(start as int, i + 1) =~= Seq::<char>::empty());
                assert(head =~= head.drop_last().push(head.last()));
                assert(patterns(head) =~= patterns(head.drop_last()).push(like_pattern(head.last())));
                assert(texts(parts@) =~= before.push(like_pattern(head.last())));
            }
        } else {
            proof {
                let next = words(text@.take(i + 1));
                assert(next == head.drop_last().push(head.last().push(text@[i as int])));
                assert(next.drop_last() =~= head.drop_last());
                assert(text@.subrange(start as int, i + 1) =~= text@.subrange(
                    start as int,
                    i as int,
                ).push(text@[i as int]));
            }
        }
        i = i + 1;
    }
    let word = text.substring_char(start, n);
    if parts.len() > 0 {
        clause.append(" AND ");
    }
    clause.append("name LIKE ?");
    let ghost before = texts(parts@);
    parts.push(pattern_of(word));
    proof {
        assert(text@.take(n as int) =~= text@);
        let all = words(text@);
        assert(all =~= all.drop_last().push(all.last()));
        assert(patterns(all) =~= patterns(all.drop_last()).push(like_pattern(all.last())));
        assert(texts(parts@) =~= before.push(like_pattern(all.last())));
    }
    (clause, parts)
}

/// The text that a value holds, if it is a text.
pub open spec fn as_text(v: SqlValue) -> Option<Seq<char>> {
    match v {
        SqlValue::Text(s) => Some(s@),
        _ => None,
    }
}

/// The number that a value holds, if it is a number.
pub open spec fn as_int(v: SqlValue) -> Option<i64> {
    match v {
        SqlValue::Integer(i) => Some(i),
        _ => None,
    }
}

/// Whether a value can stand in a column of texts that may be empty.
pub open spec fn is_opt_text(v: SqlValue) -> bool {
    v is Null || v is Text
}

/// Whether a failure says that a column holds a value of another type
/// than the catalogue writes there.
pub open spec fn is_wrong_type(e: BookError) -> bool {
    e matches BookError::DBError(msg) && msg@ == "a column holds a value of another type"@
}

fn wrong_type() -> (e: BookError)
    ensures
        is_wrong_type(e),
{
    BookError::DBError(String::from_str("a column holds a value of another type"))
}

/// Reads a text.
pub fn read_text(v: &SqlValue) -> (r: Result<String, BookError>)
    ensures
        match r {
            Ok(s) => as_text(*v) == Some(s@),
            Err(e) => as_text(*v) is None && is_wrong_type(e),
        },
{
    match v {
        SqlValue::Text(s) => Ok(s.clone()),
        _ => Err(wrong_type()),
    }
}

/// Reads a text that may be missing: `NULL` is no text.
pub fn read_opt_text(v: &SqlValue) -> (r: Result<Option<String>, BookError>)
    ensures
        match r {
            Ok(s) => is_opt_text(*v) && opt_text(s) == as_text(*v),
            Err(e) => !is_opt_text(*v) && is_wrong_type(e),
        },
{
    match v {
        SqlValue::Text(s) => Ok(Some(s.clone())),
        SqlValue::Null => Ok(None),
        _ => Err(wrong_type()),
    }
}

/// Reads a number.
pub fn read_int(v: &SqlValue) -> (r: Result<i64, BookError>)
    ensures
        match r {
            Ok(i) => as_int(*v) == Some(i),
            Err(e) => as_int(*v) is None && is_wrong_type(e),
        },
{
    match v {
        SqlValue::Integer(i) => Ok(*i),
        _ => Err(wrong_type()),
    }
}

/// Reads the first value of a row as a text.
pub fn first_text(row: &Vec<SqlValue>) -> (r: Result<String, BookError>)
    ensures
        match r {
            Ok(s) => row@.len() > 0 && as_text(row@[0]) == Some(s@),
            Err(e) => (row@.len() == 0 || as_text(row@[0]) is None) && is_wrong_type(e),
        },
{
    if row.len() == 0 {
        return Err(wrong_type());
    }
    read_text(&row[0])
}

/// Whether `s` is the text that the first value of `row` holds.
pub open spec fn first_is(row: Vec<SqlValue>, s: String) -> bool {
    row@.len() > 0 && as_text(row@[0]) == Some(s@)
}

/// Whether the first value of `row` is a text.
pub open spec fn has_first_text(row: Vec<SqlValue>) -> bool {
    row@.len() > 0 && as_text(row@[0]) is Some
}

/// Reads the first value of each row as a text. The call succeeds if and
/// only if every row begins with a text.
pub fn first_texts(rows: &Vec<Vec<SqlValue>>) -> (r: Result<Vec<String>, BookError>)
    ensures
        r is Ok <==> forall|i: int| 0 <= i < rows@.len() ==> has_first_text(#[trigger] rows@[i]),
        r matches Ok(v) ==> v@.len() == rows@.len() && forall|i: int|
            0 <= i < rows@.len() ==> first_is(rows@[i], #[trigger] v@[i]),
        r matches Err(e) ==> is_wrong_type(e),
{
    let mut out: Vec<String> = Vec::new();
    let mut i: usize = 0;
    while i < rows.len()
        invariant
            i <= rows.len(),
            out@.len() == i,
            forall|k: int| 0 <= k < i ==> first_is(rows@[k], #[trigger] out@[k]),
            forall|k: int| 0 <= k < i ==> has_first_text(#[trigger] rows@[k]),
        decreases rows.len() - i,
    {
        match first_text(&rows[i]) {
            Ok(text) => {
                out.push(text);
            },
            Err(e) => {
                assert(!has_first_text(rows@[i as int]));
                return Err(e);
            },
        }
        i = i + 1;
    }
    Ok(out)
}

/// Whether a row of the books can be read: it has the eleven columns, the
/// id and the times of creation and change are numbers, the times are
/// points in time, as is the day of publication where it is a number, and
/// the texts are texts.
pub open spec fn row_reads(row: Seq<SqlValue>) -> bool {
    &&& row.len() >= 11
    &&& as_int(row[0]) is Some
    &&& is_opt_text(row[1])
    &&& is_opt_text(row[2])
    &&& as_text(row[3]) is Some
    &&& as_text(row[4]) is Some
    &&& as_text(row[5]) is Some
    &&& is_opt_text(row[6])
    &&& is_opt_text(row[7])
    &&& (as_int(row[8]) matches Some(day) ==> timestamp_exists(day))
    &&& (as_int(row[9]) matches Some(t) && timestamp_exists(t))
    &&& (as_int(row[10]) matches Some(t) && timestamp_exists(t))
}

/// Whether `book` holds in its own fields what `row` holds for them, column
/// by column. Its authors and tags stand in other tables.
pub open spec fn read_from(row: Seq<SqlValue>, book: Book) -> bool {
    &&& Some(book.id) == as_int(row[0])
    &&& book@.cover_img == as_text(row[1])
    &&& book@.description == as_text(row[2])
    &&& Some(book@.isbn) == as_text(row[3])
    &&& Some(book@.lang) == as_text(row[4])
    &&& Some(book@.title) == as_text(row[5])
    &&& book@.sub_title == as_text(row[6])
    &&& book@.publisher == as_text(row[7])
    &&& book.publish_date == as_int(row[8])
    &&& Some(book.created) == as_int(row[9])
    &&& Some(book.updated) == as_int(row[10])
}

/// Whether `book` is what some row of the books holds.
pub open spec fn from_a_row(book: Book) -> bool {
    exists|row: Seq<SqlValue>| row_reads(row) && read_from(row, book)
}

/// The tags of a book as they were read: no tag is no tags.
pub open spec fn read_tags(tags: Seq<Seq<char>>) -> Option<Seq<Seq<char>>> {
    if tags.len() == 0 {
        None
    } else {
        Some(tags)
    }
}

/// Makes a book from its row and from its authors and tags. A day of
/// publication that is no number is no day.
pub fn decode_book(row: &Vec<SqlValue>, authors: Vec<String>, tags: Vec<String>) -> (r: Result<
    Book,
    BookError,
>)
    ensures
        r is Ok <==> row_reads(row@),
        r matches Ok(book) ==> {
            &&& book@.authors == texts(authors@)
            &&& book@.tags == read_tags(texts(tags@))
            &&& read_from(row@, book)
            &&& well_read(book)
        },
        r matches Err(e) ==> is_wrong_type(e) || is_bad_timestamp(e),
{
    if row.len() < 11 {
        return Err(wrong_type());
    }
    let id = read_int(&row[0])?;
    let cover_img = read_opt_text(&row[1])?;
    let description = read_opt_text(&row[2])?;
    let isbn = read_text(&row[3])?;
    let lang = read_text(&row[4])?;
    let title = read_text(&row[5])?;
    let sub_title = read_opt_text(&row[6])?;
    let publisher = read_opt_text(&row[7])?;
    let publish_date = match &row[8] {
        SqlValue::Integer(day) => Some(convert_timestamp(*day)?),
        _ => None,
    };
    let created = convert_timestamp(read_int(&row[9])?)?;
    let updated = convert_timestamp(read_int(&row[10])?)?;
    let tags = if tags.len() == 0 {
        None
    } else {
        Some(tags)
    };
    Ok(
        Book {
            authors,
            cover_img,
            description,
            isbn,
            lang,
            tags,
            title,
            sub_title,
            publisher,
            publish_date,
            id,
            created,
            updated,
        },
    )
}

/// The tags of a book in their normal form.
pub fn normalized_tags(tags: &Option<Vec<String>>) -> (out: Option<Vec<String>>)
    ensures
        normal_tags(opt_texts(*tags), opt_texts(out)),
{
    match tags {
        None => None,
        Some(t) => {
            if t.len() == 0 {
                None
            } else {
                let mut copy = copy_strings(t);
                normalize_names(&mut copy);
                Some(copy)
            }
        },
    }
}

/// Whether a value is the parameter for a text that may be missing: the
/// text itself, or `NULL` for none.
pub open spec fn holds_opt_text(v: SqlValue, s: Option<Seq<char>>) -> bool {
    match s {
        Some(t) => as_text(v) == Some(t),
        None => v is Null,
    }
}

/// Whether a value is the parameter for a number that may be missing: the
/// number itself, or `NULL` for none.
pub open spec fn holds_opt_int(v: SqlValue, i: Option<i64>) -> bool {
    match i {
        Some(n) => as_int(v) == Some(n),
        None => v is Null,
    }
}

/// Whether `params` are the values of a book that a statement writes, in
/// the order of the columns: cover, description, ISBN, language, title,
/// subtitle, publisher and day of publication.
pub open spec fn holds_book(params: Seq<SqlValue>, book: BookModel) -> bool {
    &&& params.len() == 8
    &&& holds_opt_text(params[0], book.cover_img)
    &&& holds_opt_text(params[1], book.description)
    &&& as_text(params[2]) == Some(book.isbn)
    &&& as_text(params[3]) == Some(book.lang)
    &&& as_text(params[4]) == Some(book.title)
    &&& holds_opt_text(params[5], book.sub_title)
    &&& holds_opt_text(params[6], book.publisher)
    &&& holds_opt_int(params[7], book.publish_date)
}

fn text_param(s: &String) -> (v: SqlValue)
    ensures
        as_text(v) == Some(s@),
{
    SqlValue::Text(s.clone())
}

fn opt_text_param(s: &Option<String>) -> (v: SqlValue)
    ensures
        holds_opt_text(v, opt_text(*s)),
{
    match s {
        Some(t) => SqlValue::Text(t.clone()),
        None => SqlValue::Null,
    }
}

fn int_param(i: i64) -> (v: SqlValue)
    ensures
        as_int(v) == Some(i),
{
    SqlValue::Integer(i)
}

fn opt_int_param(i: &Option<i64>) -> (v: SqlValue)
    ensures
        holds_opt_int(v, *i),
{
    match i {
        Some(n) => SqlValue::Integer(*n),
        None => SqlValue::Null,
    }
}

/// What a book hands to the statement that writes it, in the order of the
/// columns.
fn book_params(book: &Book) -> (params: Vec<SqlValue>)
    ensures
        holds_book(params@, book@),
{
    let mut params: Vec<SqlValue> = Vec::new();
    params.push(opt_text_param(&book.cover_img));
    params.push(opt_text_param(&book.description));
    params.push(text_param(&book.isbn));
    params.push(text_param(&book.lang));
    params.push(text_param(&book.title));
    params.push(opt_text_param(&book.sub_title));
    params.push(opt_text_param(&book.publisher));
    params.push(opt_int_param(&book.publish_date));
    params
}

fn run(conn: &rusqlite::Connection, sql: &str, params: &Vec<SqlValue>) -> (r: Result<
    usize,
    BookError,
>)
    requires
        can_bind(params@),
    ensures
        r matches Err(e) ==> e is DBError,
{
    match execute(conn, sql, &to_outside(params)) {
        Ok(n) => Ok(n),
        Err(e) => Err(db_error(&e)),
    }
}

fn ask(conn: &rusqlite::Connection, sql: &str, params: &Vec<SqlValue>) -> (r: Result<
    Vec<Vec<SqlValue>>,
    BookError,
>)
    requires
        can_bind(params@),
    ensures
        r matches Err(e) ==> e is DBError,
{
    match query(conn, sql, &to_outside(params)) {
        Ok(rows) => Ok(rows),
        Err(e) => Err(db_error(&e)),
    }
}

/// What a name hands to the statement that writes it: the id of its book,
/// then the name.
pub fn name_row(id: i64, name: &String) -> (params: Vec<SqlValue>)
    ensures
        params@.len() == 2,
        as_int(params@[0]) == Some(id),
        as_text(params@[1]) == Some(name@),
{
    let mut params: Vec<SqlValue> = Vec::new();
    params.push(int_param(id));
    params.push(text_param(name));
    params
}

/// Writes one row for each name, with the id of the book. Without a name
/// nothing is asked of the database, and the call succeeds.
fn insert_names(conn: &rusqlite::Connection, sql: &str, id: i64, names: &Vec<String>) -> (r: Result<
    (),
    BookError,
>)
    ensures
        names@.len() == 0 ==> r is Ok,
        r matches Err(e) ==> e is DBError,
{
    let mut i: usize = 0;
    while i < names.len()
        invariant
            i <= names.len(),
        decreases names.len() - i,
    {
        run(conn, sql, &name_row(id, &names[i]))?;
        i = i + 1;
    }
    Ok(())
}

/// Writes the authors of a book over the stored ones, in their normal
/// form. A book without an author is refused before anything is written.
/// The caller's list is brought into its normal form once the authors are
/// written, and left as it was where the call fails.
pub(crate) fn update_book_authors(
    conn: &rusqlite::Connection,
    id: i64,
    authors: &mut Vec<String>,
) -> (r: Result<(), BookError>)
    ensures
        old(authors)@.len() == 0 <==> r matches Err(BookError::EmptyAuthors),
        r is Err ==> *final(authors) == *old(authors),
        r is Ok ==> crate::order::normal_names(texts(old(authors)@), texts(final(authors)@)),
        r matches Err(e) ==> e is DBError || e is EmptyAuthors,
{
    if authors.len() == 0 {
        return Err(BookError::EmptyAuthors);
    }
    let mut params: Vec<SqlValue> = Vec::new();
    params.push(int_param(id));
    run(conn, "DELETE FROM authors WHERE book_id = ?1", &params)?;
    let mut normal = copy_strings(authors);
    normalize_names(&mut normal);
    insert_names(conn, "INSERT INTO authors (book_id, name) VALUES (?1, ?2)", id, &normal)?;
    *authors = normal;
    Ok(())
}

/// Writes the tags of a book over the stored ones, in their normal form.
/// The caller's tags are brought into their normal form once they are
/// written, and left as they were where the call fails.
pub(crate) fn update_book_tags(
    conn: &rusqlite::Connection,
    id: i64,
    tags: &mut Option<Vec<String>>,
) -> (r: Result<(), BookError>)
    ensures
        r is Err ==> *final(tags) == *old(tags),
        r is Ok ==> normal_tags(opt_texts(*old(tags)), opt_texts(*final(tags))),
        r matches Err(e) ==> e is DBError,
{
    let mut params: Vec<SqlValue> = Vec::new();
    params.push(int_param(id));
    run(conn, "DELETE FROM tags WHERE book_id = ?1", &params)?;
    let normal = normalized_tags(tags);
    match &normal {
        Some(t) => {
            insert_names(conn, "INSERT INTO tags (book_id, tag) VALUES (?1, ?2)", id, t)?;
        },
        None => {},
    }
    *tags = normal;
    Ok(())
}

/// The authors of a book, in ascending order.
pub(crate) fn load_authors_of_book(conn: &rusqlite::Connection, id: i64) -> (r: Result<
    Vec<String>,
    BookError,
>)
    ensures
        r matches Err(e) ==> e is DBError,
{
    let mut params: Vec<SqlValue> = Vec::new();
    params.push(int_param(id));
    let rows = ask(conn, "SELECT name FROM authors WHERE book_id = ?1 ORDER BY name ASC", &params)?;
    first_texts(&rows)
}

/// The tags of a book, in ascending order.
pub(crate) fn load_tags_of_book(conn: &rusqlite::Connection, id: i64) -> (r: Result<
    Vec<String>,
    BookError,
>)
    ensures
        r matches Err(e) ==> e is DBError,
{
    let mut params: Vec<SqlValue> = Vec::new();
    params.push(int_param(id));
    let rows = ask(conn, "SELECT tag FROM tags WHERE book_id = ?1 ORDER BY tag ASC", &params)?;
    first_texts(&rows)
}

/// Whether a failure says that a row holds another id than was asked for.
pub open spec fn is_foreign_row(e: BookError) -> bool {
    e matches BookError::DBError(msg) && msg@ == "a row holds another id than was asked for"@
}

/// Accepts a book that was read for an id if it has that id.
pub fn check_book_id(book: Book, id: i64) -> (r: Result<Book, BookError>)
    ensures
        match r {
            Ok(same) => same == book && book.id == id,
            Err(e) => book.id != id && is_foreign_row(e),
        },
{
    if book.id == id {
        Ok(book)
    } else {
        Err(BookError::DBError(String::from_str("a row holds another id than was asked for")))
    }
}

/// The first row of an answer. An answer without a row is the answer to a
/// question for a record that is not there.
pub fn first_row(rows: &Vec<Vec<SqlValue>>) -> (r: Result<&Vec<SqlValue>, BookError>)
    ensures
        match r {
            Ok(row) => rows@.len() > 0 && *row == rows@[0],
            Err(e) => rows@.len() == 0 && e is NotFound,
        },
{
    if rows.len() == 0 {
        Err(BookError::NotFound)
    } else {
        Ok(&rows[0])
    }
}

/// Reads a book from its row, and its authors and tags from the database.
pub(crate) fn read_book(conn: &rusqlite::Connection, row: &Vec<SqlValue>) -> (r: Result<
    Book,
    BookError,
>)
    ensures
        r matches Ok(book) ==> row_reads(row@) && read_from(row@, book) && well_read(book),
        r matches Err(e) ==> e is DBError || is_bad_timestamp(e),
{
    if row.len() == 0 {
        return Err(wrong_type());
    }
    let id = read_int(&row[0])?;
    let authors = load_authors_of_book(conn, id)?;
    let tags = load_tags_of_book(conn, id)?;
    decode_book(row, authors, tags)
}

/// Whether an answer holds the two times of a book: its first row begins
/// with two numbers, each a point in time.
pub open spec fn holds_times(rows: Seq<Vec<SqlValue>>) -> bool {
    &&& rows.len() > 0
    &&& rows[0]@.len() >= 2
    &&& (as_int(rows[0]@[0]) matches Some(created) && timestamp_exists(created))
    &&& (as_int(rows[0]@[1]) matches Some(updated) && timestamp_exists(updated))
}

/// The two times that the store gave a book, from the answer that holds
/// them: the first row, with the time of creation and the time of change.
/// The call succeeds if and only if the answer holds them.
pub fn read_times(rows: &Vec<Vec<SqlValue>>) -> (r: Result<(i64, i64), BookError>)
    ensures
        r is Ok <==> holds_times(rows@),
        match r {
            Ok(times) => rows@.len() > 0 && rows@[0]@.len() >= 2 && as_int(rows@[0]@[0]) == Some(
                times.0,
            ) && as_int(rows@[0]@[1]) == Some(times.1) && timestamp_exists(times.0)
                && timestamp_exists(times.1),
            Err(e) => if rows@.len() == 0 {
                e is NotFound
            } else {
                is_wrong_type(e) || is_bad_timestamp(e)
            },
        },
{
    if rows.len() == 0 {
        return Err(BookError::NotFound);
    }
    let row = &rows[0];
    if row.len() < 2 {
        return Err(wrong_type());
    }
    let created = convert_timestamp(read_int(&row[0])?)?;
    let updated = convert_timestamp(read_int(&row[1])?)?;
    Ok((created, updated))
}

/// The text of the failure for an id that cannot be the id of a book.
pub open spec fn bad_row_id(id: i64) -> Seq<char> {
    "return row id is invalid: "@ + signed_decimal(id as int)
}

/// Accepts the id that the database gave a new book if it is above zero.
pub fn check_row_id(id: i64) -> (r: Result<i64, BookError>)
    ensures
        match r {
            Ok(n) => n == id && id > 0,
            Err(e) => id <= 0 && (e matches BookError::Generic(msg) && msg@ == bad_row_id(id)),
        },
{
    if id <= 0 {
        let mut msg = String::from_str("return row id is invalid: ");
        let digits = i64_to_decimal(id);
        msg.append(digits.as_str());
        Err(BookError::Generic(msg))
    } else {
        Ok(id)
    }
}

/// Opens the database file, creates it when it is missing, brings its
/// tables up to date and sets how it is written.
pub(crate) fn open_sqlite_connection(db_file: &str) -> (r: Result<rusqlite::Connection, BookError>)
    ensures
        r matches Err(e) ==> e is DBError,
{
    let mut conn = match open(db_file) {
        Ok(c) => c,
        Err(e) => {
            return Err(db_error(&e));
        },
    };
    let mut scripts: Vec<&str> = Vec::new();
    scripts.push(SCHEMA);
    match migrate(&mut conn, &scripts) {
        Ok(()) => {},
        Err(e) => {
            return Err(BookError::DBError(migration_error_text(&e)));
        },
    }
    match pragma_update(&conn, "journal_mode", "wal") {
        Ok(()) => {},
        Err(e) => {
            return Err(db_error(&e));
        },
    }
    match pragma_update(&conn, "synchronous", "normal") {
        Ok(()) => {},
        Err(e) => {
            return Err(db_error(&e));
        },
    }
    match pragma_update(&conn, "foreign_keys", "on") {
        Ok(()) => {},
        Err(e) => {
            return Err(db_error(&e));
        },
    }
    Ok(conn)
}

/// A store of books in one SQLite database.
pub struct SqliteStore {
    conn: std::sync::Mutex<rusqlite::Connection>,
}

impl SqliteStore {
    /// Opens the store in the given file; a file that is missing is made.
    pub fn new(db_file: &str) -> (r: Result<Self, BookError>)
        ensures
            r matches Err(e) ==> e is DBError,
    {
        match open_sqlite_connection(db_file) {
            Ok(conn) => Ok(SqliteStore { conn: guarded(conn) }),
            Err(e) => Err(e),
        }
    }
}

impl BookDB for SqliteStore {
    fn add_book(&mut self, book: &mut Book) -> (r: Result<(), BookError>) {
        if book.authors.len() == 0 {
            return Err(BookError::EmptyAuthors);
        }
        let mut authors = copy_strings(&book.authors);
        normalize_names(&mut authors);
        let tags = normalized_tags(&book.tags);
        let params = book_params(book);
        let tx = match begin(exclusive(&mut self.conn)) {
            Ok(tx) => tx,
            Err(e) => {
                return Err(db_error(&e));
            },
        };
        let conn = connection_of(&tx);
        let id = match insert(
            conn,
            "INSERT INTO books (cover_img, description, isbn, lang, title, sub_title, publisher, publish_date, created, updated) VALUES (?1, ?2, ?3, ?4, ?5, ?6, ?7, ?8, unixepoch(), unixepoch())",
            &to_outside(&params),
        ) {
            Ok(id) => id,
            Err(e) => {
                return Err(db_error(&e));
            },
        };
        let id = check_row_id(id)?;
        insert_names(conn, "INSERT INTO authors (book_id, name) VALUES (?1, ?2)", id, &authors)?;
        match &tags {
            Some(t) => {
                insert_names(conn, "INSERT INTO tags (book_id, tag) VALUES (?1, ?2)", id, t)?;
            },
            None => {},
        }
        let mut key: Vec<SqlValue> = Vec::new();
        key.push(int_param(id));
        let rows = ask(conn, "SELECT created, updated FROM books WHERE id = ?1", &key)?;
        let times = read_times(&rows)?;
        match commit(tx) {
            Ok(()) => {},
            Err(e) => {
                return Err(db_error(&e));
            },
        }
        book.id = id;
        book.created = times.0;
        book.updated = times.1;
        book.authors = authors;
        book.tags = tags;
        Ok(())
    }

    fn get_book(&mut self, id: i64) -> (r: Result<Book, BookError>)
        ensures
            r matches Ok(book) ==> from_a_row(book),
            r matches Err(e) ==> e is NotFound || e is DBError || is_bad_timestamp(e),
    {
        let mut sql = String::from_str(SELECT_BOOKS_QUERY);
        sql.append(" WHERE id = ?1");
        let mut key: Vec<SqlValue> = Vec::new();
        key.push(int_param(id));
        let conn: &rusqlite::Connection = exclusive(&mut self.conn);
        let rows = ask(conn, sql.as_str(), &key)?;
        let row = first_row(&rows)?;
        let book = read_book(conn, row)?;
        assert(row_reads(row@) && read_from(row@, book));
        check_book_id(book, id)
    }

    fn update_book(&mut self, book: &mut Book) -> (r: Result<(), BookError>) {
        if book.authors.len() == 0 {
            return Err(BookError::EmptyAuthors);
        }
        let mut authors = copy_strings(&book.authors);
        let mut tags = match &book.tags {
            Some(t) => Some(copy_strings(t)),
            None => None,
        };
        let mut params = book_params(book);
        params.push(int_param(book.id));
        let tx = match begin(exclusive(&mut self.conn)) {
            Ok(tx) => tx,
            Err(e) => {
                return Err(db_error(&e));
            },
        };
        let conn = connection_of(&tx);
        run(
            conn,
            "UPDATE books SET cover_img = ?1, description = ?2, isbn = ?3, lang = ?4, title = ?5, sub_title = ?6, publisher = ?7, publish_date = ?8, updated = unixepoch() WHERE id = ?9",
            &params,
        )?;
        update_book_tags(conn, book.id, &mut tags)?;
        update_book_authors(conn, book.id, &mut authors)?;
        match commit(tx) {
            Ok(()) => {},
            Err(e) => {
                return Err(db_error(&e));
            },
        }
        book.authors = authors;
        book.tags = tags;
        Ok(())
    }

    fn delete_book(&mut self, book: &Book) -> (r: Result<(), BookError>)
        ensures
            r matches Err(e) ==> e is DBError,
    {
        self.delete_book_by_id(book.id)
    }

    fn delete_book_by_id(&mut self, id: i64) -> (r: Result<(), BookError>)
        ensures
            r matches Err(e) ==> e is DBError,
    {
        let mut key: Vec<SqlValue> = Vec::new();
        key.push(int_param(id));
        let conn: &rusqlite::Connection = exclusive(&mut self.conn);
        match run(conn, "DELETE FROM books WHERE id = ?1", &key) {
            Ok(_) => Ok(()),
            Err(e) => Err(e),
        }
    }

    fn fetch_books(&mut self, search: SearchConfig<ConfigInitialized>) -> (r: Result<
        StoreResult<Book>,
        BookError,
    >)
        ensures
            r matches Ok(found) ==> forall|i: int|
                0 <= i < found.items@.len() ==> from_a_row(#[trigger] found.items@[i]),
            r matches Err(e) ==> e is NotFound || e is DBError || is_bad_timestamp(e),
    {
        let columns = [
            "id",
            "cover_img",
            "description",
            "isbn",
            "lang",
            "title",
            "sub_title",
            "publisher",
            "publish_date",
            "created",
            "updated",
        ];
        let mut builder = QueryBuilder::new(SELECT_BOOKS_QUERY, &search, columns.as_slice());
        builder.use_where_clause(books_filter)?;
        let mut books: StoreResult<Book> = StoreResult::default();
        let conn: &rusqlite::Connection = exclusive(&mut self.conn);
        let map = |row: &Vec<SqlValue>| -> (r: Result<Book, BookError>)
            ensures
                r matches Ok(book) ==> well_read(book) && row_reads(row@) && read_from(row@, book),
                r matches Err(e) ==> e is DBError || is_bad_timestamp(e),
            { read_book(conn, row) };
        match builder.fetch(conn, &mut books, map) {
            Ok(()) => Ok(books),
            Err(e) => Err(e),
        }
    }

    fn get_tags(&mut self, search: SearchConfig<ConfigInitialized>) -> (r: Result<
        StoreResult<String>,
        BookError,
    >)
        ensures
            r matches Err(e) ==> e is NotFound || e is DBError,
    {
        let columns = ["tag"];
        let mut builder = QueryBuilder::new(SELECT_TAGS_QUERY, &search, columns.as_slice());
        builder.use_where_clause(tags_filter)?;
        let mut tags: StoreResult<String> = StoreResult::default();
        let conn: &rusqlite::Connection = exclusive(&mut self.conn);
        match builder.fetch(conn, &mut tags, first_text) {
            Ok(()) => Ok(tags),
            Err(e) => Err(e),
        }
    }

    fn get_authors(&mut self, search: SearchConfig<ConfigInitialized>) -> (r: Result<
        StoreResult<String>,
        BookError,
    >)
        ensures
            r matches Err(e) ==> e is NotFound || e is DBError,
    {
        let columns = ["name"];
        let mut builder = QueryBuilder::new(SELECT_AUTHORS_QUERY, &search, columns.as_slice());
        builder.use_where_clause(authors_filter)?;
        let mut authors: StoreResult<String> = StoreResult::default();
        let conn: &rusqlite::Connection = exclusive(&mut self.conn);
        match builder.fetch(conn, &mut authors, first_text) {
            Ok(()) => Ok(authors),
            Err(e) => Err(e),
        }
    }
}

} // verus!
