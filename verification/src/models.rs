//! The value types of the catalogue: errors, sort descriptors, search
//! requests, result envelopes and the book record.

use crate::order::normal_names;
use crate::query::skipped_pages;
use crate::sqlite::timestamp_exists;
use crate::text::{check_identifier, is_identifier, lowercase, str_eq, texts, to_lowercase};
use std::marker::PhantomData;
use vstd::prelude::*;
use vstd::std_specs::convert::FromSpecImpl;

verus! {

/// What can go wrong in the catalogue.
#[non_exhaustive]
#[derive(Debug)]
pub enum BookError {
    /// A failure that has no variant of its own; the text says what happened.
    /// A query builder that is given both a filter clause and raw parameters
    /// reports its misconfiguration with this variant.
    Generic(String),
    /// No record has the requested id.
    NotFound,
    /// The backend failed; the text is the backend's own message.
    DBError(String),
    /// A book was handed in without an author.
    EmptyAuthors,
}

impl BookError {
    /// The text shown for a failure.
    pub open spec fn spec_message(self) -> Seq<char> {
        match self {
            BookError::Generic(s) => s@,
            BookError::NotFound => "Did not find item with given id"@,
            BookError::DBError(e) => "Database error: "@ + e@,
            BookError::EmptyAuthors => "Book requires at least one author"@,
        }
    }

    /// Renders the failure as text.
    pub fn message(&self) -> (text: String)
        ensures
            text@ == self.spec_message(),
    {
        match self {
            BookError::Generic(s) => s.clone(),
            BookError::NotFound => String::from_str("Did not find item with given id"),
            BookError::DBError(e) => String::from_str("Database error: ").concat(e.as_str()),
            BookError::EmptyAuthors => String::from_str("Book requires at least one author"),
        }
    }
}

/// Direction of a sort.
#[derive(Debug, Clone, Copy, PartialEq, Eq, Structural)]
pub enum SortOrder {
    Asc,
    Desc,
}

impl SortOrder {
    /// The direction that a lower-case word stands for: `desc` is descending,
    /// every other word ascending.
    pub open spec fn of_lowercase(word: Seq<char>) -> SortOrder {
        if word == "desc"@ {
            SortOrder::Desc
        } else {
            SortOrder::Asc
        }
    }

    /// Reads a direction from a word that is already in lower case.
    pub fn from_lowercase(word: &str) -> (order: SortOrder)
        ensures
            order == SortOrder::of_lowercase(word@),
    {
        if str_eq(word, "desc") {
            SortOrder::Desc
        } else {
            SortOrder::Asc
        }
    }

    /// The SQL keyword of the direction.
    pub open spec fn spec_keyword(self) -> Seq<char> {
        match self {
            SortOrder::Asc => "ASC"@,
            SortOrder::Desc => "DESC"@,
        }
    }

    /// The SQL keyword of the direction.
    pub fn keyword(&self) -> (k: &'static str)
        ensures
            k@ == self.spec_keyword(),
    {
        match self {
            SortOrder::Asc => "ASC",
            SortOrder::Desc => "DESC",
        }
    }
}

impl From<String> for SortOrder {
    fn from(value: String) -> (order: SortOrder) {
        let lower = to_lowercase(value.as_str());
        SortOrder::from_lowercase(lower.as_str())
    }
}

impl FromSpecImpl<String> for SortOrder {
    open spec fn obeys_from_spec() -> bool {
        true
    }

    open spec fn from_spec(value: String) -> SortOrder {
        SortOrder::of_lowercase(lowercase(value@))
    }
}

impl From<&str> for SortOrder {
    fn from(value: &str) -> (order: SortOrder) {
        let lower = to_lowercase(value);
        SortOrder::from_lowercase(lower.as_str())
    }
}

impl FromSpecImpl<&str> for SortOrder {
    open spec fn obeys_from_spec() -> bool {
        true
    }

    open spec fn from_spec(value: &str) -> SortOrder {
        SortOrder::of_lowercase(lowercase(value@))
    }
}

/// A column and the direction in which to sort by it.
#[derive(Debug)]
pub struct SortDescriptor(pub String, pub SortOrder);

/// A sort descriptor as a plain value: the column's name and the direction.
pub struct SortKey {
    pub column: Seq<char>,
    pub order: SortOrder,
}

impl View for SortDescriptor {
    type V = SortKey;

    open spec fn view(&self) -> SortKey {
        SortKey { column: self.0@, order: self.1 }
    }
}

/// The keys of a list of sort descriptors.
pub open spec fn sort_keys(v: Seq<SortDescriptor>) -> Seq<SortKey> {
    Seq::new(v.len(), |i: int| v[i]@)
}

/// The keys whose column has the shape of an identifier, in their order.
pub open spec fn well_formed_keys(keys: Seq<SortKey>) -> Seq<SortKey> {
    keys.filter(|k: SortKey| is_identifier(k.column))
}

/// The envelope of a search: how many records match, how many pages were
/// skipped, and the page itself.
#[derive(Debug)]
pub struct StoreResult<T> {
    pub total: u64,
    pub skipped: u64,
    pub items: Vec<T>,
}

impl<T> Default for StoreResult<T> {
    fn default() -> (r: Self)
        ensures
            r.total == 0,
            r.skipped == 0,
            r.items@.len() == 0,
    {
        StoreResult { total: 0, skipped: 0, items: Vec::new() }
    }
}

/// Marks a search request that is still being put together.
pub struct ConfigNew;

/// Marks a search request that is complete and may be run.
pub struct ConfigInitialized;

/// A search request as a plain value.
pub struct SearchModel {
    /// The filter text; empty means no filter.
    pub text: Seq<char>,
    /// The sort keys in the order of their weight, if any were given.
    pub sort: Option<Seq<SortKey>>,
    /// The page size, if the result is paged.
    pub take: Option<u64>,
    /// The number of pages to pass over.
    pub skip_page: Option<u64>,
}

/// A search request. It is put together in the state `ConfigNew` and can be
/// run only after `build` has turned it into the state `ConfigInitialized`,
/// in which nothing can be changed any more.
///
/// Every column it holds has the shape of an identifier: `use_sort` leaves
/// out the descriptors whose column has not.
pub struct SearchConfig<State = ConfigNew> {
    state: PhantomData<State>,
    skip: Option<u64>,
    sort: Option<Vec<SortDescriptor>>,
    take: Option<u64>,
    text: String,
}

impl<State> View for SearchConfig<State> {
    type V = SearchModel;

    closed spec fn view(&self) -> SearchModel {
        SearchModel {
            text: self.text@,
            sort: match self.sort {
                Some(v) => Some(sort_keys(v@)),
                None => None,
            },
            take: self.take,
            skip_page: self.skip,
        }
    }
}

impl<State> SearchConfig<State> {
    #[verifier::type_invariant]
    spec fn columns_are_identifiers(self) -> bool {
        match self.sort {
            Some(v) => forall|i: int| 0 <= i < v@.len() ==> is_identifier(#[trigger] v@[i].0@),
            None => true,
        }
    }
}

/// Whether every column of a request is an identifier.
pub open spec fn columns_well_formed(m: SearchModel) -> bool {
    match m.sort {
        Some(keys) => forall|i: int| 0 <= i < keys.len() ==> is_identifier(#[trigger] keys[i].column),
        None => true,
    }
}

impl SearchConfig<ConfigNew> {
    /// A request for the records that match `txt`, unsorted and unpaged.
    pub fn new(txt: &str) -> (c: SearchConfig<ConfigNew>)
        ensures
            c@ == (SearchModel { text: txt@, sort: None, take: None, skip_page: None }),
    {
        SearchConfig { state: PhantomData, take: None, text: txt.to_owned(), skip: None, sort: None }
    }

    /// The completed request.
    pub closed spec fn built(self) -> SearchConfig<ConfigInitialized> {
        SearchConfig {
            skip: self.skip,
            take: self.take,
            sort: self.sort,
            text: self.text,
            state: PhantomData,
        }
    }

    /// Completes the request. What was asked for stays as it is.
    pub fn build(self) -> (c: SearchConfig<ConfigInitialized>)
        ensures
            c == self.built(),
            c@ == self@,
    {
        proof {
            use_type_invariant(&self);
        }
        let SearchConfig { skip, take, sort, text, state: _ } = self;
        SearchConfig { skip, take, sort, text, state: PhantomData }
    }

    /// Sets how many pages are passed over. It counts only together with
    /// `use_take`: after `use_take(20).use_skip_page(3)` the first 60 records
    /// are passed over.
    pub fn use_skip_page(self, skip: u64) -> (c: Self)
        ensures
            c@ == (SearchModel { skip_page: Some(skip), ..self@ }),
    {
        proof {
            use_type_invariant(&self);
        }
        let mut c = self;
        c.skip = Some(skip);
        c
    }

    /// Sets how many records a page holds.
    pub fn use_take(self, take: u64) -> (c: Self)
        ensures
            c@ == (SearchModel { take: Some(take), ..self@ }),
    {
        proof {
            use_type_invariant(&self);
        }
        let mut c = self;
        c.take = Some(take);
        c
    }

    /// Sets the sort keys. A descriptor whose column has not the shape of an
    /// identifier is left out; the others keep their order.
    pub fn use_sort(self, sort: Vec<SortDescriptor>) -> (c: Self)
        ensures
            c@ == (SearchModel { sort: Some(well_formed_keys(sort_keys(sort@))), ..self@ }),
    {
        proof {
            use_type_invariant(&self);
        }
        let ghost keys = sort_keys(sort@);
        let ghost pred = |k: SortKey| is_identifier(k.column);
        let mut kept: Vec<SortDescriptor> = Vec::new();
        let mut i: usize = 0;
        assert(keys.take(0).filter(pred) =~= sort_keys(kept@)) by {
            assert(keys.take(0) =~= Seq::<SortKey>::empty());
        }
        while i < sort.len()
            invariant
                i <= sort.len(),
                keys == sort_keys(sort@),
                pred == |k: SortKey| is_identifier(k.column),
                sort_keys(kept@) == keys.take(i as int).filter(pred),
                forall|k: int| 0 <= k < kept@.len() ==> is_identifier(#[trigger] kept@[k].0@),
            decreases sort.len() - i,
        {
            let ghost seen = keys.take(i as int);
            let ghost before = sort_keys(kept@);
            proof {
                assert(keys.take(i + 1) =~= seen.push(keys[i as int]));
                seen.lemma_filter_push(keys[i as int], pred);
            }
            if check_identifier(sort[i].0.as_str()) {
                kept.push(SortDescriptor(sort[i].0.clone(), sort[i].1));
                assert(sort_keys(kept@) =~= before.push(keys[i as int]));
            }
            i = i + 1;
        }
        assert(keys.take(sort@.len() as int) =~= keys);
        let mut c = self;
        c.sort = Some(kept);
        c
    }
}

impl From<SearchConfig<ConfigNew>> for SearchConfig<ConfigInitialized> {
    fn from(value: SearchConfig<ConfigNew>) -> (c: Self) {
        value.build()
    }
}

impl FromSpecImpl<SearchConfig<ConfigNew>> for SearchConfig<ConfigInitialized> {
    open spec fn obeys_from_spec() -> bool {
        true
    }

    open spec fn from_spec(value: SearchConfig<ConfigNew>) -> Self {
        value.built()
    }
}

impl SearchConfig<ConfigInitialized> {
    /// The page size, if the result is paged.
    pub fn get_take(&self) -> (take: Option<&u64>)
        ensures
            take matches Some(t) ==> self@.take == Some(*t),
            take is None ==> self@.take is None,
    {
        self.take.as_ref()
    }

    /// The number of pages to pass over, if one was given.
    pub fn get_skip_page(&self) -> (skip: Option<&u64>)
        ensures
            skip matches Some(s) ==> self@.skip_page == Some(*s),
            skip is None ==> self@.skip_page is None,
    {
        self.skip.as_ref()
    }

    /// The sort keys, if any were given. Each column is an identifier.
    pub fn get_sort_desc(&self) -> (sort: Option<&Vec<SortDescriptor>>)
        ensures
            sort matches Some(v) ==> self@.sort == Some(sort_keys(v@)),
            sort is None ==> self@.sort is None,
            columns_well_formed(self@),
    {
        proof {
            use_type_invariant(self);
        }
        self.sort.as_ref()
    }

    /// The filter text.
    pub fn get_text(&self) -> (text: &str)
        ensures
            text@ == self@.text,
    {
        self.text.as_str()
    }
}

/// A book of the catalogue. The points in time are seconds since the epoch.
#[derive(Debug, PartialEq, Clone)]
pub struct Book {
    pub authors: Vec<String>,
    pub cover_img: Option<String>,
    pub description: Option<String>,
    pub isbn: String,
    pub lang: String,
    pub tags: Option<Vec<String>>,
    pub title: String,
    pub sub_title: Option<String>,
    pub publisher: Option<String>,
    pub publish_date: Option<i64>,
    /// Given by the store.
    pub id: i64,
    /// Given by the store.
    pub created: i64,
    /// Given by the store.
    pub updated: i64,
}

/// A book as a plain value.
pub struct BookModel {
    pub authors: Seq<Seq<char>>,
    pub cover_img: Option<Seq<char>>,
    pub description: Option<Seq<char>>,
    pub isbn: Seq<char>,
    pub lang: Seq<char>,
    pub tags: Option<Seq<Seq<char>>>,
    pub title: Seq<char>,
    pub sub_title: Option<Seq<char>>,
    pub publisher: Option<Seq<char>>,
    pub publish_date: Option<i64>,
    pub id: i64,
    pub created: i64,
    pub updated: i64,
}

/// The text of a string that may be missing.
pub open spec fn opt_text(s: Option<String>) -> Option<Seq<char>> {
    match s {
        Some(t) => Some(t@),
        None => None,
    }
}

/// The texts of a list of strings that may be missing.
pub open spec fn opt_texts(v: Option<Vec<String>>) -> Option<Seq<Seq<char>>> {
    match v {
        Some(t) => Some(texts(t@)),
        None => None,
    }
}

impl View for Book {
    type V = BookModel;

    open spec fn view(&self) -> BookModel {
        BookModel {
            authors: texts(self.authors@),
            cover_img: opt_text(self.cover_img),
            description: opt_text(self.description),
            isbn: self.isbn@,
            lang: self.lang@,
            tags: opt_texts(self.tags),
            title: self.title@,
            sub_title: opt_text(self.sub_title),
            publisher: opt_text(self.publisher),
            publish_date: self.publish_date,
            id: self.id,
            created: self.created,
            updated: self.updated,
        }
    }
}

impl Default for Book {
    fn default() -> (b: Book)
        ensures
            b@.authors.len() == 0,
            b@.tags is None,
            b@.id == 0,
    {
        let b = Book {
            authors: Vec::new(),
            cover_img: None,
            description: None,
            isbn: String::new(),
            lang: String::new(),
            tags: None,
            title: String::new(),
            sub_title: None,
            publisher: None,
            publish_date: None,
            id: 0,
            created: 0,
            updated: 0,
        };
        assert(texts(b.authors@) =~= Seq::<Seq<char>>::empty());
        b
    }
}

/// The normal form of the tags of a book: no tags and an empty list of tags
/// are both no tags; a list of tags is brought into its normal form.
pub open spec fn normal_tags(raw: Option<Seq<Seq<char>>>, out: Option<Seq<Seq<char>>>) -> bool {
    match raw {
        None => out is None,
        Some(t) => if t.len() == 0 {
            out is None
        } else {
            out matches Some(n) && normal_names(t, n)
        },
    }
}

/// How a book that a store has taken relates to the book that it was given:
/// authors and tags are in their normal form, nothing else that the caller
/// wrote has changed. The id and the times of creation and change are the
/// store's to give.
pub open spec fn stored_form(given: BookModel, taken: BookModel) -> bool {
    &&& normal_names(given.authors, taken.authors)
    &&& normal_tags(given.tags, taken.tags)
    &&& taken.cover_img == given.cover_img
    &&& taken.description == given.description
    &&& taken.isbn == given.isbn
    &&& taken.lang == given.lang
    &&& taken.title == given.title
    &&& taken.sub_title == given.sub_title
    &&& taken.publisher == given.publisher
    &&& taken.publish_date == given.publish_date
}

/// What holds of every book that a store hands out: its times of creation
/// and change are points in time, as is its day of publication where it
/// has one, and where it has tags it has at least one.
pub open spec fn well_read(book: Book) -> bool {
    &&& timestamp_exists(book.created)
    &&& timestamp_exists(book.updated)
    &&& (book.publish_date matches Some(day) ==> timestamp_exists(day))
    &&& (book@.tags matches Some(t) ==> t.len() > 0)
}

/// A store of books. Every store takes a book only with an author, and
/// refuses no other book for want of one; it brings authors and tags into
/// their normal form before it writes them, and leaves the caller's book
/// as it was when it fails.
pub trait BookDB: Send + Sync {
    /// Takes a new book and gives it its id and its times.
    fn add_book(&mut self, book: &mut Book) -> (r: Result<(), BookError>)
        ensures
            old(book)@.authors.len() == 0 <==> r matches Err(BookError::EmptyAuthors),
            r is Err ==> final(book)@ == old(book)@,
            r is Ok ==> stored_form(old(book)@, final(book)@) && final(book).id > 0
                && timestamp_exists(final(book).created) && timestamp_exists(final(book).updated),
    ;

    /// The book with the given id; `NotFound` is the failure of a store that
    /// has no such book. No other book is handed out in its place.
    fn get_book(&mut self, id: i64) -> (r: Result<Book, BookError>)
        ensures
            r matches Ok(book) ==> book.id == id && well_read(book),
    ;

    /// Writes the book over the stored book of the same id.
    fn update_book(&mut self, book: &mut Book) -> (r: Result<(), BookError>)
        ensures
            old(book)@.authors.len() == 0 <==> r matches Err(BookError::EmptyAuthors),
            r is Err ==> final(book)@ == old(book)@,
            r is Ok ==> stored_form(old(book)@, final(book)@) && final(book).id == old(book).id
                && final(book).created == old(book).created && final(book).updated == old(
                book,
            ).updated,
    ;

    /// Removes the stored book of the same id.
    fn delete_book(&mut self, book: &Book) -> (r: Result<(), BookError>);

    /// Removes the book with the given id.
    fn delete_book_by_id(&mut self, id: i64) -> (r: Result<(), BookError>);

    /// The books that match the request.
    fn fetch_books(&mut self, search: SearchConfig<ConfigInitialized>) -> (r: Result<
        StoreResult<Book>,
        BookError,
    >)
        ensures
            r matches Ok(found) ==> found.skipped == skipped_pages(
                search@.take,
                search@.skip_page,
            ),
            r matches Ok(found) ==> forall|i: int|
                0 <= i < found.items@.len() ==> well_read(#[trigger] found.items@[i]),
    ;

    /// The tags that match the request, each once.
    fn get_tags(&mut self, search: SearchConfig<ConfigInitialized>) -> (r: Result<
        StoreResult<String>,
        BookError,
    >)
        ensures
            r matches Ok(found) ==> found.skipped == skipped_pages(
                search@.take,
                search@.skip_page,
            ),
    ;

    /// The authors that match the request, each once.
    fn get_authors(&mut self, search: SearchConfig<ConfigInitialized>) -> (r: Result<
        StoreResult<String>,
        BookError,
    >)
        ensures
            r matches Ok(found) ==> found.skipped == skipped_pages(
                search@.take,
                search@.skip_page,
            ),
    ;
}

} // verus!
