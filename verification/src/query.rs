//! Turns a search request into two statements: one that counts the records
//! that match, and one that fetches a sorted page of them.
//!
//! A page is asked for with `LIMIT <take> OFFSET <take * skip_page>`, so
//! `skip_page` counts pages, not rows. The envelope reports the number of
//! pages that were passed over.

use crate::models::{
    BookError, ConfigInitialized, SearchConfig, SearchModel, SortDescriptor, SortKey, StoreResult,
    sort_keys,
};
use crate::order::copy_strings;
use crate::store::as_text;
use crate::sqlite::{SqlValue, integer_value, null_value, query, sqlite_error_text, text_value};
use crate::text::{decimal, is_identifier, str_eq, texts, u128_to_decimal, u64_to_decimal};
use vstd::prelude::*;
use vstd::string::*;

verus! {

/// The texts of a list of names.
pub open spec fn names(columns: Seq<&str>) -> Seq<Seq<char>> {
    Seq::new(columns.len(), |i: int| columns[i]@)
}

/// The keys whose column is one of `columns`, in their order.
pub open spec fn allowed_keys(keys: Seq<SortKey>, columns: Seq<Seq<char>>) -> Seq<SortKey> {
    keys.filter(|k: SortKey| columns.contains(k.column))
}

/// One sort key as it stands in a statement: the column, then the direction.
pub open spec fn key_text(k: SortKey) -> Seq<char> {
    k.column + " "@ + k.order.spec_keyword()
}

/// The sort keys as they stand in a statement, separated by commas.
pub open spec fn key_list(keys: Seq<SortKey>) -> Seq<char>
    decreases keys.len(),
{
    if keys.len() == 0 {
        Seq::empty()
    } else if keys.len() == 1 {
        key_text(keys[0])
    } else {
        key_list(keys.drop_last()) + ", "@ + key_text(keys.last())
    }
}

/// The `ORDER BY` clause with a blank behind it, or nothing when there is
/// no key to sort by.
pub open spec fn order_clause(keys: Seq<SortKey>) -> Seq<char> {
    if keys.len() == 0 {
        Seq::empty()
    } else {
        "ORDER BY "@ + key_list(keys) + " "@
    }
}

/// The `LIMIT` clause: nothing without a page size; the page size alone
/// when no page is passed over; else the page size and the number of rows
/// to pass over, which is the page size times the number of pages.
pub open spec fn limit_clause(take: Option<u64>, skip_page: Option<u64>) -> Seq<char> {
    match take {
        None => Seq::empty(),
        Some(t) => match skip_page {
            Some(s) => if s > 0 {
                "LIMIT "@ + decimal(t as nat) + " OFFSET "@ + decimal((t * s) as nat)
            } else {
                "LIMIT "@ + decimal(t as nat)
            },
            None => "LIMIT "@ + decimal(t as nat),
        },
    }
}

/// The number of pages passed over: `skip_page` where a page size is set,
/// else zero.
pub open spec fn skipped_pages(take: Option<u64>, skip_page: Option<u64>) -> u64 {
    match take {
        None => 0,
        Some(_) => match skip_page {
            Some(s) => s,
            None => 0,
        },
    }
}

/// The sort keys of a request that may be spliced into a statement.
pub open spec fn usable_keys(m: SearchModel, columns: Seq<Seq<char>>) -> Seq<SortKey> {
    match m.sort {
        Some(keys) => allowed_keys(keys, columns),
        None => Seq::empty(),
    }
}

/// What follows the filter in the fetch statement.
pub open spec fn sort_limit(m: SearchModel, columns: Seq<Seq<char>>) -> Seq<char> {
    order_clause(usable_keys(m, columns)) + limit_clause(m.take, m.skip_page)
}

/// A query builder as a plain value.
pub struct QueryModel {
    /// The statement that selects all records.
    pub query: Seq<char>,
    /// The filter text of the request.
    pub text: Seq<char>,
    /// Whether the builder was asked to filter by a filter clause function.
    /// It stays so where the function was not asked, or gave no clause.
    pub by_clause: bool,
    /// The `WHERE` clause, once a filter clause was given.
    pub filter: Option<Seq<char>>,
    /// The number of pages passed over.
    pub skipped: u64,
    /// The `ORDER BY` and `LIMIT` clauses.
    pub sort_limit: Seq<char>,
    /// The parameters of the filter clause.
    pub search_params: Option<Seq<Seq<char>>>,
    /// The raw parameters.
    pub params: Option<Seq<Seq<char>>>,
}

impl QueryModel {
    /// The builder that `QueryBuilder::new` makes.
    pub open spec fn initial(query: Seq<char>, m: SearchModel, columns: Seq<Seq<char>>) -> QueryModel {
        QueryModel {
            query,
            text: m.text,
            by_clause: false,
            filter: None,
            skipped: skipped_pages(m.take, m.skip_page),
            sort_limit: sort_limit(m, columns),
            search_params: None,
            params: None,
        }
    }

    /// The builder after it was asked to filter by a filter clause
    /// function, before the function gave a clause.
    pub open spec fn chosen(self) -> QueryModel {
        QueryModel { by_clause: true, ..self }
    }

    /// The builder after a filter clause with its parameters was given. An
    /// empty clause leaves the search unfiltered.
    pub open spec fn with_clause(self, clause: Seq<char>, params: Seq<Seq<char>>) -> QueryModel {
        if clause.len() == 0 {
            self.chosen()
        } else {
            QueryModel {
                by_clause: true,
                filter: Some("WHERE "@ + clause),
                search_params: Some(params),
                ..self
            }
        }
    }

    /// The statement that selects the records that match.
    pub open spec fn filtered_query(self) -> Seq<char> {
        match self.filter {
            Some(f) => self.query + " "@ + f,
            None => self.query,
        }
    }

    /// The statement that counts the records that match.
    pub open spec fn count_sql(self) -> Seq<char> {
        "SELECT COUNT(*) FROM ("@ + self.filtered_query() + ");"@
    }

    /// The statement that fetches the page.
    pub open spec fn fetch_sql(self) -> Seq<char> {
        self.filtered_query() + " "@ + self.sort_limit
    }

    /// The parameters bound to both statements, by position.
    pub open spec fn bound_params(self) -> Seq<Seq<char>> {
        match self.search_params {
            Some(p) => p,
            None => match self.params {
                Some(p) => p,
                None => Seq::empty(),
            },
        }
    }
}

/// The text of the failure that is reported when a builder is given both a
/// filter clause and raw parameters.
pub open spec fn either_or() -> Seq<char> {
    "Either use 'use_where_clause' or 'use_params'"@
}

/// Builds and runs the statements of one search.
pub struct QueryBuilder<'a> {
    query: &'a str,
    text: &'a str,
    by_clause: bool,
    filter: Option<String>,
    skipped: u64,
    sort_limit: String,
    search_params: Option<Vec<String>>,
    params: Option<Vec<String>>,
}

impl<'a> View for QueryBuilder<'a> {
    type V = QueryModel;

    closed spec fn view(&self) -> QueryModel {
        QueryModel {
            query: self.query@,
            text: self.text@,
            by_clause: self.by_clause,
            filter: match self.filter {
                Some(f) => Some(f@),
                None => None,
            },
            skipped: self.skipped,
            sort_limit: self.sort_limit@,
            search_params: match self.search_params {
                Some(p) => Some(texts(p@)),
                None => None,
            },
            params: match self.params {
                Some(p) => Some(texts(p@)),
                None => None,
            },
        }
    }
}

/// Tells whether `name` is one of `columns`.
pub fn column_allowed(columns: &[&str], name: &str) -> (found: bool)
    ensures
        found == names(columns@).contains(name@),
{
    let mut i: usize = 0;
    while i < columns.len()
        invariant
            i <= columns.len(),
            forall|k: int| 0 <= k < i ==> names(columns@)[k] != name@,
        decreases columns.len() - i,
    {
        if str_eq(columns[i], name) {
            assert(names(columns@)[i as int] == name@);
            return true;
        }
        i = i + 1;
    }
    false
}

/// Writes the `ORDER BY` clause for the descriptors whose column is one of
/// `columns`.
pub fn render_order(sort: &Vec<SortDescriptor>, columns: &[&str]) -> (clause: String)
    ensures
        clause@ == order_clause(allowed_keys(sort_keys(sort@), names(columns@))),
{
    let ghost keys = sort_keys(sort@);
    let ghost cols = names(columns@);
    let ghost pred = |k: SortKey| cols.contains(k.column);
    let mut list = String::new();
    let mut any = false;
    let mut i: usize = 0;
    let ghost mut kept: Seq<SortKey> = Seq::empty();
    proof {
        assert(keys.take(0) =~= Seq::<SortKey>::empty());
        assert(keys.take(0).filter(pred) =~= kept);
    }
    while i < sort.len()
        invariant
            i <= sort.len(),
            keys == sort_keys(sort@),
            cols == names(columns@),
            pred == |k: SortKey| cols.contains(k.column),
            kept == keys.take(i as int).filter(pred),
            any == (kept.len() > 0),
            list@ == key_list(kept),
        decreases sort.len() - i,
    {
        let ghost seen = keys.take(i as int);
        proof {
            assert(keys.take(i + 1) =~= seen.push(keys[i as int]));
            seen.lemma_filter_push(keys[i as int], pred);
        }
        let d = &sort[i];
        if column_allowed(columns, d.0.as_str()) {
            let ghost before = kept;
            if any {
                list.append(", ");
            }
            list.append(d.0.as_str());
            list.append(" ");
            list.append(d.1.keyword());
            proof {
                kept = before.push(keys[i as int]);
                assert(kept.drop_last() =~= before);
                assert(kept.last() == keys[i as int]);
                assert(list@ =~= key_list(kept));
            }
            any = true;
        }
        i = i + 1;
    }
    assert(keys.take(sort@.len() as int) =~= keys);
    if any {
        let mut clause = String::from_str("ORDER BY ");
        clause.append(list.as_str());
        clause.append(" ");
        clause
    } else {
        String::new()
    }
}

/// Writes the `LIMIT` clause of a page.
pub fn render_limit(take: Option<&u64>, skip_page: Option<&u64>) -> (clause: String)
    ensures
        clause@ == limit_clause(
            match take {
                Some(t) => Some(*t),
                None => None,
            },
            match skip_page {
                Some(s) => Some(*s),
                None => None,
            },
        ),
{
    match take {
        None => String::new(),
        Some(t) => {
            let mut clause = String::from_str("LIMIT ");
            let size = u64_to_decimal(*t);
            clause.append(size.as_str());
            match skip_page {
                Some(s) => {
                    if *s > 0 {
                        assert((*t) * (*s) <= u128::MAX) by (nonlinear_arith)
                            requires
                                *t <= u64::MAX,
                                *s <= u64::MAX,
                        ;
                        let offset: u128 = (*t as u128) * (*s as u128);
                        let rows = u128_to_decimal(offset);
                        clause.append(" OFFSET ");
                        clause.append(rows.as_str());
                    }
                },
                None => {},
            }
            clause
        },
    }
}

impl<'a> QueryBuilder<'a> {
    /// The filter text, as the filter clause function gets it.
    pub closed spec fn text_ref(&self) -> &'a str {
        self.text
    }

    /// A builder for `query`, the statement that selects every record, and a
    /// completed request. Of the sort keys of the request only those are
    /// used whose column is one of `columns`.
    pub fn new(
        query: &'a str,
        config: &'a SearchConfig<ConfigInitialized>,
        columns: &[&str],
    ) -> (builder: Self)
        ensures
            builder@ == QueryModel::initial(query@, config@, names(columns@)),
            builder.text_ref()@ == config@.text,
    {
        let mut sf = match config.get_sort_desc() {
            Some(sort) => render_order(sort, columns),
            None => String::new(),
        };
        let take = config.get_take();
        let skip = config.get_skip_page();
        let limit = render_limit(take, skip);
        sf.append(limit.as_str());
        let skipped: u64 = match take {
            Some(_) => match skip {
                Some(s) => *s,
                None => 0,
            },
            None => 0,
        };
        QueryBuilder {
            query,
            text: config.get_text(),
            by_clause: false,
            skipped,
            filter: None,
            search_params: None,
            sort_limit: sf,
            params: None,
        }
    }

    /// Makes the filter of the search from the filter text: `transform`
    /// gives the clause that follows `WHERE` and the parameters that are
    /// bound to it, in their order. It is not asked when the filter text is
    /// empty, and an empty clause leaves the search unfiltered. A builder
    /// that has raw parameters refuses the call and stays as it was; every
    /// other builder is from then on one that filters by a clause, and
    /// takes no raw parameters.
    pub fn use_where_clause<F>(&mut self, transform: F) -> (r: Result<(), BookError>) where
        F: FnOnce(&str) -> (String, Vec<String>),

        requires
            old(self)@.params is None && old(self)@.text.len() > 0 ==> call_requires(
                transform,
                (old(self).text_ref(),),
            ),
        ensures
            final(self).text_ref() == old(self).text_ref(),
            old(self)@.params is Some ==> final(self)@ == old(self)@ && (r matches Err(
                BookError::Generic(msg),
            ) && msg@ == either_or()),
            old(self)@.params is None ==> r is Ok,
            old(self)@.params is None && old(self)@.text.len() == 0 ==> final(self)@ == old(
                self,
            )@.chosen(),
            old(self)@.params is None && old(self)@.text.len() > 0 ==> exists|
                out: (String, Vec<String>),
            |
                call_ensures(transform, (old(self).text_ref(),), out) && final(self)@ == old(
                    self,
                )@.with_clause(out.0@, texts(out.1@)),
    {
        if self.params.is_some() {
            return Err(
                BookError::Generic(String::from_str("Either use 'use_where_clause' or 'use_params'")),
            );
        }
        self.by_clause = true;
        if !self.text.is_empty() {
            let fl = transform(self.text);
            let ghost out = fl;
            if fl.0.as_str().is_empty() {
                assert(self@ == old(self)@.with_clause(out.0@, texts(out.1@)));
                return Ok(());
            }
            let mut clause = String::from_str("WHERE ");
            clause.append(fl.0.as_str());
            self.filter = Some(clause);
            self.search_params = Some(fl.1);
            assert(self@ == old(self)@.with_clause(out.0@, texts(out.1@)));
        }
        Ok(())
    }

    /// Binds raw parameters to the statements. A builder that was asked to
    /// filter by a filter clause function refuses the call, whether or not
    /// the function gave a clause, and stays as it was.
    pub fn use_params(&mut self, params: Vec<String>) -> (r: Result<(), BookError>)
        ensures
            final(self).text_ref() == old(self).text_ref(),
            old(self)@.by_clause || old(self)@.filter is Some ==> final(self)@ == old(self)@ && (
            r matches Err(BookError::Generic(msg)) && msg@ == either_or()),
            !old(self)@.by_clause && old(self)@.filter is None ==> r is Ok && final(self)@ == (
            QueryModel { params: Some(texts(params@)), ..old(self)@ }),
    {
        if self.by_clause || self.filter.is_some() {
            return Err(
                BookError::Generic(String::from_str("Either use 'use_where_clause' or 'use_params'")),
            );
        }
        self.params = Some(params);
        Ok(())
    }

    /// The number of pages that the search passes over.
    pub fn skipped(&self) -> (n: u64)
        ensures
            n == self@.skipped,
    {
        self.skipped
    }

    fn filtered_query(&self) -> (sql: String)
        ensures
            sql@ == self@.filtered_query(),
    {
        let mut sql = String::from_str(self.query);
        match &self.filter {
            Some(f) => {
                sql.append(" ");
                sql.append(f.as_str());
            },
            None => {},
        }
        sql
    }

    /// The statement that counts the records that match.
    pub fn count_sql(&self) -> (sql: String)
        ensures
            sql@ == self@.count_sql(),
    {
        let mut sql = String::from_str("SELECT COUNT(*) FROM (");
        let inner = self.filtered_query();
        sql.append(inner.as_str());
        sql.append(");");
        sql
    }

    /// The statement that fetches the page.
    pub fn fetch_sql(&self) -> (sql: String)
        ensures
            sql@ == self@.fetch_sql(),
    {
        let mut sql = self.filtered_query();
        sql.append(" ");
        sql.append(self.sort_limit.as_str());
        sql
    }

    /// The parameters that are bound to both statements, by position.
    pub fn bound_params(&self) -> (params: Vec<String>)
        ensures
            texts(params@) == self@.bound_params(),
    {
        match &self.search_params {
            Some(p) => copy_strings(p),
            None => match &self.params {
                Some(p) => copy_strings(p),
                None => {
                    let v: Vec<String> = Vec::new();
                    assert(texts(v@) =~= Seq::<Seq<char>>::empty());
                    v
                },
            },
        }
    }

    /// Runs both statements on `conn` and fills `result`: the count of the
    /// matching records, the number of pages passed over, and behind the
    /// items that `result` holds already one item for each row of the page,
    /// as `map` reads it. What the database answers is not known here; the
    /// way from its two answers to the envelope is that of [`assemble`].
    /// The call fails with the failure of the database, with `NotFound`
    /// where the count has no row, or with the failure that `map` gave for
    /// the first row that it refused; `result` is then as it was.
    pub fn fetch<T, F>(
        &self,
        conn: &rusqlite::Connection,
        result: &mut StoreResult<T>,
        map: F,
    ) -> (r: Result<(), BookError>) where F: Fn(&Vec<SqlValue>) -> Result<T, BookError>
        requires
            forall|row: &Vec<SqlValue>| call_requires(map, (row,)),
        ensures
            r is Err ==> *final(result) == *old(result),
            r is Ok ==> final(result).skipped == self@.skipped,
            r is Ok ==> final(result).items@.len() >= old(result).items@.len(),
            r is Ok ==> final(result).items@.take(old(result).items@.len() as int) == old(
                result,
            ).items@,
            r is Ok ==> forall|i: int|
                old(result).items@.len() <= i < final(result).items@.len() ==> read_by(
                    map,
                    #[trigger] final(result).items@[i],
                ),
            r matches Err(e) ==> e is DBError || e is NotFound || refused_by::<T, F>(map, e),
    {
        let params = to_outside(&text_values(&self.bound_params()));
        let count_sql = self.count_sql();
        let counted = match query(conn, count_sql.as_str(), &params) {
            Ok(rows) => rows,
            Err(e) => {
                return Err(db_error(&e));
            },
        };
        let fetch_sql = self.fetch_sql();
        let rows = match query(conn, fetch_sql.as_str(), &params) {
            Ok(rows) => rows,
            Err(e) => {
                return Err(db_error(&e));
            },
        };
        let done = assemble(result, self.skipped, &counted, &rows, map);
        proof {
            let start = old(result).items@.len() as int;
            if done is Ok {
                assert forall|i: int| start <= i < result.items@.len() implies read_by(
                    map,
                    #[trigger] result.items@[i],
                ) by {
                    let page = result.items@.skip(start);
                    let row = &rows@[i - start];
                    assert(page[i - start] == result.items@[i]);
                    assert(call_ensures(map, (row,), Ok::<T, BookError>(result.items@[i])));
                }
            } else if count_of(counted@) is Some {
                let e = done->Err_0;
                let k = choose|k: int| refused_at::<T, F>(map, rows@, k, e);
                let row = &rows@[k];
                assert(call_ensures(map, (row,), Err::<T, BookError>(e)));
            }
        }
        done
    }
}

/// Whether `e` is the failure with which `map` refuses some row.
pub open spec fn refused_by<T, F: Fn(&Vec<SqlValue>) -> Result<T, BookError>>(
    map: F,
    e: BookError,
) -> bool {
    exists|row: &Vec<SqlValue>| call_ensures(map, (row,), Err::<T, BookError>(e))
}

/// Whether `item` is what `map` reads from some row.
pub open spec fn read_by<T, F: Fn(&Vec<SqlValue>) -> Result<T, BookError>>(map: F, item: T) -> bool {
    exists|row: &Vec<SqlValue>| call_ensures(map, (row,), Ok::<T, BookError>(item))
}

/// The failure that stands for a failure of the database.
pub(crate) fn db_error(e: &rusqlite::Error) -> (err: BookError)
    ensures
        err is DBError,
{
    BookError::DBError(sqlite_error_text(e))
}

/// The parameters of a search as values: each is a text.
pub fn text_values(params: &Vec<String>) -> (values: Vec<SqlValue>)
    ensures
        values@.len() == params@.len(),
        forall|i: int|
            0 <= i < params@.len() ==> as_text(#[trigger] values@[i]) == Some(params@[i]@),
{
    let mut values: Vec<SqlValue> = Vec::new();
    let mut i: usize = 0;
    while i < params.len()
        invariant
            i <= params.len(),
            values@.len() == i,
            forall|k: int| 0 <= k < i ==> as_text(#[trigger] values@[k]) == Some(params@[k]@),
        decreases params.len() - i,
    {
        values.push(SqlValue::Text(params[i].clone()));
        i = i + 1;
    }
    values
}

/// Whether every value can be bound to a statement: none is of the kind
/// `Other`.
pub open spec fn can_bind(values: Seq<SqlValue>) -> bool {
    forall|i: int| 0 <= i < values.len() ==> !(#[trigger] values[i] is Other)
}

/// The values as SQLite takes them, one for one and in their order.
pub(crate) fn to_outside(values: &Vec<SqlValue>) -> (out: Vec<rusqlite::types::Value>)
    requires
        can_bind(values@),
    ensures
        out@.len() == values@.len(),
{
    let mut out: Vec<rusqlite::types::Value> = Vec::new();
    let mut i: usize = 0;
    while i < values.len()
        invariant
            i <= values.len(),
            out@.len() == i,
            can_bind(values@),
        decreases values.len() - i,
    {
        let value = match &values[i] {
            SqlValue::Null => null_value(),
            SqlValue::Integer(n) => integer_value(*n),
            SqlValue::Text(t) => text_value(t.as_str()),
            SqlValue::Other => unreached(),
        };
        out.push(value);
        i = i + 1;
    }
    out
}

/// The count that the answer to a count statement holds, if it holds one:
/// the first value of the first row, where that is a number not below zero.
pub open spec fn count_of(rows: Seq<Vec<SqlValue>>) -> Option<u64> {
    if rows.len() > 0 && rows[0]@.len() > 0 {
        match rows[0]@[0] {
            SqlValue::Integer(n) => if n >= 0 {
                Some(n as u64)
            } else {
                None
            },
            _ => None,
        }
    } else {
        None
    }
}

/// Reads the count from the answer to a count statement. An answer without
/// a row is reported as `NotFound`, one whose first value is no count as a
/// failure of the database.
pub fn read_count(rows: &Vec<Vec<SqlValue>>) -> (r: Result<u64, BookError>)
    ensures
        match r {
            Ok(n) => count_of(rows@) == Some(n),
            Err(e) => count_of(rows@) is None && if rows@.len() == 0 {
                e is NotFound
            } else {
                e is DBError
            },
        },
{
    if rows.len() == 0 {
        return Err(BookError::NotFound);
    }
    let row = &rows[0];
    if row.len() == 0 {
        return Err(BookError::DBError(String::from_str("the count has no column")));
    }
    match &row[0] {
        SqlValue::Integer(n) => {
            if *n >= 0 {
                Ok(*n as u64)
            } else {
                Err(BookError::DBError(String::from_str("the count is below zero")))
            }
        },
        _ => Err(BookError::DBError(String::from_str("the count is not a number"))),
    }
}

/// Whether `map` reads `row`, and does not refuse it.
pub open spec fn accepted_by<T, F: Fn(&Vec<SqlValue>) -> Result<T, BookError>>(
    map: F,
    row: Vec<SqlValue>,
) -> bool {
    exists|item: T| call_ensures(map, (&row,), Ok::<T, BookError>(item))
}

/// Whether `page` is what `map` reads from `rows`: one item for each row,
/// in the order of the rows.
pub open spec fn page_of<T, F: Fn(&Vec<SqlValue>) -> Result<T, BookError>>(
    map: F,
    rows: Seq<Vec<SqlValue>>,
    page: Seq<T>,
) -> bool {
    &&& page.len() == rows.len()
    &&& forall|k: int|
        0 <= k < rows.len() ==> call_ensures(map, (&rows[k],), Ok::<T, BookError>(#[trigger] page[k]))
}

/// Whether the row at `k` is the first that `map` refuses, and `e` the
/// failure that it gives for it.
pub open spec fn refused_at<T, F: Fn(&Vec<SqlValue>) -> Result<T, BookError>>(
    map: F,
    rows: Seq<Vec<SqlValue>>,
    k: int,
    e: BookError,
) -> bool {
    &&& 0 <= k < rows.len()
    &&& call_ensures(map, (&rows[k],), Err::<T, BookError>(e))
    &&& forall|j: int| 0 <= j < k ==> accepted_by::<T, F>(map, #[trigger] rows[j])
}

/// Whether `e` is the failure that `map` gives for the first of `rows`
/// that it refuses.
pub open spec fn first_refusal<T, F: Fn(&Vec<SqlValue>) -> Result<T, BookError>>(
    map: F,
    rows: Seq<Vec<SqlValue>>,
    e: BookError,
) -> bool {
    exists|k: int| refused_at::<T, F>(map, rows, k, e)
}

/// Reads the page: one item for each row, as `map` reads it, in the order
/// of the rows. The first row that `map` refuses ends the work with the
/// failure that `map` gave.
pub fn read_page<T, F>(rows: &Vec<Vec<SqlValue>>, map: F) -> (r: Result<Vec<T>, BookError>) where
    F: Fn(&Vec<SqlValue>) -> Result<T, BookError>,

    requires
        forall|row: &Vec<SqlValue>| call_requires(map, (row,)),
    ensures
        match r {
            Ok(page) => page_of(map, rows@, page@),
            Err(e) => first_refusal::<T, F>(map, rows@, e),
        },
{
    let mut page: Vec<T> = Vec::new();
    let mut i: usize = 0;
    while i < rows.len()
        invariant
            i <= rows.len(),
            page@.len() == i,
            forall|row: &Vec<SqlValue>| call_requires(map, (row,)),
            forall|k: int|
                0 <= k < i ==> call_ensures(
                    map,
                    (&rows@[k],),
                    Ok::<T, BookError>(#[trigger] page@[k]),
                ),
        decreases rows.len() - i,
    {
        let ghost before = page@;
        match map(&rows[i]) {
            Ok(item) => {
                page.push(item);
                assert forall|k: int| 0 <= k < i + 1 implies call_ensures(
                    map,
                    (&rows@[k],),
                    Ok::<T, BookError>(#[trigger] page@[k]),
                ) by {
                    if k < i {
                        assert(page@[k] == before[k]);
                    }
                }
            },
            Err(e) => {
                proof {
                    assert forall|j: int| 0 <= j < i implies accepted_by::<T, F>(
                        map,
                        #[trigger] rows@[j],
                    ) by {
                        assert(call_ensures(map, (&rows@[j],), Ok::<T, BookError>(page@[j])));
                    }
                    assert(refused_at::<T, F>(map, rows@, i as int, e));
                }
                return Err(e);
            },
        }
        i = i + 1;
    }
    Ok(page)
}

/// Fills the envelope: `total` and `skipped` as given, and behind the items
/// that it holds already what `map` reads from each row, in the order of
/// the rows. Where `map` refuses a row the call fails with the failure that
/// `map` gave for the first such row, and the envelope is as it was.
pub fn fill<T, F>(
    result: &mut StoreResult<T>,
    total: u64,
    skipped: u64,
    rows: &Vec<Vec<SqlValue>>,
    map: F,
) -> (r: Result<(), BookError>) where F: Fn(&Vec<SqlValue>) -> Result<T, BookError>
    requires
        forall|row: &Vec<SqlValue>| call_requires(map, (row,)),
    ensures
        match r {
            Ok(()) => {
                &&& final(result).total == total
                &&& final(result).skipped == skipped
                &&& final(result).items@.len() == old(result).items@.len() + rows@.len()
                &&& final(result).items@.take(old(result).items@.len() as int) == old(
                    result,
                ).items@
                &&& page_of(map, rows@, final(result).items@.skip(old(result).items@.len() as int))
            },
            Err(e) => *final(result) == *old(result) && first_refusal::<T, F>(map, rows@, e),
        },
{
    let mut page = read_page(rows, map)?;
    let ghost read = page@;
    result.total = total;
    result.skipped = skipped;
    result.items.append(&mut page);
    proof {
        let start = old(result).items@.len() as int;
        assert(result.items@.take(start) =~= old(result).items@);
        assert(result.items@.skip(start) =~= read);
    }
    Ok(())
}

/// Makes the envelope from the two answers of the database: `counted` is
/// the answer to the count statement, `rows` the page. On success the
/// envelope holds the count, `skipped`, and behind the items that it held
/// already what `map` reads from each row. An answer that holds no count
/// fails as [`read_count`] says, a row that `map` refuses with the failure
/// that `map` gave for the first such row; the envelope is then as it was.
pub fn assemble<T, F>(
    result: &mut StoreResult<T>,
    skipped: u64,
    counted: &Vec<Vec<SqlValue>>,
    rows: &Vec<Vec<SqlValue>>,
    map: F,
) -> (r: Result<(), BookError>) where F: Fn(&Vec<SqlValue>) -> Result<T, BookError>
    requires
        forall|row: &Vec<SqlValue>| call_requires(map, (row,)),
    ensures
        match r {
            Ok(()) => {
                &&& count_of(counted@) == Some(final(result).total)
                &&& final(result).skipped == skipped
                &&& final(result).items@.len() == old(result).items@.len() + rows@.len()
                &&& final(result).items@.take(old(result).items@.len() as int) == old(
                    result,
                ).items@
                &&& page_of(map, rows@, final(result).items@.skip(old(result).items@.len() as int))
            },
            Err(e) => {
                &&& *final(result) == *old(result)
                &&& if count_of(counted@) is Some {
                    first_refusal::<T, F>(map, rows@, e)
                } else if counted@.len() == 0 {
                    e is NotFound
                } else {
                    e is DBError
                }
            },
        },
{
    let total = read_count(counted)?;
    fill(result, total, skipped, rows, map)
}

/// The number of rows on the page that a backend gives for a page size and
/// a number of pages to pass over, when `total` records match: all of them
/// without a page size; else what is left behind the rows passed over, but
/// no more than a page.
pub open spec fn page_len(total: nat, take: Option<u64>, skip_page: Option<u64>) -> nat {
    match take {
        None => total,
        Some(t) => {
            let offset = t * skipped_pages(take, skip_page);
            if offset >= total {
                0
            } else if total - offset < t {
                (total - offset) as nat
            } else {
                t as nat
            }
        },
    }
}

/// The count does not depend on the page: two requests with the same filter
/// text, whatever their page size, their pages to pass over and their sort
/// keys, count with the same statement and the same parameters.
pub proof fn count_ignores_paging(
    query: Seq<char>,
    a: SearchModel,
    b: SearchModel,
    columns: Seq<Seq<char>>,
    clause: Seq<char>,
    params: Seq<Seq<char>>,
)
    requires
        a.text == b.text,
    ensures
        QueryModel::initial(query, a, columns).with_clause(clause, params).count_sql()
            == QueryModel::initial(query, b, columns).with_clause(clause, params).count_sql(),
        QueryModel::initial(query, a, columns).with_clause(clause, params).bound_params()
            == QueryModel::initial(query, b, columns).with_clause(clause, params).bound_params(),
        QueryModel::initial(query, a, columns).count_sql() == QueryModel::initial(
            query,
            b,
            columns,
        ).count_sql(),
{
}

/// A request without a filter text counts every record: its count statement
/// wraps the statement that selects all records, with no `WHERE` clause and
/// no parameter.
pub proof fn empty_text_counts_everything(query: Seq<char>, m: SearchModel, columns: Seq<Seq<char>>)
    requires
        m.text.len() == 0,
    ensures
        QueryModel::initial(query, m, columns).filter is None,
        QueryModel::initial(query, m, columns).count_sql() == "SELECT COUNT(*) FROM ("@ + query
            + ");"@,
        QueryModel::initial(query, m, columns).bound_params() == Seq::<Seq<char>>::empty(),
{
}

/// The pages passed over and the rows of the page together do not exceed
/// the count, as long as the page holds a row or no more pages were passed
/// over than records match.
pub proof fn offset_bound(total: nat, take: Option<u64>, skip_page: Option<u64>)
    requires
        page_len(total, take, skip_page) > 0 || skipped_pages(take, skip_page) <= total,
    ensures
        skipped_pages(take, skip_page) + page_len(total, take, skip_page) <= total,
{
    match take {
        None => {},
        Some(t) => {
            let s = skipped_pages(take, skip_page);
            let n = page_len(total, take, skip_page);
            if n > 0 {
                assert(t >= 1);
                assert(s <= t * s) by (nonlinear_arith)
                    requires
                        t >= 1,
                        s >= 0,
                ;
            }
        },
    }
}

/// Only known columns are spliced into a statement: every sort key that a
/// builder uses names one of `columns`, and where the keys of the request
/// are identifiers, so are the keys that are used.
pub proof fn only_known_columns_are_used(m: SearchModel, columns: Seq<Seq<char>>, i: int)
    requires
        0 <= i < usable_keys(m, columns).len(),
    ensures
        columns.contains(usable_keys(m, columns)[i].column),
        crate::models::columns_well_formed(m) ==> is_identifier(usable_keys(m, columns)[i].column),
{
    let keys = m.sort->0;
    let pred = |k: SortKey| columns.contains(k.column);
    keys.lemma_filter_pred(pred, i);
    let used = keys.filter(pred);
    assert(used.contains(used[i]));
    keys.lemma_filter_contains_rev(pred, used[i]);
    if crate::models::columns_well_formed(m) {
        let j = choose|j: int| 0 <= j < keys.len() && keys[j] == used[i];
        assert(is_identifier(keys[j].column));
    }
}

} // verus!
