//! The catalogues that are open: pools of stores by name, one of which is
//! the current one.

use crate::models::{
    Book, BookDB, BookError, ConfigInitialized, SearchConfig, StoreResult,
};
use crate::order::copy_strings;
use crate::pool::{Creator, PoolItem, PoolManager};
use crate::store::SqliteStore;
use crate::text::{str_eq, texts};
use vstd::prelude::*;

verus! {

/// What can go wrong with the open catalogues.
#[derive(Debug)]
pub enum ManagerError {
    /// A pool of that name is open already.
    PoolAlreadyAdded,
    /// No pool of that name is open.
    PoolNotFound,
    /// No pool is the current one.
    CurrentPoolNotSet,
    /// A store failed; a pool whose store cannot be opened is not made.
    BookError(BookError),
    /// The path of a catalogue is no text.
    ConversionFailed,
}

/// A store that could not be opened. It takes nothing and gives nothing:
/// every call fails with the failure that kept the store from opening.
pub struct ClosedStore {
    cause: String,
}

impl ClosedStore {
    /// The failure that kept the store from opening.
    pub closed spec fn cause(&self) -> Seq<char> {
        self.cause@
    }

    /// Whether a failure is the one that this store reports.
    pub open spec fn reports(&self, e: BookError) -> bool {
        e matches BookError::DBError(msg) && msg@ == self.cause()
    }

    /// A closed store that reports `cause`.
    pub fn new(cause: String) -> (store: Self)
        ensures
            store.cause() == cause@,
    {
        ClosedStore { cause }
    }

    fn failure(&self) -> (e: BookError)
        ensures
            self.reports(e),
    {
        BookError::DBError(self.cause.clone())
    }
}

impl BookDB for ClosedStore {
    fn add_book(&mut self, book: &mut Book) -> (r: Result<(), BookError>)
        ensures
            final(self).cause() == old(self).cause(),
            old(book)@.authors.len() > 0 ==> (r matches Err(e) && old(self).reports(e)),
    {
        if book.authors.len() == 0 {
            Err(BookError::EmptyAuthors)
        } else {
            Err(self.failure())
        }
    }

    fn get_book(&mut self, id: i64) -> (r: Result<Book, BookError>)
        ensures
            final(self).cause() == old(self).cause(),
            r matches Err(e) && old(self).reports(e),
    {
        Err(self.failure())
    }

    fn update_book(&mut self, book: &mut Book) -> (r: Result<(), BookError>)
        ensures
            final(self).cause() == old(self).cause(),
            old(book)@.authors.len() > 0 ==> (r matches Err(e) && old(self).reports(e)),
    {
        if book.authors.len() == 0 {
            Err(BookError::EmptyAuthors)
        } else {
            Err(self.failure())
        }
    }

    fn delete_book(&mut self, book: &Book) -> (r: Result<(), BookError>)
        ensures
            final(self).cause() == old(self).cause(),
            r matches Err(e) && old(self).reports(e),
    {
        Err(self.failure())
    }

    fn delete_book_by_id(&mut self, id: i64) -> (r: Result<(), BookError>)
        ensures
            final(self).cause() == old(self).cause(),
            r matches Err(e) && old(self).reports(e),
    {
        Err(self.failure())
    }

    fn fetch_books(&mut self, search: SearchConfig<ConfigInitialized>) -> (r: Result<
        StoreResult<Book>,
        BookError,
    >)
        ensures
            final(self).cause() == old(self).cause(),
            r matches Err(e) && old(self).reports(e),
    {
        Err(self.failure())
    }

    fn get_tags(&mut self, search: SearchConfig<ConfigInitialized>) -> (r: Result<
        StoreResult<String>,
        BookError,
    >)
        ensures
            final(self).cause() == old(self).cause(),
            r matches Err(e) && old(self).reports(e),
    {
        Err(self.failure())
    }

    fn get_authors(&mut self, search: SearchConfig<ConfigInitialized>) -> (r: Result<
        StoreResult<String>,
        BookError,
    >)
        ensures
            final(self).cause() == old(self).cause(),
            r matches Err(e) && old(self).reports(e),
    {
        Err(self.failure())
    }
}

/// Opens stores on one database file.
pub struct SqliteCreator {
    path: String,
}

impl Creator<dyn BookDB> for SqliteCreator {
    type Error = BookError;

    /// A store on the file, or the reason why the file could not be
    /// opened.
    fn create_item(&self) -> Result<Box<dyn BookDB>, BookError> {
        match SqliteStore::new(self.path.as_str()) {
            Ok(store) => Ok(Box::new(store)),
            Err(e) => Err(e),
        }
    }

    /// A closed store that tells why the file could not be opened.
    fn stand_in(&self, cause: BookError) -> Box<dyn BookDB> {
        Box::new(ClosedStore::new(cause.message()))
    }
}

/// A pool of stores on one database file.
pub type BookPool = PoolManager<dyn BookDB, SqliteCreator>;

/// The number of stores that rest in a pool.
pub const POOL_SIZE: usize = 5;

/// Makes a pool of stores on the database file at `path`. The file is
/// opened once first; if that fails, or if one of the stores of the pool
/// cannot be opened, no pool is made and the failure is handed on.
pub fn new_sqlite_pool(path: &str) -> (r: Result<BookPool, ManagerError>)
    ensures
        r matches Ok(pool) ==> pool.min_size() == POOL_SIZE as nat,
        r matches Err(e) ==> e is BookError,
{
    match SqliteStore::new(path) {
        Ok(_) => {},
        Err(e) => {
            return Err(ManagerError::BookError(e));
        },
    }
    match PoolManager::new(POOL_SIZE, SqliteCreator { path: String::from_str(path) }) {
        Ok(pool) => Ok(pool),
        Err(e) => Err(ManagerError::BookError(e)),
    }
}

/// The open catalogues as a plain value: their names in the order in which
/// they were opened, and the name of the current one.
pub struct ManagerModel {
    pub names: Seq<Seq<char>>,
    pub current: Option<Seq<char>>,
}

/// The open catalogues. No two have the same name, and the current one, if
/// there is one, is among them.
pub struct BookManager {
    names: Vec<String>,
    pools: Vec<BookPool>,
    current: Option<String>,
}

impl View for BookManager {
    type V = ManagerModel;

    closed spec fn view(&self) -> ManagerModel {
        ManagerModel {
            names: texts(self.names@),
            current: match self.current {
                Some(c) => Some(c@),
                None => None,
            },
        }
    }
}

/// In a list without repeats an item is found at its own place.
pub proof fn found_at_its_place(names: Seq<Seq<char>>, i: int)
    requires
        names.no_duplicates(),
        0 <= i < names.len(),
    ensures
        names.index_of(names[i]) == i,
{
    let j = names.index_of(names[i]);
    assert(0 <= j < names.len() && names[j] == names[i]);
}

impl BookManager {
    /// What holds of every manager: each name has its pool, no name stands
    /// twice, and the current catalogue is one of the open ones.
    #[verifier::type_invariant]
    spec fn wf(self) -> bool {
        &&& self.names@.len() == self.pools@.len()
        &&& texts(self.names@).no_duplicates()
        &&& (self.current matches Some(c) ==> texts(self.names@).contains(c@))
    }


    /// The pool of a name that is open.
    pub closed spec fn pool_of(&self, name: Seq<char>) -> BookPool {
        self.pools@[texts(self.names@).index_of(name)]
    }

    /// Whether every catalogue that is open here and in `other` has here
    /// the pool that it has in `other`.
    pub open spec fn same_pools_as(&self, other: &BookManager) -> bool {
        forall|n: Seq<char>|
            self@.names.contains(n) && other@.names.contains(n) ==> #[trigger] self.pool_of(n)
                == other.pool_of(n)
    }

    /// A manager without a catalogue.
    pub fn new() -> (m: Self)
        ensures
            m@ == (ManagerModel { names: Seq::empty(), current: None }),
    {
        let names: Vec<String> = Vec::new();
        assert(texts(names@) =~= Seq::<Seq<char>>::empty());
        BookManager { names, pools: Vec::new(), current: None }
    }

    fn position(&self, name: &str) -> (at: Option<usize>)
        ensures
            match at {
                Some(i) => i < self.names@.len() && texts(self.names@)[i as int] == name@
                    && texts(self.names@).index_of(name@) == i,
                None => !texts(self.names@).contains(name@),
            },
            self.names@.len() == self.pools@.len(),
    {
        proof {
            use_type_invariant(self);
        }
        let mut i: usize = 0;
        while i < self.names.len()
            invariant
                i <= self.names.len(),
                self.names@.len() == self.pools@.len(),
                texts(self.names@).no_duplicates(),
                forall|k: int| 0 <= k < i ==> texts(self.names@)[k] != name@,
            decreases self.names.len() - i,
        {
            if str_eq(self.names[i].as_str(), name) {
                proof {
                    let t = texts(self.names@);
                    assert(t[i as int] == name@);
                    let j = t.index_of(name@);
                    assert(0 <= j < t.len() && t[j] == name@);
                }
                return Some(i);
            }
            i = i + 1;
        }
        None
    }

    /// Opens a catalogue under a name that is not in use. The catalogues
    /// that were open keep their pools, also where the call fails.
    pub fn add_pool(&mut self, pool_name: &str, pool: BookPool) -> (r: Result<(), ManagerError>)
        ensures
            final(self).same_pools_as(old(self)),
            old(self)@.names.contains(pool_name@) ==> (r matches Err(ManagerError::PoolAlreadyAdded))
                && final(self)@ == old(self)@,
            !old(self)@.names.contains(pool_name@) ==> r is Ok && final(self)@ == (ManagerModel {
                names: old(self)@.names.push(pool_name@),
                ..old(self)@
            }) && final(self).pool_of(pool_name@) == pool,
    {
        match self.position(pool_name) {
            Some(_) => Err(ManagerError::PoolAlreadyAdded),
            None => {
                proof {
                    use_type_invariant(&*self);
                }
                let mut taken = BookManager::new();
                core::mem::swap(self, &mut taken);
                let BookManager { names, pools, current } = taken;
                let mut names = names;
                let mut pools = pools;
                let ghost before = texts(names@);
                names.push(String::from_str(pool_name));
                pools.push(pool);
                proof {
                    let after = texts(names@);
                    assert(after =~= before.push(pool_name@));
                    assert forall|i: int, j: int|
                        0 <= i < after.len() && 0 <= j < after.len() && i != j implies after[i]
                        != after[j] by {
                        if i < before.len() && j < before.len() {
                            assert(before[i] != before[j]);
                        } else if i < before.len() {
                            assert(before.contains(before[i]));
                        } else {
                            assert(before.contains(before[j]));
                        }
                    }
                    if current is Some {
                        let c = current->0@;
                        let k = choose|k: int| 0 <= k < before.len() && before[k] == c;
                        assert(after[k] == c);
                    }
                }
                *self = BookManager { names, pools, current };
                proof {
                    let after = texts(self.names@);
                    let at = after.index_of(pool_name@);
                    assert(after[before.len() as int] == pool_name@);
                    assert(0 <= at < after.len() && after[at] == pool_name@);
                    assert(at == before.len());
                    assert forall|n: Seq<char>|
                        after.contains(n) && before.contains(n) implies #[trigger] self.pool_of(n)
                        == old(self).pool_of(n) by {
                        let i = before.index_of(n);
                        assert(0 <= i < before.len() && before[i] == n);
                        assert(after[i] == n);
                        found_at_its_place(after, i);
                    }
                }
                Ok(())
            },
        }
    }

    /// Closes the catalogue of that name and hands its pool out. If it was
    /// the current one, no catalogue is current afterwards. The catalogues
    /// that stay open keep their pools.
    pub fn remove_pool(&mut self, pool_name: &str) -> (r: Option<BookPool>)
        ensures
            final(self).same_pools_as(old(self)),
            !old(self)@.names.contains(pool_name@) ==> r is None && final(self)@ == old(self)@,
            old(self)@.names.contains(pool_name@) ==> r == Some(old(self).pool_of(pool_name@))
                && final(self)@.names == old(self)@.names.remove(
                old(self)@.names.index_of(pool_name@),
            ) && !final(self)@.names.contains(pool_name@) && final(self)@.current == (if old(
                self,
            )@.current == Some(pool_name@) {
                None
            } else {
                old(self)@.current
            }),
    {
        match self.position(pool_name) {
            None => None,
            Some(i) => {
                proof {
                    use_type_invariant(&*self);
                }
                let mut taken = BookManager::new();
                core::mem::swap(self, &mut taken);
                let BookManager { names, pools, current } = taken;
                let mut names = names;
                let mut pools = pools;
                let ghost before = texts(names@);
                let is_current = match &current {
                    Some(c) => str_eq(c.as_str(), pool_name),
                    None => false,
                };
                names.remove(i);
                let pool = pools.remove(i);
                let current = if is_current {
                    None
                } else {
                    current
                };
                proof {
                    let after = texts(names@);
                    assert(after =~= before.remove(i as int));
                    assert forall|a: int, b: int|
                        0 <= a < after.len() && 0 <= b < after.len() && a != b implies after[a]
                        != after[b] by {
                        let a0 = if a < i { a } else { a + 1 };
                        let b0 = if b < i { b } else { b + 1 };
                        assert(after[a] == before[a0] && after[b] == before[b0]);
                    }
                    assert(!after.contains(pool_name@)) by {
                        if after.contains(pool_name@) {
                            let a = choose|a: int| 0 <= a < after.len() && after[a] == pool_name@;
                            let a0 = if a < i { a } else { a + 1 };
                            assert(before[a0] == pool_name@ && before[i as int] == pool_name@);
                        }
                    }
                    if current is Some {
                        let c = current->0@;
                        let k = choose|k: int| 0 <= k < before.len() && before[k] == c;
                        assert(k != i);
                        let k1 = if k < i { k } else { k - 1 };
                        assert(after[k1] == c);
                    }
                }
                *self = BookManager { names, pools, current };
                proof {
                    let after = texts(self.names@);
                    assert forall|n: Seq<char>|
                        after.contains(n) && before.contains(n) implies #[trigger] self.pool_of(n)
                        == old(self).pool_of(n) by {
                        let a = after.index_of(n);
                        assert(0 <= a < after.len() && after[a] == n);
                        let a0 = if a < i { a } else { a + 1 };
                        assert(before[a0] == n);
                        found_at_its_place(before, a0);
                        assert(self.pools@[a] == old(self).pools@[a0]);
                    }
                }
                Some(pool)
            },
        }
    }

    /// Tells whether a catalogue is the current one.
    pub fn is_current_pool_set(&self) -> (set: bool)
        ensures
            set == self@.current is Some,
    {
        self.current.is_some()
    }

    /// Makes the catalogue of that name the current one. The open
    /// catalogues and their pools stay as they are.
    pub fn set_current_pool(&mut self, pool_name: &str) -> (r: Result<(), ManagerError>)
        ensures
            final(self).same_pools_as(old(self)),
            old(self)@.names.contains(pool_name@) ==> r is Ok && final(self)@ == (ManagerModel {
                current: Some(pool_name@),
                ..old(self)@
            }),
            !old(self)@.names.contains(pool_name@) ==> (r matches Err(ManagerError::PoolNotFound))
                && final(self)@ == old(self)@,
    {
        match self.position(pool_name) {
            Some(at) => {
                proof {
                    use_type_invariant(&*self);
                    assert(texts(self.names@)[at as int] == pool_name@);
                }
                self.current = Some(String::from_str(pool_name));
                Ok(())
            },
            None => Err(ManagerError::PoolNotFound),
        }
    }

    /// The names of the open catalogues, in the order in which they were
    /// opened. No name stands twice.
    pub fn get_pools(&self) -> (names: Vec<String>)
        ensures
            texts(names@) == self@.names,
            self@.names.no_duplicates(),
    {
        proof {
            use_type_invariant(self);
        }
        copy_strings(&self.names)
    }

    /// The name of the current catalogue, which is one of the open ones.
    pub fn current_pool_name(&self) -> (r: Result<String, ManagerError>)
        ensures
            match r {
                Ok(name) => self@.current == Some(name@) && self@.names.contains(name@),
                Err(e) => self@.current is None && e is CurrentPoolNotSet,
            },
    {
        proof {
            use_type_invariant(self);
        }
        match &self.current {
            Some(c) => Ok(c.clone()),
            None => Err(ManagerError::CurrentPoolNotSet),
        }
    }

    /// Closes the current catalogue and makes the first of the others the
    /// current one. Gives the name of the new current catalogue and the
    /// names of the open ones. When the closed catalogue was the only one,
    /// none is current afterwards and the call fails with `PoolNotFound`.
    pub fn close_current_pool(&mut self) -> (r: Result<(String, Vec<String>), ManagerError>)
        ensures
            final(self).same_pools_as(old(self)),
            old(self)@.current is None ==> (r matches Err(ManagerError::CurrentPoolNotSet))
                && final(self)@ == old(self)@,
            old(self)@.current matches Some(closed) ==> {
                let rest = old(self)@.names.remove(old(self)@.names.index_of(closed));
                &&& final(self)@.names == rest
                &&& rest.len() == 0 ==> (r matches Err(ManagerError::PoolNotFound))
                    && final(self)@.current is None
                &&& rest.len() > 0 ==> final(self)@.current == Some(rest[0]) && (r matches Ok(
                    out,
                ) && out.0@ == rest[0] && texts(out.1@) == rest)
            },
    {
        let closed = match self.current_pool_name() {
            Ok(name) => name,
            Err(e) => {
                return Err(e);
            },
        };
        let _ = self.remove_pool(closed.as_str());
        let open = self.get_pools();
        let next = if open.len() > 0 {
            assert(texts(open@)[0] == open@[0]@);
            open[0].clone()
        } else {
            String::new()
        };
        proof {
            if open@.len() > 0 {
                assert(self@.names.contains(next@));
            } else {
                assert(!self@.names.contains(next@));
            }
        }
        match self.set_current_pool(next.as_str()) {
            Ok(()) => Ok((next, open)),
            Err(e) => Err(e),
        }
    }

    /// Leases a store of the current catalogue.
    pub fn get_current_pool(&self) -> (r: Result<PoolItem<dyn BookDB>, ManagerError>)
        ensures
            match r {
                Ok(lease) => self@.current matches Some(name) && lease.home() == self.pool_of(
                    name,
                ).shared(),
                Err(e) => self@.current is None && e is CurrentPoolNotSet,
            },
    {
        proof {
            use_type_invariant(self);
        }
        match &self.current {
            Some(s) => match self.position(s.as_str()) {
                Some(i) => Ok(self.pools[i].get_pool_item()),
                None => Err(ManagerError::PoolNotFound),
            },
            None => Err(ManagerError::CurrentPoolNotSet),
        }
    }
}

} // verus!
