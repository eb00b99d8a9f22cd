use vstd::prelude::*;

use crate::outcomes::{Link, LookupOutcome, StoreError};

verus! {

/// Owns the persistent slug -> URL relation, reached through a shared pool of
/// reusable storage connections. Each operation checks a connection out, uses
/// it, and returns it; no operation holds one across calls.
///
/// The pool is held opaquely: Verus sees the store only through
/// `db_relation`, the relation its connections reach.
#[verifier::external_body]
pub struct LinkStore {
    pool: r2d2::Pool<r2d2_sqlite::SqliteConnectionManager>,
}

/// The slug -> URL relation held in the database that the store's pooled
/// connections reach: one entry per row of the links table.
pub uninterp spec fn db_relation(store: &LinkStore) -> Map<Seq<char>, Seq<char>>;

impl View for LinkStore {
    type V = Map<Seq<char>, Seq<char>>;

    closed spec fn view(&self) -> Map<Seq<char>, Seq<char>> {
        db_relation(self)
    }
}

impl LinkStore {
    /// Opens the store over the database file at `path`, failing when the
    /// pool cannot be built (unrecoverable startup exhaustion).
    ///
    /// Relies on r2d2_sqlite's `SqliteConnectionManager::file` and r2d2's
    /// `Pool::builder`: every connection of the pool opens the same database
    /// file, so all of them reach one relation.
    #[verifier::external_body]
    pub fn open(path: &str) -> (r: Option<LinkStore>)
    {
        let manager = r2d2_sqlite::SqliteConnectionManager::file(path);
        match r2d2::Pool::builder().build(manager) {
            Ok(pool) => Some(LinkStore { pool }),
            Err(_) => None,
        }
    }

    /// Opens the store over a fresh private in-memory database.
    ///
    /// Relies on r2d2_sqlite's `SqliteConnectionManager::memory`: it names a
    /// new shared-cache in-memory database, empty on creation, that all
    /// connections of this pool (and no other) reach.
    #[verifier::external_body]
    pub fn open_in_memory() -> (r: Option<LinkStore>)
        ensures
            match r {
                Some(s) => s@ == Map::<Seq<char>, Seq<char>>::empty(),
                None => true,
            },
    {
        let manager = r2d2_sqlite::SqliteConnectionManager::memory();
        match r2d2::Pool::builder().build(manager) {
            Ok(pool) => Some(LinkStore { pool }),
            Err(_) => None,
        }
    }

    /// Reads at most one row matching `slug`.
    ///
    /// Relies on r2d2's `Pool::get` to check a connection out and on
    /// rusqlite's `Connection::query_row`: the query selects the row whose
    /// unique slug column equals `slug`, yields `QueryReturnedNoRows` when no
    /// such row exists, and the closure only picks the row's two columns.
    #[verifier::external_body]
    pub fn lookup(&self, slug: &str) -> (r: LookupOutcome)
        ensures
            r matches LookupOutcome::Found(link) ==> self@.contains_key(slug@)
                && link.slug@ == slug@
                && link.url@ == self@[slug@],
            r is NotFound ==> !self@.contains_key(slug@),
            r matches LookupOutcome::Error(e) ==> e is StorageUnavailable,
    {
        let conn = match self.pool.get() {
            Ok(c) => c,
            Err(_) => return LookupOutcome::Error(StoreError::StorageUnavailable),
        };
        let row: Result<(String, String), rusqlite::Error> = conn.query_row(
            "SELECT slug, url FROM urls WHERE slug = ?1 LIMIT 1;",
            [slug],
            |row| Ok((row.get(0)?, row.get(1)?)),
        );
        match row {
            Ok((s, u)) => LookupOutcome::Found(Link { slug: s, url: u }),
            Err(rusqlite::Error::QueryReturnedNoRows) => LookupOutcome::NotFound,
            Err(_) => LookupOutcome::Error(StoreError::StorageUnavailable),
        }
    }

    /// Attempts to create exactly one new row.
    ///
    /// Relies on r2d2's `Pool::get` and on rusqlite's `Connection::execute`
    /// running `INSERT`: the slug column's unique constraint makes the insert
    /// atomic, so it succeeds exactly when no row with that slug exists, and
    /// a constraint violation (surfaced as `SqliteFailure` with code
    /// `ConstraintViolation`, which with these non-null arguments only the
    /// unique slug column can raise) reports the duplicate. A failed
    /// statement changes no row.
    #[verifier::external_body]
    pub fn insert(&mut self, slug: &str, url: &str) -> (r: Result<(), StoreError>)
        ensures
            match r {
                Ok(_) => !old(self)@.contains_key(slug@)
                    && final(self)@ == old(self)@.insert(slug@, url@),
                Err(StoreError::DuplicateSlug) => old(self)@.contains_key(slug@)
                    && final(self)@ == old(self)@,
                Err(StoreError::StorageUnavailable) => final(self)@ == old(self)@,
            },
    {
        let conn = match self.pool.get() {
            Ok(c) => c,
            Err(_) => return Err(StoreError::StorageUnavailable),
        };
        match conn.execute("INSERT INTO urls (slug, url) VALUES (?1, ?2)", (slug, url)) {
            Ok(_) => Ok(()),
            Err(rusqlite::Error::SqliteFailure(e, _)) => match e.code {
                rusqlite::ErrorCode::ConstraintViolation => Err(StoreError::DuplicateSlug),
                _ => Err(StoreError::StorageUnavailable),
            },
            Err(_) => Err(StoreError::StorageUnavailable),
        }
    }
}

/// Relies on rusqlite's `Connection::execute` running
/// `CREATE TABLE IF NOT EXISTS`: the statement creates the links table when
/// it is missing and is a no-op when it exists, so it never drops or alters a
/// stored row. A connection-checkout or statement failure leaves the rows
/// untouched as well.
#[verifier::external_body]
fn create_links_table(store: &mut LinkStore)
    ensures
        db_relation(final(store)) == db_relation(old(store)),
{
    if let Ok(conn) = store.pool.get() {
        let _ = conn.execute(
            "create table if not exists urls (
                 id integer primary key,
                 slug text not null unique,
                 url text not null
             )",
            (),
        );
    }
}

/// Idempotently ensures the links relation exists, with a unique, non-null
/// slug column and a non-null URL column. Safe to call on every process
/// start, and repeatedly: it leaves every existing row untouched.
pub fn scaffold_database(store: &mut LinkStore)
    ensures
        final(store)@ == old(store)@,
{
    create_links_table(store);
}

} // verus!
