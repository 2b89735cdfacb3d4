//! The key-value engine: tables of byte keys and byte values kept by sled.
//!
//! A `SledStore` holds the sled database, and through it every handle of its
//! trees, out of Verus's sight. The tables it holds, and the tables it has
//! made durable on disk, are each named once for the whole store, and every
//! operation on the store speaks of that one state before and after it.

use vstd::prelude::*;
use vstd::string::StringSliceAdditionalSpecFns;
use vstd::utf8::encode_utf8;
use crate::error::Error;

verus! {

/// A sled database with the trees opened through it.
#[verifier::external_body]
pub struct SledStore {
    db: sled::Db,
}

/// The tables that a store holds, by name, each with its entries (key with
/// value). A name with no table counts as an empty table.
pub uninterp spec fn store_tables(store: SledStore) -> Map<Seq<u8>, Map<Seq<u8>, Seq<u8>>>;

/// The tables, by name, as a crash would leave them: what the store has
/// written durably to disk.
pub uninterp spec fn store_durable(store: SledStore) -> Map<Seq<u8>, Map<Seq<u8>, Seq<u8>>>;

/// The directory that a store was opened in.
pub uninterp spec fn store_dir(store: SledStore) -> Seq<char>;

/// The entries of the table `name` in `tables`: none where there is no such
/// table.
pub open spec fn table_of(
    tables: Map<Seq<u8>, Map<Seq<u8>, Seq<u8>>>,
    name: Seq<u8>,
) -> Map<Seq<u8>, Seq<u8>> {
    if tables.contains_key(name) {
        tables[name]
    } else {
        Map::empty()
    }
}

/// The key under which a table of the given name is kept: the UTF-8 bytes of
/// the name.
pub open spec fn table_key(name: Seq<char>) -> Seq<u8> {
    encode_utf8(name)
}

/// The value that `entries` holds under `key`, if any.
pub open spec fn lookup(entries: Map<Seq<u8>, Seq<u8>>, key: Seq<u8>) -> Option<Seq<u8>> {
    if entries.contains_key(key) {
        Some(entries[key])
    } else {
        None
    }
}

/// The bytes of an optional value.
pub open spec fn bytes_of(found: Option<Vec<u8>>) -> Option<Seq<u8>> {
    match found {
        Some(bytes) => Some(bytes@),
        None => None,
    }
}

/// The name of the tree in which sled keeps its own structures.
pub open spec fn core_tree_name() -> Seq<char> {
    "__sled__default"@
}

/// Every table is in `b` as in `a`.
pub open spec fn all_tables_agree(
    a: Map<Seq<u8>, Map<Seq<u8>, Seq<u8>>>,
    b: Map<Seq<u8>, Map<Seq<u8>, Seq<u8>>>,
) -> bool {
    forall|n: Seq<u8>| #[trigger] table_of(b, n) == table_of(a, n)
}

/// `b` is `a` with the table `name` replaced by `entries`.
pub open spec fn tables_with(
    a: Map<Seq<u8>, Map<Seq<u8>, Seq<u8>>>,
    b: Map<Seq<u8>, Map<Seq<u8>, Seq<u8>>>,
    name: Seq<u8>,
    entries: Map<Seq<u8>, Seq<u8>>,
) -> bool {
    &&& table_of(b, name) == entries
    &&& forall|n: Seq<u8>| n != name ==> #[trigger] table_of(b, n) == table_of(a, n)
}

/// Calls `sled::open` on the directory `dir`. Claims that the store it gives
/// is the one in `dir`; whether it opens, and what it holds, depend on the
/// file system.
#[verifier::external_body]
fn store_open(dir: &str) -> (r: Result<SledStore, sled::Error>)
    ensures
        r matches Ok(store) ==> store_dir(store) == dir@,
{
    match sled::open(dir) {
        Ok(db) => Ok(SledStore { db }),
        Err(e) => Err(e),
    }
}

/// Calls `sled::Db::open_tree`, which opens the tree named `name`, creating
/// an empty one where there is none. Claims that every table reads as
/// before and that the store stays in its directory. Nothing is claimed of
/// what is durable: sled writes to disk in the background too.
#[verifier::external_body]
fn store_open_table(store: &mut SledStore, name: &str) -> (r: Result<(), sled::Error>)
    ensures
        all_tables_agree(store_tables(*old(store)), store_tables(*final(store))),
        store_dir(*final(store)) == store_dir(*old(store)),
{
    match store.db.open_tree(name) {
        Ok(_) => Ok(()),
        Err(e) => Err(e),
    }
}

/// Calls `sled::Db::open_tree` for the table `name` and `sled::Tree::get` on
/// it. Claims that on success it gives the value the table holds under
/// `key`, or `None` where it holds none; and, as for opening, that every
/// table reads as before. Nothing is claimed of what is durable.
#[verifier::external_body]
fn store_get(store: &mut SledStore, name: &str, key: &[u8]) -> (r: Result<
    Option<Vec<u8>>,
    sled::Error,
>)
    ensures
        r matches Ok(found) ==> bytes_of(found) == lookup(
            table_of(store_tables(*old(store)), name.spec_bytes()),
            key@,
        ),
        all_tables_agree(store_tables(*old(store)), store_tables(*final(store))),
        store_dir(*final(store)) == store_dir(*old(store)),
{
    match store.db.open_tree(name) {
        Ok(tree) => match tree.get(key) {
            Ok(Some(bytes)) => Ok(Some(bytes.to_vec())),
            Ok(None) => Ok(None),
            Err(e) => Err(e),
        },
        Err(e) => Err(e),
    }
}

/// Calls `sled::Db::open_tree` for the table `name` and `sled::Tree::insert`
/// on it. Claims that on success the table then holds `value` under `key`,
/// every other entry and every other table unchanged, and that the result is
/// the value it held under `key` before. Nothing is claimed of the tables
/// after a failure, nor of what is durable after a write.
#[verifier::external_body]
fn store_insert(store: &mut SledStore, name: &str, key: &[u8], value: &[u8]) -> (r: Result<
    Option<Vec<u8>>,
    sled::Error,
>)
    ensures
        r matches Ok(previous) ==> bytes_of(previous) == lookup(
            table_of(store_tables(*old(store)), name.spec_bytes()),
            key@,
        ),
        r is Ok ==> tables_with(
            store_tables(*old(store)),
            store_tables(*final(store)),
            name.spec_bytes(),
            table_of(store_tables(*old(store)), name.spec_bytes()).insert(key@, value@),
        ),
        store_dir(*final(store)) == store_dir(*old(store)),
{
    match store.db.open_tree(name) {
        Ok(tree) => match tree.insert(key, value.to_vec()) {
            Ok(Some(bytes)) => Ok(Some(bytes.to_vec())),
            Ok(None) => Ok(None),
            Err(e) => Err(e),
        },
        Err(e) => Err(e),
    }
}

/// Calls `sled::Db::open_tree` for the table `name` and `sled::Tree::remove`
/// on it. Claims that on success the table then holds nothing under `key`,
/// every other entry and every other table unchanged, and that the result is
/// the value it held under `key` before. Nothing is claimed of the tables
/// after a failure, nor of what is durable after a removal.
#[verifier::external_body]
fn store_remove(store: &mut SledStore, name: &str, key: &[u8]) -> (r: Result<
    Option<Vec<u8>>,
    sled::Error,
>)
    ensures
        r matches Ok(previous) ==> bytes_of(previous) == lookup(
            table_of(store_tables(*old(store)), name.spec_bytes()),
            key@,
        ),
        r is Ok ==> tables_with(
            store_tables(*old(store)),
            store_tables(*final(store)),
            name.spec_bytes(),
            table_of(store_tables(*old(store)), name.spec_bytes()).remove(key@),
        ),
        store_dir(*final(store)) == store_dir(*old(store)),
{
    match store.db.open_tree(name) {
        Ok(tree) => match tree.remove(key) {
            Ok(Some(bytes)) => Ok(Some(bytes.to_vec())),
            Ok(None) => Ok(None),
            Err(e) => Err(e),
        },
        Err(e) => Err(e),
    }
}

/// Calls `sled::Db::drop_tree`, which removes the tree named `name` with all
/// it holds and says whether there was one. Claims that the tree sled keeps
/// its own structures in, named `__sled__default`, is refused with an error,
/// and that on success the table reads empty and every other table as
/// before. Nothing is claimed of the tables after a failure, nor of what is
/// durable after a removal.
#[verifier::external_body]
fn store_drop_table(store: &mut SledStore, name: &str) -> (r: Result<bool, sled::Error>)
    ensures
        name@ == core_tree_name() ==> r is Err,
        r is Ok ==> tables_with(
            store_tables(*old(store)),
            store_tables(*final(store)),
            name.spec_bytes(),
            Map::empty(),
        ),
        store_dir(*final(store)) == store_dir(*old(store)),
{
    store.db.drop_tree(name)
}

/// Calls `sled::Db::open_tree` for the table `name` and `sled::Tree::flush`
/// on it, which writes all dirty buffers of the database to disk and calls
/// fsync; sled documents that after a success every earlier write is
/// recovered after a crash. Claims that the tables are left as they were and
/// that on success every table is durable as it stands. Nothing is claimed
/// of the byte count it gives.
#[verifier::external_body]
fn store_flush(store: &mut SledStore, name: &str) -> (r: Result<usize, sled::Error>)
    ensures
        all_tables_agree(store_tables(*old(store)), store_tables(*final(store))),
        r is Ok ==> all_tables_agree(store_tables(*final(store)), store_durable(*final(store))),
        store_dir(*final(store)) == store_dir(*old(store)),
{
    match store.db.open_tree(name) {
        Ok(tree) => tree.flush(),
        Err(e) => Err(e),
    }
}

/// The text of a sled error, from its `Display`. Nothing is claimed of it.
#[verifier::external_body]
pub(crate) fn sled_error_text(e: &sled::Error) -> (text: String) {
    format!("{}", e)
}

/// `text` is what the sled error `e` reads as, by its `Display`.
pub closed spec fn sled_error_reads(e: sled::Error, text: Seq<char>) -> bool {
    exists|t: String|
        #![trigger call_ensures(sled_error_text, (&e,), t)]
        t@ == text && call_ensures(sled_error_text, (&e,), t)
}

/// A text that `sled_error_text` gave for `e` is what `e` reads as.
pub(crate) proof fn lemma_sled_error_reads(e: &sled::Error, t: String)
    requires
        call_ensures(sled_error_text, (e,), t),
    ensures
        sled_error_reads(*e, t@),
{
}

/// The key-value database: a sled store whose named trees are the tables.
pub struct Kv {
    store: SledStore,
}

impl Kv {
    /// The directory the database lives in.
    pub closed spec fn dir(&self) -> Seq<char> {
        store_dir(self.store)
    }

    /// The entries of the table `name`: none where there is no such table.
    pub closed spec fn table(&self, name: Seq<u8>) -> Map<Seq<u8>, Seq<u8>> {
        table_of(store_tables(self.store), name)
    }

    /// The entries of the table `name` as a crash would leave them.
    pub closed spec fn durable(&self, name: Seq<u8>) -> Map<Seq<u8>, Seq<u8>> {
        table_of(store_durable(self.store), name)
    }

    /// Every table other than `name` is in `other` as in `self`.
    pub open spec fn same_except(&self, other: &Kv, name: Seq<u8>) -> bool {
        forall|n: Seq<u8>| n != name ==> #[trigger] other.table(n) == self.table(n)
    }

    /// Every table is in `other` as in `self`.
    pub open spec fn same_tables(&self, other: &Kv) -> bool {
        forall|n: Seq<u8>| #[trigger] other.table(n) == self.table(n)
    }

    /// `sled::open` on the directory `dir` can fail with `e`: the engine
    /// refuses to open the database there.
    pub closed spec fn open_fails_with(dir: Seq<char>, e: sled::Error) -> bool {
        exists|d: &str|
            #![trigger call_ensures(store_open, (d,), Err::<SledStore, sled::Error>(e))]
            d@ == dir && call_ensures(store_open, (d,), Err::<SledStore, sled::Error>(e))
    }

    /// This database is one that `sled::open` gave for the directory `dir`.
    pub closed spec fn opened_from(&self, dir: Seq<char>) -> bool {
        exists|d: &str|
            #![trigger call_ensures(store_open, (d,), Ok::<SledStore, sled::Error>(self.store))]
            d@ == dir && call_ensures(store_open, (d,), Ok::<SledStore, sled::Error>(self.store))
    }

    /// The engine's opening of the table `name` (by its bytes), made on the
    /// store of this database, can fail with `e`.
    pub closed spec fn open_table_fails_with(&self, name: Seq<u8>, e: sled::Error) -> bool {
        exists|store: &mut SledStore, n: &str|
            #![trigger call_ensures(store_open_table, (store, n), Err::<(), sled::Error>(e))]
            *store == self.store && n.spec_bytes() == name && call_ensures(
                store_open_table,
                (store, n),
                Err::<(), sled::Error>(e),
            )
    }

    /// The engine's lookup of `key` in the table `name`, made on the store of
    /// this database, can fail with `e`.
    pub closed spec fn get_fails_with(&self, name: Seq<u8>, key: Seq<u8>, e: sled::Error) -> bool {
        exists|store: &mut SledStore, n: &str, k: &[u8]|
            #![trigger call_ensures(store_get, (store, n, k), Err::<Option<Vec<u8>>, sled::Error>(e))]
            *store == self.store && n.spec_bytes() == name && k@ == key && call_ensures(
                store_get,
                (store, n, k),
                Err::<Option<Vec<u8>>, sled::Error>(e),
            )
    }

    /// The engine's insert of `value` under `key` in the table `name`, made
    /// on the store of this database, can fail with `e`.
    pub closed spec fn insert_fails_with(
        &self,
        name: Seq<u8>,
        key: Seq<u8>,
        value: Seq<u8>,
        e: sled::Error,
    ) -> bool {
        exists|store: &mut SledStore, n: &str, k: &[u8], v: &[u8]|
            #![trigger call_ensures(store_insert, (store, n, k, v), Err::<Option<Vec<u8>>, sled::Error>(e))]
            *store == self.store && n.spec_bytes() == name && k@ == key && v@ == value
                && call_ensures(store_insert, (store, n, k, v), Err::<Option<Vec<u8>>, sled::Error>(e))
    }

    /// The engine's removal of `key` from the table `name`, made on the store
    /// of this database, can fail with `e`.
    pub closed spec fn remove_fails_with(&self, name: Seq<u8>, key: Seq<u8>, e: sled::Error) -> bool {
        exists|store: &mut SledStore, n: &str, k: &[u8]|
            #![trigger call_ensures(store_remove, (store, n, k), Err::<Option<Vec<u8>>, sled::Error>(e))]
            *store == self.store && n.spec_bytes() == name && k@ == key && call_ensures(
                store_remove,
                (store, n, k),
                Err::<Option<Vec<u8>>, sled::Error>(e),
            )
    }

    /// The engine's flush, reached through the table `name` of the store of
    /// this database, can fail with `e`.
    pub closed spec fn flush_fails_with(&self, name: Seq<u8>, e: sled::Error) -> bool {
        exists|store: &mut SledStore, n: &str|
            #![trigger call_ensures(store_flush, (store, n), Err::<usize, sled::Error>(e))]
            *store == self.store && n.spec_bytes() == name && call_ensures(
                store_flush,
                (store, n),
                Err::<usize, sled::Error>(e),
            )
    }

    /// The engine's removal of the table `name`, made on the store of this
    /// database, can fail with `e`.
    pub closed spec fn drop_fails_with(&self, name: Seq<u8>, e: sled::Error) -> bool {
        exists|store: &mut SledStore, n: &str|
            #![trigger call_ensures(store_drop_table, (store, n), Err::<bool, sled::Error>(e))]
            *store == self.store && n.spec_bytes() == name && call_ensures(
                store_drop_table,
                (store, n),
                Err::<bool, sled::Error>(e),
            )
    }

    /// Opens (or creates) the database in the directory `dir`. It fails only
    /// where `sled::open` fails on `dir`, with that error.
    pub fn connect(dir: &str) -> (r: Result<Kv, Error>)
        ensures
            r matches Ok(kv) ==> kv.dir() == dir@ && kv.opened_from(dir@),
            r matches Err(e) ==> e is Database,
            r matches Err(e) ==> exists|inner: sled::Error|
                #![trigger Kv::open_fails_with(dir@, inner)]
                e == Error::Database(inner) && Kv::open_fails_with(dir@, inner),
    {
        let opened = store_open(dir);
        match opened {
            Ok(store) => {
                let kv = Kv { store };
                proof {
                    assert(opened == Ok::<SledStore, sled::Error>(kv.store));
                    assert(call_ensures(store_open, (dir,), Ok::<SledStore, sled::Error>(kv.store)));
                }
                Ok(kv)
            },
            Err(e) => {
                proof {
                    assert(Kv::open_fails_with(dir@, e));
                }
                Err(Error::Database(e))
            },
        }
    }

    /// Opens (or creates) the table `name`. The tables are left as they were.
    /// It fails only where the engine fails to open the table, with that
    /// error.
    pub fn open_table(&mut self, name: &str) -> (r: Result<KvTable, Error>)
        ensures
            final(self).dir() == old(self).dir(),
            old(self).same_tables(final(self)),
            r matches Ok(table) ==> table.key() == name.spec_bytes(),
            r matches Err(e) ==> e is Database,
            r matches Err(e) ==> exists|inner: sled::Error|
                #![trigger old(self).open_table_fails_with(name.spec_bytes(), inner)]
                e == Error::Database(inner) && old(self).open_table_fails_with(name.spec_bytes(), inner),
    {
        match store_open_table(&mut self.store, name) {
            Ok(()) => Ok(KvTable { name: String::from_str(name) }),
            Err(e) => {
                proof {
                    assert(old(self).open_table_fails_with(name.spec_bytes(), e));
                }
                Err(Error::Database(e))
            },
        }
    }

    /// Reads the value stored under `key` in the table `name`: `Some` of it,
    /// or `None` where the table holds nothing under `key`. It fails only
    /// where the engine's lookup fails, with that error.
    pub fn read(&mut self, name: &str, key: &[u8]) -> (r: Result<Option<Vec<u8>>, Error>)
        ensures
            final(self).dir() == old(self).dir(),
            old(self).same_tables(final(self)),
            r matches Ok(found) ==> bytes_of(found) == lookup(old(self).table(name.spec_bytes()), key@),
            r matches Err(e) ==> e is Database,
            r matches Err(e) ==> exists|inner: sled::Error|
                #![trigger old(self).get_fails_with(name.spec_bytes(), key@, inner)]
                e == Error::Database(inner) && old(self).get_fails_with(name.spec_bytes(), key@, inner),
    {
        match store_get(&mut self.store, name, key) {
            Ok(found) => Ok(found),
            Err(e) => {
                proof {
                    assert(old(self).get_fails_with(name.spec_bytes(), key@, e));
                }
                Err(Error::Database(e))
            },
        }
    }

    /// Stores `value` under `key` in the table `name`, in place of any value
    /// stored there before. The other tables are left as they were. It fails
    /// only where the engine's insert fails, with that error.
    pub fn write(&mut self, name: &str, key: &[u8], value: &[u8]) -> (r: Result<(), Error>)
        ensures
            final(self).dir() == old(self).dir(),
            r is Ok ==> old(self).same_except(final(self), name.spec_bytes()),
            r is Ok ==> final(self).table(name.spec_bytes()) == old(self).table(
                name.spec_bytes(),
            ).insert(key@, value@),
            r matches Err(e) ==> e is Database,
            r matches Err(e) ==> exists|inner: sled::Error|
                #![trigger old(self).insert_fails_with(name.spec_bytes(), key@, value@, inner)]
                e == Error::Database(inner) && old(self).insert_fails_with(
                    name.spec_bytes(),
                    key@,
                    value@,
                    inner,
                ),
    {
        match store_insert(&mut self.store, name, key, value) {
            Ok(_) => Ok(()),
            Err(e) => {
                proof {
                    assert(old(self).insert_fails_with(name.spec_bytes(), key@, value@, e));
                }
                Err(Error::Database(e))
            },
        }
    }

    /// Removes whatever is stored under `key` in the table `name`; a key with
    /// nothing stored under it is no error. The other tables are left as they
    /// were. It fails only where the engine's removal fails, with that error.
    pub fn remove(&mut self, name: &str, key: &[u8]) -> (r: Result<(), Error>)
        ensures
            final(self).dir() == old(self).dir(),
            r is Ok ==> old(self).same_except(final(self), name.spec_bytes()),
            r is Ok ==> final(self).table(name.spec_bytes()) == old(self).table(
                name.spec_bytes(),
            ).remove(key@),
            r matches Err(e) ==> e is Database,
            r matches Err(e) ==> exists|inner: sled::Error|
                #![trigger old(self).remove_fails_with(name.spec_bytes(), key@, inner)]
                e == Error::Database(inner) && old(self).remove_fails_with(name.spec_bytes(), key@, inner),
    {
        match store_remove(&mut self.store, name, key) {
            Ok(_) => Ok(()),
            Err(e) => {
                proof {
                    assert(old(self).remove_fails_with(name.spec_bytes(), key@, e));
                }
                Err(Error::Database(e))
            },
        }
    }

    /// Forcibly flushes all data cached in memory to the disk: on success
    /// every table, `name` among them, is durable as it stands, so a crash
    /// leaves it so. The tables are left as they were. It fails only where
    /// the engine's flush fails, with that error.
    pub fn flush(&mut self, name: &str) -> (r: Result<(), Error>)
        ensures
            final(self).dir() == old(self).dir(),
            old(self).same_tables(final(self)),
            r is Ok ==> final(self).durable(name.spec_bytes()) == final(self).table(name.spec_bytes()),
            r is Ok ==> forall|n: Seq<u8>| #[trigger] final(self).durable(n) == final(self).table(n),
            r matches Err(e) ==> e is Database,
            r matches Err(e) ==> exists|inner: sled::Error|
                #![trigger old(self).flush_fails_with(name.spec_bytes(), inner)]
                e == Error::Database(inner) && old(self).flush_fails_with(name.spec_bytes(), inner),
    {
        match store_flush(&mut self.store, name) {
            Ok(_) => Ok(()),
            Err(e) => {
                proof {
                    assert(old(self).flush_fails_with(name.spec_bytes(), e));
                }
                Err(Error::Database(e))
            },
        }
    }

    /// Removes the table `name` with all it holds; a name with no table is
    /// no error, and the table reads empty afterwards while every other
    /// table is kept. The table in which sled keeps its own structures
    /// cannot be removed. It fails only where the engine's removal of the
    /// table fails, with that error.
    pub fn remove_table(&mut self, name: &str) -> (r: Result<(), Error>)
        ensures
            final(self).dir() == old(self).dir(),
            r is Ok ==> final(self).table(name.spec_bytes()) == Map::<Seq<u8>, Seq<u8>>::empty(),
            r is Ok ==> old(self).same_except(final(self), name.spec_bytes()),
            name@ == core_tree_name() ==> r is Err,
            r matches Err(e) ==> e is Database,
            r matches Err(e) ==> exists|inner: sled::Error|
                #![trigger old(self).drop_fails_with(name.spec_bytes(), inner)]
                e == Error::Database(inner) && old(self).drop_fails_with(name.spec_bytes(), inner),
    {
        match store_drop_table(&mut self.store, name) {
            Ok(_) => Ok(()),
            Err(e) => {
                proof {
                    assert(old(self).drop_fails_with(name.spec_bytes(), e));
                }
                Err(Error::Database(e))
            },
        }
    }
}

/// One table of the key-value engine, named in its database.
pub struct KvTable {
    name: String,
}

impl KvTable {
    /// The key of this table in its database: the bytes of its name.
    pub closed spec fn key(&self) -> Seq<u8> {
        table_key(self.name@)
    }

    /// The name of this table.
    pub fn name(&self) -> (name: &str)
        ensures
            name.spec_bytes() == self.key(),
    {
        self.name.as_str()
    }

    /// Reads the value stored under `key` in this table of `kv`.
    pub fn read(&self, kv: &mut Kv, key: &[u8]) -> (r: Result<Option<Vec<u8>>, Error>)
        ensures
            final(kv).dir() == old(kv).dir(),
            old(kv).same_tables(final(kv)),
            r matches Ok(found) ==> bytes_of(found) == lookup(old(kv).table(self.key()), key@),
            r matches Err(e) ==> e is Database,
            r matches Err(e) ==> exists|inner: sled::Error|
                #![trigger old(kv).get_fails_with(self.key(), key@, inner)]
                e == Error::Database(inner) && old(kv).get_fails_with(self.key(), key@, inner),
    {
        let name = self.name.as_str();
        proof {
            assert(name.spec_bytes() == self.key());
        }
        kv.read(name, key)
    }

    /// Stores `value` under `key` in this table of `kv`.
    pub fn write(&self, kv: &mut Kv, key: &[u8], value: &[u8]) -> (r: Result<(), Error>)
        ensures
            final(kv).dir() == old(kv).dir(),
            r is Ok ==> old(kv).same_except(final(kv), self.key()),
            r is Ok ==> final(kv).table(self.key()) == old(kv).table(self.key()).insert(key@, value@),
            r matches Err(e) ==> e is Database,
            r matches Err(e) ==> exists|inner: sled::Error|
                #![trigger old(kv).insert_fails_with(self.key(), key@, value@, inner)]
                e == Error::Database(inner) && old(kv).insert_fails_with(self.key(), key@, value@, inner),
    {
        let name = self.name.as_str();
        proof {
            assert(name.spec_bytes() == self.key());
        }
        kv.write(name, key, value)
    }

    /// Removes whatever is stored under `key` in this table of `kv`.
    pub fn remove(&self, kv: &mut Kv, key: &[u8]) -> (r: Result<(), Error>)
        ensures
            final(kv).dir() == old(kv).dir(),
            r is Ok ==> old(kv).same_except(final(kv), self.key()),
            r is Ok ==> final(kv).table(self.key()) == old(kv).table(self.key()).remove(key@),
            r matches Err(e) ==> e is Database,
            r matches Err(e) ==> exists|inner: sled::Error|
                #![trigger old(kv).remove_fails_with(self.key(), key@, inner)]
                e == Error::Database(inner) && old(kv).remove_fails_with(self.key(), key@, inner),
    {
        let name = self.name.as_str();
        proof {
            assert(name.spec_bytes() == self.key());
        }
        kv.remove(name, key)
    }

    /// Forcibly flushes the data of `kv` cached in memory to the disk: on
    /// success this table is durable as it stands.
    pub fn flush(&self, kv: &mut Kv) -> (r: Result<(), Error>)
        ensures
            final(kv).dir() == old(kv).dir(),
            old(kv).same_tables(final(kv)),
            r is Ok ==> final(kv).durable(self.key()) == final(kv).table(self.key()),
            r matches Err(e) ==> e is Database,
            r matches Err(e) ==> exists|inner: sled::Error|
                #![trigger old(kv).flush_fails_with(self.key(), inner)]
                e == Error::Database(inner) && old(kv).flush_fails_with(self.key(), inner),
    {
        let name = self.name.as_str();
        proof {
            assert(name.spec_bytes() == self.key());
        }
        kv.flush(name)
    }
}

/// After a successful write of `value` under `key` in the table `name`,
/// reading `key` there gives `value`, every other key of that table reads as
/// before, and every other table is as before.
pub proof fn law_read_after_write(
    before: Kv,
    after: Kv,
    name: Seq<u8>,
    key: Seq<u8>,
    value: Seq<u8>,
    other_key: Seq<u8>,
    other_name: Seq<u8>,
)
    requires
        before.same_except(&after, name),
        after.table(name) == before.table(name).insert(key, value),
    ensures
        lookup(after.table(name), key) == Some(value),
        other_key != key ==> lookup(after.table(name), other_key) == lookup(before.table(name), other_key),
        other_name != name ==> after.table(other_name) == before.table(other_name),
{
}

/// Tables opened under one name are one table: what is written through one
/// is read through the other.
pub proof fn law_same_name_same_table(
    first: KvTable,
    second: KvTable,
    before: Kv,
    after: Kv,
    key: Seq<u8>,
    value: Seq<u8>,
)
    requires
        first.key() == second.key(),
        after.table(first.key()) == before.table(first.key()).insert(key, value),
    ensures
        lookup(after.table(second.key()), key) == Some(value),
{
}

/// After a successful removal of `key` from the table `name`, reading `key`
/// there gives `None`, and every other key reads as before.
pub proof fn law_read_after_remove(
    before: Kv,
    after: Kv,
    name: Seq<u8>,
    key: Seq<u8>,
    other_key: Seq<u8>,
)
    requires
        after.table(name) == before.table(name).remove(key),
    ensures
        lookup(after.table(name), key) is None,
        other_key != key ==> lookup(after.table(name), other_key) == lookup(before.table(name), other_key),
{
}

/// Of two writes under the same key, the second wins.
pub proof fn law_last_write_wins(
    before: Kv,
    middle: Kv,
    after: Kv,
    name: Seq<u8>,
    key: Seq<u8>,
    first: Seq<u8>,
    second: Seq<u8>,
)
    requires
        middle.table(name) == before.table(name).insert(key, first),
        after.table(name) == middle.table(name).insert(key, second),
    ensures
        after.table(name) == before.table(name).insert(key, second),
{
    assert(after.table(name) =~= before.table(name).insert(key, second));
}

/// Removing a key just written where nothing was stored before gives back
/// the table as it was.
pub proof fn law_remove_undoes_write(
    before: Kv,
    middle: Kv,
    after: Kv,
    name: Seq<u8>,
    key: Seq<u8>,
    value: Seq<u8>,
)
    requires
        lookup(before.table(name), key) is None,
        middle.table(name) == before.table(name).insert(key, value),
        after.table(name) == middle.table(name).remove(key),
    ensures
        after.table(name) == before.table(name),
{
    assert(after.table(name) =~= before.table(name));
}

/// Removing a key under which nothing is stored leaves the table as it was.
pub proof fn law_remove_absent_key(before: Kv, after: Kv, name: Seq<u8>, key: Seq<u8>)
    requires
        lookup(before.table(name), key) is None,
        after.table(name) == before.table(name).remove(key),
    ensures
        after.table(name) == before.table(name),
{
    assert(after.table(name) =~= before.table(name));
}

/// After a table is removed and opened again, it reads empty, and every
/// other table holds what it held before the removal.
pub proof fn law_reopened_after_remove(
    before: Kv,
    removed: Kv,
    reopened: Kv,
    name: Seq<u8>,
    key: Seq<u8>,
    other_name: Seq<u8>,
)
    requires
        removed.table(name) == Map::<Seq<u8>, Seq<u8>>::empty(),
        before.same_except(&removed, name),
        removed.same_tables(&reopened),
    ensures
        lookup(reopened.table(name), key) is None,
        other_name != name ==> reopened.table(other_name) == before.table(other_name),
{
    assert(reopened.table(name) == removed.table(name));
    if other_name != name {
        assert(reopened.table(other_name) == removed.table(other_name));
    }
}

/// Connecting fails only where `sled::open` fails on the directory, and
/// then with the error it gave; whenever the store opens, connecting gives a
/// database over that store, in that directory.
pub proof fn law_connect_fails_only_when_open_fails(dir: &str, r: Result<Kv, Error>)
    requires
        call_ensures(Kv::connect, (dir,), r),
    ensures
        r matches Ok(kv) ==> kv.dir() == dir@ && kv.opened_from(dir@),
        r matches Err(e) ==> exists|inner: sled::Error|
            #![trigger Kv::open_fails_with(dir@, inner)]
            e == Error::Database(inner) && Kv::open_fails_with(dir@, inner),
{
}

/// A write fails only where the engine's insert of the value under the key
/// in the table fails, and then with the error it gave; whenever the insert
/// goes through, the write succeeds, and the table then gives the value for
/// the key while every other table is as before.
pub proof fn law_write_fails_only_when_insert_fails(
    before: Kv,
    after: Kv,
    name: &str,
    key: &[u8],
    value: &[u8],
    r: Result<(), Error>,
)
    requires
        exists|kv: &mut Kv|
            #![trigger call_ensures(Kv::write, (kv, name, key, value), r)]
            *kv == before && *final(kv) == after && call_ensures(Kv::write, (kv, name, key, value), r),
    ensures
        r is Ok ==> lookup(after.table(name.spec_bytes()), key@) == Some(value@),
        r is Ok ==> before.same_except(&after, name.spec_bytes()),
        r matches Err(e) ==> exists|inner: sled::Error|
            #![trigger before.insert_fails_with(name.spec_bytes(), key@, value@, inner)]
            e == Error::Database(inner) && before.insert_fails_with(name.spec_bytes(), key@, value@, inner),
{
    let kv = choose|kv: &mut Kv|
        #![trigger call_ensures(Kv::write, (kv, name, key, value), r)]
        *kv == before && *final(kv) == after && call_ensures(Kv::write, (kv, name, key, value), r);
    assert(call_ensures(Kv::write, (kv, name, key, value), r));
}

} // verus!
