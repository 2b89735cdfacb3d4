//! The key-value storage database: a sled database whose named trees are
//! the tables, as `Kv` keeps it.

use vstd::prelude::*;
use vstd::string::StringSliceAdditionalSpecFns;
use crate::error::Error;
use crate::kv::{bytes_of, core_tree_name, lookup, Kv, KvTable};

verus! {

/// A table of the storage database.
pub type Table = KvTable;

/// Key-value storage database based on sled.
pub struct Storage {
    kv: Kv,
}

impl Storage {
    /// The key-value database behind this storage.
    pub closed spec fn engine(&self) -> Kv {
        self.kv
    }

    /// The directory the database lives in.
    pub closed spec fn dir(&self) -> Seq<char> {
        self.kv.dir()
    }

    /// The entries of the table `name`: none where there is no such table.
    pub closed spec fn table(&self, name: Seq<u8>) -> Map<Seq<u8>, Seq<u8>> {
        self.kv.table(name)
    }

    /// The entries of the table `name` as a crash would leave them.
    pub closed spec fn durable(&self, name: Seq<u8>) -> Map<Seq<u8>, Seq<u8>> {
        self.kv.durable(name)
    }

    /// Connects to (opens or creates) the database in the directory `dir`.
    /// It fails only where `sled::open` fails on `dir`, with that error.
    pub fn connect(dir: &str) -> (r: Result<Storage, Error>)
        ensures
            r matches Ok(s) ==> s.dir() == dir@ && s.engine().opened_from(dir@),
            r matches Err(e) ==> e is Database,
            r matches Err(e) ==> exists|inner: sled::Error|
                #![trigger Kv::open_fails_with(dir@, inner)]
                e == Error::Database(inner) && Kv::open_fails_with(dir@, inner),
    {
        match Kv::connect(dir) {
            Ok(kv) => Ok(Storage { kv }),
            Err(e) => Err(e),
        }
    }

    /// Opens (or creates) the table `name`. The tables are left as they were.
    pub fn open_table(&mut self, name: &str) -> (r: Result<Table, Error>)
        ensures
            final(self).dir() == old(self).dir(),
            forall|n: Seq<u8>| #[trigger] final(self).table(n) == old(self).table(n),
            r matches Ok(table) ==> table.key() == name.spec_bytes(),
            r matches Err(e) ==> e is Database,
            r matches Err(e) ==> exists|inner: sled::Error|
                #![trigger old(self).engine().open_table_fails_with(name.spec_bytes(), inner)]
                e == Error::Database(inner) && old(self).engine().open_table_fails_with(
                    name.spec_bytes(),
                    inner,
                ),
    {
        proof {
            assert(old(self).engine() == old(self).kv);
        }
        self.kv.open_table(name)
    }

    /// Removes the table `name` with all it holds; a name with no table is
    /// no error, and the table reads empty afterwards while every other
    /// table is kept. The table in which sled keeps its own structures
    /// cannot be removed.
    pub fn remove_table(&mut self, name: &str) -> (r: Result<(), Error>)
        ensures
            final(self).dir() == old(self).dir(),
            r is Ok ==> final(self).table(name.spec_bytes()) == Map::<Seq<u8>, Seq<u8>>::empty(),
            r is Ok ==> forall|n: Seq<u8>|
                n != name.spec_bytes() ==> #[trigger] final(self).table(n) == old(self).table(n),
            name@ == core_tree_name() ==> r is Err,
            r matches Err(e) ==> e is Database,
            r matches Err(e) ==> exists|inner: sled::Error|
                #![trigger old(self).engine().drop_fails_with(name.spec_bytes(), inner)]
                e == Error::Database(inner) && old(self).engine().drop_fails_with(name.spec_bytes(), inner),
    {
        proof {
            assert(old(self).engine() == old(self).kv);
        }
        self.kv.remove_table(name)
    }

    /// Reads the value stored under `key` in the table `name`.
    pub fn read(&mut self, name: &str, key: &[u8]) -> (r: Result<Option<Vec<u8>>, Error>)
        ensures
            final(self).dir() == old(self).dir(),
            forall|n: Seq<u8>| #[trigger] final(self).table(n) == old(self).table(n),
            r matches Ok(found) ==> bytes_of(found) == lookup(old(self).table(name.spec_bytes()), key@),
            r matches Err(e) ==> e is Database,
            r matches Err(e) ==> exists|inner: sled::Error|
                #![trigger old(self).engine().get_fails_with(name.spec_bytes(), key@, inner)]
                e == Error::Database(inner) && old(self).engine().get_fails_with(
                    name.spec_bytes(),
                    key@,
                    inner,
                ),
    {
        proof {
            assert(old(self).engine() == old(self).kv);
        }
        self.kv.read(name, key)
    }

    /// Stores `value` under `key` in the table `name`; the other tables are
    /// left as they were.
    pub fn write(&mut self, name: &str, key: &[u8], value: &[u8]) -> (r: Result<(), Error>)
        ensures
            final(self).dir() == old(self).dir(),
            r is Ok ==> forall|n: Seq<u8>|
                n != name.spec_bytes() ==> #[trigger] final(self).table(n) == old(self).table(n),
            r is Ok ==> final(self).table(name.spec_bytes()) == old(self).table(
                name.spec_bytes(),
            ).insert(key@, value@),
            r matches Err(e) ==> e is Database,
            r matches Err(e) ==> exists|inner: sled::Error|
                #![trigger old(self).engine().insert_fails_with(name.spec_bytes(), key@, value@, inner)]
                e == Error::Database(inner) && old(self).engine().insert_fails_with(
                    name.spec_bytes(),
                    key@,
                    value@,
                    inner,
                ),
    {
        proof {
            assert(old(self).engine() == old(self).kv);
        }
        self.kv.write(name, key, value)
    }

    /// Removes whatever is stored under `key` in the table `name`; the other
    /// tables are left as they were.
    pub fn remove(&mut self, name: &str, key: &[u8]) -> (r: Result<(), Error>)
        ensures
            final(self).dir() == old(self).dir(),
            r is Ok ==> forall|n: Seq<u8>|
                n != name.spec_bytes() ==> #[trigger] final(self).table(n) == old(self).table(n),
            r is Ok ==> final(self).table(name.spec_bytes()) == old(self).table(
                name.spec_bytes(),
            ).remove(key@),
            r matches Err(e) ==> e is Database,
            r matches Err(e) ==> exists|inner: sled::Error|
                #![trigger old(self).engine().remove_fails_with(name.spec_bytes(), key@, inner)]
                e == Error::Database(inner) && old(self).engine().remove_fails_with(
                    name.spec_bytes(),
                    key@,
                    inner,
                ),
    {
        proof {
            assert(old(self).engine() == old(self).kv);
        }
        self.kv.remove(name, key)
    }

    /// Forcibly flushes all data cached in memory to the disk: on success
    /// every table, `name` among them, is durable as it stands.
    pub fn flush(&mut self, name: &str) -> (r: Result<(), Error>)
        ensures
            final(self).dir() == old(self).dir(),
            forall|n: Seq<u8>| #[trigger] final(self).table(n) == old(self).table(n),
            r is Ok ==> final(self).durable(name.spec_bytes()) == final(self).table(name.spec_bytes()),
            r is Ok ==> forall|n: Seq<u8>| #[trigger] final(self).durable(n) == final(self).table(n),
            r matches Err(e) ==> e is Database,
            r matches Err(e) ==> exists|inner: sled::Error|
                #![trigger old(self).engine().flush_fails_with(name.spec_bytes(), inner)]
                e == Error::Database(inner) && old(self).engine().flush_fails_with(name.spec_bytes(), inner),
    {
        proof {
            assert(old(self).engine() == old(self).kv);
        }
        self.kv.flush(name)
    }
}

} // verus!
