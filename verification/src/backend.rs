//! The storage backends and the database handle that is generic over them.

use vstd::prelude::*;
use vstd::string::StringSliceAdditionalSpecFns;
use crate::error::Error;
use crate::kv::{core_tree_name, Kv, KvTable};

verus! {

/// A storage engine that keeps named tables in a directory. Each engine
/// says, by its spec functions, what its operations promise.
pub trait Backend: Sized {
    /// The table type of this engine.
    type T;

    /// The engine is in a usable state.
    spec fn ready(&self) -> bool;

    /// What connecting to `dir` may give.
    spec fn connected(dir: Seq<char>, r: Result<Self, Error>) -> bool;

    /// What opening the table `name` may give and leave.
    spec fn opened(before: Self, after: Self, name: Seq<u8>, r: Result<Self::T, Error>) -> bool;

    /// What removing the table `name` may give and leave.
    spec fn removed(before: Self, after: Self, name: Seq<u8>, r: Result<(), Error>) -> bool;

    /// Connects to the database in the directory `dir`.
    fn connect(dir: &str) -> (r: Result<Self, Error>)
        ensures
            Self::connected(dir@, r),
            r matches Ok(b) ==> b.ready(),
    ;

    /// Opens the table `name`.
    fn open_table(&mut self, name: &str) -> (r: Result<Self::T, Error>)
        requires
            old(self).ready(),
        ensures
            final(self).ready(),
            Self::opened(*old(self), *final(self), name.spec_bytes(), r),
    ;

    /// Removes the table `name`.
    fn remove_table(&mut self, name: &str) -> (r: Result<(), Error>)
        requires
            old(self).ready(),
        ensures
            final(self).ready(),
            Self::removed(*old(self), *final(self), name.spec_bytes(), r),
    ;
}

impl Backend for Kv {
    type T = KvTable;

    open spec fn ready(&self) -> bool {
        true
    }

    open spec fn connected(dir: Seq<char>, r: Result<Kv, Error>) -> bool {
        &&& r matches Ok(kv) ==> kv.dir() == dir && kv.opened_from(dir)
        &&& r matches Err(e) ==> e is Database
        &&& r matches Err(e) ==> exists|inner: sled::Error|
            #![trigger Kv::open_fails_with(dir, inner)]
            e == Error::Database(inner) && Kv::open_fails_with(dir, inner)
    }

    open spec fn opened(before: Kv, after: Kv, name: Seq<u8>, r: Result<KvTable, Error>) -> bool {
        &&& after.dir() == before.dir()
        &&& before.same_tables(&after)
        &&& r matches Ok(table) ==> table.key() == name
        &&& r matches Err(e) ==> e is Database
        &&& r matches Err(e) ==> exists|inner: sled::Error|
            #![trigger before.open_table_fails_with(name, inner)]
            e == Error::Database(inner) && before.open_table_fails_with(name, inner)
    }

    open spec fn removed(before: Kv, after: Kv, name: Seq<u8>, r: Result<(), Error>) -> bool {
        &&& after.dir() == before.dir()
        &&& r is Ok ==> after.table(name) == Map::<Seq<u8>, Seq<u8>>::empty()
        &&& r is Ok ==> before.same_except(&after, name)
        &&& name == core_tree_key() ==> r is Err
        &&& r matches Err(e) ==> e is Database
        &&& r matches Err(e) ==> exists|inner: sled::Error|
            #![trigger before.drop_fails_with(name, inner)]
            e == Error::Database(inner) && before.drop_fails_with(name, inner)
    }

    fn connect(dir: &str) -> (r: Result<Kv, Error>) {
        Kv::connect(dir)
    }

    fn open_table(&mut self, name: &str) -> (r: Result<KvTable, Error>) {
        Kv::open_table(self, name)
    }

    fn remove_table(&mut self, name: &str) -> (r: Result<(), Error>) {
        proof {
            lemma_core_key(name);
        }
        Kv::remove_table(self, name)
    }
}

/// The key of the tree in which sled keeps its own structures.
pub open spec fn core_tree_key() -> Seq<u8> {
    crate::kv::table_key(core_tree_name())
}

/// A name whose key is that of the core tree is the core tree's name.
proof fn lemma_core_key(name: &str)
    ensures
        name.spec_bytes() == core_tree_key() ==> name@ == core_tree_name(),
{
    if name.spec_bytes() == core_tree_key() {
        vstd::utf8::encode_utf8_decode_utf8(name@);
        vstd::utf8::encode_utf8_decode_utf8(core_tree_name());
    }
}

/// The database handle: one backend, reached through its tables.
pub struct Cistern<B: Backend> {
    backend: B,
}

impl<B: Backend> Cistern<B> {
    /// The backend behind this handle.
    pub closed spec fn backend(&self) -> B {
        self.backend
    }

    /// Connects to the database in the directory `dir`: what the backend's
    /// `connect` gives, wrapped in a handle.
    pub fn connect(dir: &str) -> (r: Result<Self, Error>)
        ensures
            match r {
                Ok(db) => B::connected(dir@, Ok(db.backend())) && db.backend().ready(),
                Err(e) => B::connected(dir@, Err(e)),
            },
    {
        match B::connect(dir) {
            Ok(backend) => Ok(Cistern { backend }),
            Err(e) => Err(e),
        }
    }

    /// Opens the table `name`: what the backend's `open_table` gives.
    pub fn open_table(&mut self, name: &str) -> (r: Result<B::T, Error>)
        requires
            old(self).backend().ready(),
        ensures
            final(self).backend().ready(),
            B::opened(old(self).backend(), final(self).backend(), name.spec_bytes(), r),
    {
        self.backend.open_table(name)
    }

    /// Removes the table `name`: what the backend's `remove_table` gives.
    pub fn remove_table(&mut self, name: &str) -> (r: Result<(), Error>)
        requires
            old(self).backend().ready(),
        ensures
            final(self).backend().ready(),
            B::removed(old(self).backend(), final(self).backend(), name.spec_bytes(), r),
    {
        self.backend.remove_table(name)
    }
}

/// A handle over the key-value engine fails to connect only where
/// `sled::open` fails on the directory, and then with the error it gave;
/// whenever the store opens, connecting gives a handle over it, in that
/// directory.
pub proof fn law_kv_handle_connects_unless_open_fails(dir: &str, r: Result<Cistern<Kv>, Error>)
    requires
        call_ensures(Cistern::<Kv>::connect, (dir,), r),
    ensures
        r matches Ok(db) ==> db.backend().dir() == dir@ && db.backend().opened_from(dir@),
        r matches Err(e) ==> exists|inner: sled::Error|
            #![trigger Kv::open_fails_with(dir@, inner)]
            e == Error::Database(inner) && Kv::open_fails_with(dir@, inner),
{
}

} // verus!
