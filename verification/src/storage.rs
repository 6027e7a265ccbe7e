//! The registry: named `Api` records in a durable store, read by name and
//! created at most once per name.
//!
//! A `Storage` is a handle to the store, and the store is modelled by its
//! entries, a map from key bytes to value bytes. A record lives under the
//! UTF-8 bytes of its name, as the bytes of its layout. There is no update
//! and no removal: a name that has a record keeps it.
//!
//! A handle is the only one to its store. Handles are made here and
//! nowhere else, by `Storage::open`, `Storage::open_at` and
//! `Storage::temporary`; none is taken from a caller, none is copied, and
//! the store inside is never handed out.
//! The store's own lock on its files keeps a second open of the same place
//! out for as long as the handle lives. So what a handle has written is what
//! it reads.
//!
//! `new_api` checks that the name is free and then writes only if it still
//! is, check and write being one step of the store. It takes the handle
//! exclusively: of two calls for one free name, one comes first and
//! succeeds, and the other finds the name taken. A create that fails leaves
//! no entry behind, as far as the store lets it be taken back.
//!
//! A `Registry` is the place of the one handle of a process. It is set once,
//! by `init`, and read by `get` and `get_mut`.

pub use crate::record::Api;

use crate::error::Error;
use crate::layout::{decoding, fits, layout};
use crate::record::ApiView;
use vstd::prelude::*;
use vstd::utf8::encode_utf8;

verus! {

/// `sled::Db`, carried through as an opaque value.
#[verifier::external_type_specification]
#[verifier::external_body]
pub struct ExDb(sled::Db);

/// `sled::CompareAndSwapError`, carried through as an opaque value.
#[verifier::external_type_specification]
#[verifier::external_body]
pub struct ExCompareAndSwapError(sled::CompareAndSwapError);

/// The entries of the default keyspace of a `sled::Db`: each key with the
/// value stored under it. They are those of a handle that is the only one
/// to its store, as every handle in this library is: it comes from
/// `db_open` or `db_open_temporary`, is held in a private field, and is
/// neither cloned nor handed out, and the store locks its files against a
/// second open. Such a store changes through the calls below that take the
/// handle exclusively, and through nothing else.
pub uninterp spec fn db_entries(db: sled::Db) -> Map<Seq<u8>, Seq<u8>>;

/// The entries of a `sled::Db` as the last flush through this handle left
/// them on disk: what the store recovers at the least if the system
/// crashes.
pub uninterp spec fn db_flushed(db: sled::Db) -> Map<Seq<u8>, Seq<u8>>;

/// The path that a `sled::Db` was opened at.
pub uninterp spec fn db_path(db: sled::Db) -> Seq<char>;

/// Calls `sled::open`, which opens the store at the given path and creates
/// it where there is none. Claimed of it, and not proved: a store that it
/// returns is the one at the given path. Nothing is claimed of what the
/// store holds.
#[verifier::external_body]
fn db_open(path: &str) -> (opened: std::result::Result<sled::Db, sled::Error>)
    ensures
        opened matches Ok(db) ==> db_path(db) == path@,
{
    sled::open(path)
}

/// The entries of a store that holds nothing.
pub open spec fn no_entries() -> Map<Seq<u8>, Seq<u8>> {
    Map::empty()
}

/// Calls `sled::Config::open` on a new configuration marked temporary, which
/// makes a store at a path of its own that is removed when the handle goes.
/// Claimed of it, and not proved: a store that it returns is new, each
/// configuration having a path that no other has, and so holds no entry.
#[verifier::external_body]
fn db_open_temporary() -> (opened: std::result::Result<sled::Db, sled::Error>)
    ensures
        opened matches Ok(db) ==> db_entries(db) == no_entries(),
{
    sled::Config::new().temporary(true).open()
}

/// Calls `sled::Tree::get` on the default keyspace. Claimed of it, and not
/// proved: where it reports no fault, it returns the value stored under the
/// key, and none where the key has no entry.
#[verifier::external_body]
fn db_get(db: &sled::Db, key: &[u8]) -> (found: std::result::Result<Option<Vec<u8>>, sled::Error>)
    ensures
        found matches Ok(value) ==> match value {
            Some(bytes) => db_entries(*db).contains_key(key@) && db_entries(*db)[key@] == bytes@,
            None => !db_entries(*db).contains_key(key@),
        },
{
    db.get(key).map(|value| value.map(|bytes| bytes.to_vec()))
}

/// Whether a key holds what is expected of it: no entry where none is
/// expected, and else an entry with the expected value.
pub open spec fn holds(entries: Map<Seq<u8>, Seq<u8>>, key: Seq<u8>, expected: Option<Seq<u8>>) -> bool {
    match expected {
        None => !entries.contains_key(key),
        Some(value) => entries.contains_key(key) && entries[key] == value,
    }
}

/// The entries after a key has been given a value, or after its entry has
/// been taken out where no value is given.
pub open spec fn put(entries: Map<Seq<u8>, Seq<u8>>, key: Seq<u8>, value: Option<Seq<u8>>) -> Map<
    Seq<u8>,
    Seq<u8>,
> {
    match value {
        None => entries.remove(key),
        Some(value) => entries.insert(key, value),
    }
}

/// The bytes of a value that may be missing.
pub open spec fn bytes_of(value: Option<&[u8]>) -> Option<Seq<u8>> {
    match value {
        None => None,
        Some(bytes) => Some(bytes@),
    }
}

/// Calls `sled::Tree::compare_and_swap` on the default keyspace, which
/// compares and writes in one step. Claimed of it, and not proved: where
/// the key holds what is expected, the proposed value is put and `Ok(Ok)`
/// returned; where it does not, nothing changes and `Ok(Err)` is returned;
/// where a fault is reported, the write has either been applied as a whole
/// or not at all. The handle stays at its path.
#[verifier::external_body]
fn db_compare_and_swap(
    db: &mut sled::Db,
    key: &[u8],
    expected: Option<&[u8]>,
    proposed: Option<&[u8]>,
) -> (swapped: std::result::Result<
    std::result::Result<(), sled::CompareAndSwapError>,
    sled::Error,
>)
    ensures
        db_path(*final(db)) == db_path(*old(db)),
        match swapped {
            Ok(Ok(())) => {
                &&& holds(db_entries(*old(db)), key@, bytes_of(expected))
                &&& db_entries(*final(db)) == put(db_entries(*old(db)), key@, bytes_of(proposed))
            },
            Ok(Err(_)) => {
                &&& !holds(db_entries(*old(db)), key@, bytes_of(expected))
                &&& db_entries(*final(db)) == db_entries(*old(db))
            },
            Err(_) => {
                ||| db_entries(*final(db)) == db_entries(*old(db))
                ||| {
                    &&& holds(db_entries(*old(db)), key@, bytes_of(expected))
                    &&& db_entries(*final(db)) == put(
                        db_entries(*old(db)),
                        key@,
                        bytes_of(proposed),
                    )
                }
            },
        },
{
    db.compare_and_swap(key, expected, proposed)
}

/// Calls `sled::Tree::flush`, which writes what is pending to disk and
/// returns once it is there, or reports a fault. Claimed of it, and not
/// proved: the entries stay as they are, and where it reports no fault, all
/// of them are on disk. The handle stays at its path.
#[verifier::external_body]
fn db_flush(db: &mut sled::Db) -> (flushed: std::result::Result<usize, sled::Error>)
    ensures
        db_path(*final(db)) == db_path(*old(db)),
        db_entries(*final(db)) == db_entries(*old(db)),
        flushed is Ok ==> db_flushed(*final(db)) == db_entries(*old(db)),
{
    db.flush()
}

/// The key under which a record of the given name is stored: the name's
/// UTF-8 bytes, as they are.
pub open spec fn key_of(name: Seq<char>) -> Seq<u8> {
    encode_utf8(name)
}

/// What the registry holds under a name.
pub enum Lookup {
    /// No entry under the name.
    Absent,
    /// An entry whose bytes spell out this record.
    Found(ApiView),
    /// An entry whose bytes spell out no record.
    Corrupt,
}

/// What a store with the given entries holds under a name.
pub open spec fn lookup(entries: Map<Seq<u8>, Seq<u8>>, name: Seq<char>) -> Lookup {
    if !entries.contains_key(key_of(name)) {
        Lookup::Absent
    } else {
        match decoding(entries[key_of(name)]) {
            Some(record) => Lookup::Found(record),
            None => Lookup::Corrupt,
        }
    }
}

/// Whether `get_api` may give `answer` for a name, on a store with the
/// given entries. It reports what the store holds under the name, unless the
/// store faulted: "absent" for no entry, a record for an entry that decodes
/// to it, and a decoding error for one that does not decode.
pub open spec fn reads(
    entries: Map<Seq<u8>, Seq<u8>>,
    name: Seq<char>,
    answer: std::result::Result<Option<Api>, Error>,
) -> bool {
    let held = lookup(entries, name);
    match answer {
        Ok(None) => held is Absent,
        Ok(Some(api)) => held == Lookup::Found(api@),
        Err(Error::Bincode(_)) => held is Corrupt,
        Err(Error::Db(_)) => true,
        Err(_) => false,
    }
}

/// Whether `new_api` may report `outcome` and leave the entries `after`,
/// when called on the entries `before` with a name and a record.
///
/// On success the name was free and now holds the record's layout, from
/// which the record is read back. A taken name is refused with the entries
/// untouched. After a fault of the store the entries are as before, the
/// write taken back; the entry stays only where the store faulted at that
/// too, and then it is there as a whole.
pub open spec fn creates(
    before: Map<Seq<u8>, Seq<u8>>,
    after: Map<Seq<u8>, Seq<u8>>,
    name: Seq<char>,
    record: ApiView,
    outcome: std::result::Result<(), Error>,
) -> bool {
    let key = key_of(name);
    let written = before.insert(key, layout(record));
    match outcome {
        Ok(()) => {
            &&& !before.contains_key(key)
            &&& fits(record)
            &&& decoding(layout(record)) == Some(record)
            &&& after == written
        },
        Err(Error::ApiAlreadyExists(taken)) => {
            &&& taken@ == name
            &&& before.contains_key(key)
            &&& after == before
        },
        Err(Error::Db(_)) => after == before || (!before.contains_key(key) && after == written),
        Err(_) => false,
    }
}

/// The answer to a lookup, given what the store returned for the name's key:
/// a fault of the store is passed on, no entry is "absent", and an entry is
/// decoded, its record returned or the failure to decode reported.
pub fn read_found(found: std::result::Result<Option<Vec<u8>>, sled::Error>) -> (answer: std::result::Result<
    Option<Api>,
    Error,
>)
    ensures
        match found {
            Err(fault) => answer == Err::<Option<Api>, Error>(Error::Db(fault)),
            Ok(None) => answer == Ok::<Option<Api>, Error>(None),
            Ok(Some(bytes)) => match decoding(bytes@) {
                Some(record) => answer matches Ok(Some(api)) && api@ == record,
                None => answer matches Err(Error::Bincode(_)),
            },
        },
{
    match found {
        Err(fault) => Err(Error::Db(fault)),
        Ok(None) => Ok(None),
        Ok(Some(bytes)) => match Api::decode(bytes.as_slice()) {
            Ok(api) => Ok(Some(api)),
            Err(e) => Err(e),
        },
    }
}

/// Whether a record may be created under a name, given what the store
/// returned for the name's key: only where it returned no entry. A fault of
/// the store is passed on, and an entry means that the name is taken.
pub fn check_vacant(name: &str, found: std::result::Result<Option<Vec<u8>>, sled::Error>) -> (outcome:
    std::result::Result<(), Error>)
    ensures
        match found {
            Err(fault) => outcome == Err::<(), Error>(Error::Db(fault)),
            Ok(None) => outcome == Ok::<(), Error>(()),
            Ok(Some(_)) => outcome matches Err(Error::ApiAlreadyExists(taken)) && taken@ == name@,
        },
{
    match found {
        Err(fault) => Err(Error::Db(fault)),
        Ok(None) => Ok(()),
        Ok(Some(_)) => Err(Error::ApiAlreadyExists(name.to_owned())),
    }
}

/// What a create reports of its write, given what the store returned for
/// it: the write stands where the store made it, the name is taken where the
/// store found an entry in the way, and a fault of the store is passed on.
pub fn check_written(
    name: &str,
    swapped: std::result::Result<std::result::Result<(), sled::CompareAndSwapError>, sled::Error>,
) -> (outcome: std::result::Result<(), Error>)
    ensures
        match swapped {
            Err(fault) => outcome == Err::<(), Error>(Error::Db(fault)),
            Ok(Ok(())) => outcome == Ok::<(), Error>(()),
            Ok(Err(_)) => outcome matches Err(Error::ApiAlreadyExists(taken)) && taken@ == name@,
        },
{
    match swapped {
        Err(fault) => Err(Error::Db(fault)),
        Ok(Ok(())) => Ok(()),
        Ok(Err(_)) => Err(Error::ApiAlreadyExists(name.to_owned())),
    }
}

/// What a create reports in the end, given what the store returned for the
/// flush: success where the flush went through, and else the fault of the
/// flush, never success.
pub fn check_flushed(flushed: std::result::Result<usize, sled::Error>) -> (outcome: std::result::Result<
    (),
    Error,
>)
    ensures
        match flushed {
            Err(fault) => outcome == Err::<(), Error>(Error::Db(fault)),
            Ok(_) => outcome == Ok::<(), Error>(()),
        },
{
    match flushed {
        Err(fault) => Err(Error::Db(fault)),
        Ok(_) => Ok(()),
    }
}

/// The fixed place of the durable store.
pub const STORE_PATH: &'static str = "auth_proxy";

/// A handle to the durable store that holds the records, and the only one
/// to that store. The handle owns the store: its entries change through
/// `new_api` alone. Its view is the map of these entries.
pub struct Storage {
    db: sled::Db,
}

impl View for Storage {
    type V = Map<Seq<u8>, Seq<u8>>;

    /// The entries of the store: key bytes to value bytes.
    closed spec fn view(&self) -> Map<Seq<u8>, Seq<u8>> {
        db_entries(self.db)
    }
}

impl Storage {
    /// The entries as the last flush left them on disk: what survives a
    /// crash at the least.
    pub closed spec fn flushed(&self) -> Map<Seq<u8>, Seq<u8>> {
        db_flushed(self.db)
    }

    /// The path of the store that the handle is a handle to.
    pub closed spec fn location(&self) -> Seq<char> {
        db_path(self.db)
    }
}

impl Storage {
    /// Opens the store at its fixed place, creating it where there is none.
    /// A store that cannot be opened is reported, not masked: the outcome is
    /// a handle to the store at `STORE_PATH`, or the fault of the store.
    pub fn open() -> (opened: std::result::Result<Storage, Error>)
        ensures
            match opened {
                Ok(storage) => storage.location() == STORE_PATH@,
                Err(e) => e is Db,
            },
    {
        Storage::open_at(STORE_PATH)
    }

    /// Opens the store at a place of the caller's choice, creating it where
    /// there is none: for a registry that is kept elsewhere than at the
    /// fixed place. A store that another handle holds open cannot be
    /// opened.
    pub fn open_at(path: &str) -> (opened: std::result::Result<Storage, Error>)
        ensures
            match opened {
                Ok(storage) => storage.location() == path@,
                Err(e) => e is Db,
            },
    {
        Storage::opened(db_open(path))
    }

    /// Makes a store of its own that is gone when the handle goes: for
    /// trying the registry out, and for tests. The store is new and holds no
    /// record.
    pub fn temporary() -> (opened: std::result::Result<Storage, Error>)
        ensures
            match opened {
                Ok(storage) => storage@ == no_entries(),
                Err(e) => e is Db,
            },
    {
        Storage::opened(db_open_temporary())
    }

    /// The outcome of opening, given what the store returned: a store that
    /// was opened is taken over as it is, and a fault is passed on.
    fn opened(outcome: std::result::Result<sled::Db, sled::Error>) -> (opened: std::result::Result<
        Storage,
        Error,
    >)
        ensures
            match outcome {
                Ok(db) => {
                    &&& opened matches Ok(storage)
                    &&& storage@ == db_entries(db)
                    &&& storage.flushed() == db_flushed(db)
                    &&& storage.location() == db_path(db)
                },
                Err(fault) => opened == Err::<Storage, Error>(Error::Db(fault)),
            },
    {
        match outcome {
            Ok(db) => Ok(Storage { db }),
            Err(fault) => Err(Error::Db(fault)),
        }
    }

    /// Looks a record up by name. The three outcomes stay apart: the record,
    /// no record, and an error; an entry that does not decode is an error,
    /// never "no record". No record is made up: one that is returned is
    /// spelt out by the bytes stored under the name, and a decoding error
    /// comes only for bytes that spell out no record.
    pub fn get_api(&self, name: &str) -> (answer: std::result::Result<Option<Api>, Error>)
        ensures
            reads(self@, name@, answer),
    {
        read_found(db_get(&self.db, name.as_bytes()))
    }

    /// Creates a record under a name that is not taken yet. The steps, in
    /// order: encode the record; look the name up and refuse a name that is
    /// taken, with nothing written; write the encoded record under the name
    /// if the name is still free, in one step of the store; flush the store
    /// to disk. Success is reported only after the flush: by then every
    /// entry is on disk, the new one among them. Where the write or the
    /// flush faults, the fault is reported and the entry taken back.
    pub fn new_api(&mut self, name: &str, api: &Api) -> (outcome: std::result::Result<(), Error>)
        ensures
            creates(old(self)@, final(self)@, name@, api@, outcome),
            outcome is Ok ==> final(self).flushed() == final(self)@,
            final(self).location() == old(self).location(),
    {
        let data = match api.encode() {
            Ok(data) => data,
            Err(e) => return Err(e),
        };
        match check_vacant(name, db_get(&self.db, name.as_bytes())) {
            Ok(()) => {},
            Err(e) => return Err(e),
        }
        let written = check_written(
            name,
            db_compare_and_swap(&mut self.db, name.as_bytes(), None, Some(data.as_slice())),
        );
        let outcome = match written {
            Ok(()) => check_flushed(db_flush(&mut self.db)),
            Err(e) => Err(e),
        };
        if matches!(outcome, Err(Error::Db(_))) {
            self.take_back(name.as_bytes(), data.as_slice());
            assert(old(self)@.insert(key_of(name@), data@).remove(key_of(name@)) =~= old(self)@);
        }
        outcome
    }

    /// Takes an entry back that a failed create may have left: the entry
    /// goes if the key still holds these bytes. The store may fault at this
    /// too, and then the entry may stay.
    fn take_back(&mut self, key: &[u8], data: &[u8])
        ensures
            final(self).location() == old(self).location(),
            final(self)@ == old(self)@ || {
                &&& holds(old(self)@, key@, Some(data@))
                &&& final(self)@ == old(self)@.remove(key@)
            },
    {
        let _ = db_compare_and_swap(&mut self.db, key, Some(data), None);
    }
}

/// The place of the one store handle of a process: empty until the store
/// has been opened, and from then on never set again.
pub struct Registry {
    storage: Option<Storage>,
}

impl Registry {
    /// The handle that has been installed, if any.
    pub closed spec fn installed(&self) -> Option<Storage> {
        self.storage
    }

    /// A registry in which nothing has been installed yet.
    pub fn new() -> (registry: Registry)
        ensures
            registry.installed() is None,
    {
        Registry { storage: None }
    }

    /// Installs a handle, once: a registry that holds one already keeps it
    /// and refuses the new one.
    pub fn install(&mut self, storage: Storage) -> (outcome: std::result::Result<(), Error>)
        ensures
            match old(self).installed() {
                Some(_) => {
                    &&& outcome == Err::<(), Error>(Error::CellSetError)
                    &&& *final(self) == *old(self)
                },
                None => outcome == Ok::<(), Error>(()) && final(self).installed() == Some(storage),
            },
    {
        if self.storage.is_some() {
            return Err(Error::CellSetError);
        }
        self.storage = Some(storage);
        Ok(())
    }
}

/// Whether `init` may report `outcome` and leave the registry as `after`,
/// when called on the registry `before`: a registry that holds a handle
/// keeps it and the call is refused; an empty one holds a handle to the
/// store at `STORE_PATH` after success, and stays empty where the store
/// could not be opened.
pub open spec fn initializes(before: Registry, after: Registry, outcome: std::result::Result<(), Error>) -> bool {
    match outcome {
        Ok(()) => {
            &&& before.installed() is None
            &&& after.installed() matches Some(storage)
            &&& storage.location() == STORE_PATH@
        },
        Err(Error::CellSetError) => before.installed() is Some && after == before,
        Err(Error::Db(_)) => before.installed() is None && after == before,
        Err(_) => false,
    }
}

/// Opens the durable store and installs its handle in the registry. This
/// happens once: on a registry that holds a handle the call fails, opens
/// nothing and leaves the handle in place.
pub fn init(registry: &mut Registry) -> (outcome: std::result::Result<(), Error>)
    ensures
        initializes(*old(registry), *final(registry), outcome),
{
    if registry.storage.is_some() {
        return Err(Error::CellSetError);
    }
    match Storage::open() {
        Ok(storage) => registry.install(storage),
        Err(e) => Err(e),
    }
}

/// The installed handle, or none where `init` has not succeeded yet.
pub fn get(registry: &Registry) -> (handle: Option<&Storage>)
    ensures
        match handle {
            Some(storage) => registry.installed() == Some(*storage),
            None => registry.installed() is None,
        },
{
    registry.storage.as_ref()
}

/// The installed handle for creating records, or none where `init` has not
/// succeeded yet. What is done to the store through it is done to the
/// registry's store.
pub fn get_mut(registry: &mut Registry) -> (handle: Option<&mut Storage>)
    ensures
        match handle {
            Some(storage) => {
                &&& old(registry).installed() == Some(*storage)
                &&& final(registry).installed() == Some(*final(storage))
            },
            None => old(registry).installed() is None && *final(registry) == *old(registry),
        },
{
    match &mut registry.storage {
        Some(storage) => Some(storage),
        None => None,
    }
}

} // verus!
