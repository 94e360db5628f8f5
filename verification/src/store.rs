use vstd::prelude::*;
use crate::errors::{fault_text_of, DBError, DBErrorKind, StoreFault};
use crate::ids::{gen_id, is_uuid_v4_text, Id};

verus! {

#[verifier::external_type_specification]
#[verifier::external_body]
pub struct ExDb(sled::Db);

#[verifier::external_type_specification]
#[verifier::external_body]
pub struct ExSledError(sled::Error);

/// What the tree behind a handle currently holds: a map from byte keys
/// to byte payloads. This store writes every key as the UTF-8 bytes of
/// an identifier. The contracts below read the handle as the tree's
/// only writer while the store is open; callers that share a store
/// must serialize their access around it.
pub uninterp spec fn db_entries(db: sled::Db) -> Map<Seq<u8>, Seq<u8>>;

/// Every element of `vs` is a payload that `entries` holds under some
/// key.
pub open spec fn payloads_from(vs: Seq<Vec<u8>>, entries: Map<Seq<u8>, Seq<u8>>) -> bool {
    forall|i: int| #![trigger vs[i]]
        0 <= i < vs.len() ==> exists|k: Seq<u8>| #![trigger entries[k]]
            entries.contains_key(k) && vs[i]@ == entries[k]
}

/// The elements of `vs` are the payloads of pairwise distinct entries
/// of `entries`: some sequence of distinct keys matches them one to
/// one, so no entry is handed out twice.
pub open spec fn payloads_matched(vs: Seq<Vec<u8>>, entries: Map<Seq<u8>, Seq<u8>>) -> bool {
    exists|keys: Seq<Seq<u8>>| #![trigger keys.len()]
        {
            &&& keys.len() == vs.len()
            &&& forall|i: int, j: int| 0 <= i < j < keys.len() ==> keys[i] != keys[j]
            &&& forall|i: int|
                0 <= i < vs.len() ==> entries.contains_key(#[trigger] keys[i]) && vs[i]@
                    == entries[keys[i]]
        }
}

/// Relies on the variants of sled::Error: each is carried over onto the
/// library's own fault type, moving the carried text along; an io error
/// is rendered as its display text.
#[verifier::external_body]
fn fault_of(e: sled::Error) -> (r: StoreFault) {
    match e {
        sled::Error::CollectionNotFound(_) => StoreFault::CollectionNotFound,
        sled::Error::Unsupported(msg) => StoreFault::Unsupported(msg),
        sled::Error::ReportableBug(msg) => StoreFault::ReportableBug(msg),
        sled::Error::Io(io_err) => StoreFault::Io(format!("{}", io_err)),
        sled::Error::Corruption { .. } => StoreFault::Corruption,
    }
}

/// Relies on sled::open: recovers the tree persisted under `path`,
/// creating one if the path holds none. What the tree holds depends on
/// the disk, so nothing is said of the entries beyond that they are
/// finitely many.
#[verifier::external_body]
fn tree_open(path: &str) -> (r: Result<sled::Db, sled::Error>)
    ensures
        r matches Ok(db) ==> db_entries(db).dom().finite(),
{
    sled::open(path)
}

/// Relies on sled::Tree::insert: maps `key` to `value`, handing back
/// the payload the key held before, if any. An error does not pin the
/// entries down: the in-memory page change can link in before the log
/// write fails, so on failure the entries are either unchanged or
/// already hold the update — nothing else. A tree always holds
/// finitely many entries.
#[verifier::external_body]
fn tree_insert(db: &mut sled::Db, key: &[u8], value: Vec<u8>) -> (r: Result<
    Option<Vec<u8>>,
    sled::Error,
>)
    ensures
        db_entries(*final(db)).dom().finite(),
        r matches Err(_) ==> db_entries(*final(db)) == db_entries(*old(db)) || db_entries(
            *final(db),
        ) == db_entries(*old(db)).insert(key@, value@),
        r matches Ok(prev) ==> {
            &&& db_entries(*final(db)) == db_entries(*old(db)).insert(key@, value@)
            &&& (prev matches Some(p) ==> db_entries(*old(db)).contains_key(key@) && p@
                == db_entries(*old(db))[key@])
            &&& (prev matches None ==> !db_entries(*old(db)).contains_key(key@))
        },
{
    db.insert(key, value).map(|prev| prev.map(|v| v.to_vec()))
}

/// Relies on sled::Tree::get: hands back the payload under `key` if the
/// tree holds one.
#[verifier::external_body]
fn tree_get(db: &sled::Db, key: &[u8]) -> (r: Result<Option<Vec<u8>>, sled::Error>)
    ensures
        r matches Ok(found) ==> match found {
            Some(v) => db_entries(*db).contains_key(key@) && v@ == db_entries(*db)[key@],
            None => !db_entries(*db).contains_key(key@),
        },
{
    db.get(key).map(|found| found.map(|v| v.to_vec()))
}

/// Relies on sled::Tree::remove: takes the entry under `key` out,
/// handing back the payload it held, if any. An error does not pin the
/// entries down: the in-memory page change can link in before the log
/// write fails, so on failure the entries are either unchanged or
/// already without the key — nothing else. A tree always holds
/// finitely many entries.
#[verifier::external_body]
fn tree_remove(db: &mut sled::Db, key: &[u8]) -> (r: Result<Option<Vec<u8>>, sled::Error>)
    ensures
        db_entries(*final(db)).dom().finite(),
        r matches Err(_) ==> db_entries(*final(db)) == db_entries(*old(db)) || db_entries(
            *final(db),
        ) == db_entries(*old(db)).remove(key@),
        r matches Ok(prev) ==> {
            &&& db_entries(*final(db)) == db_entries(*old(db)).remove(key@)
            &&& (prev matches Some(p) ==> db_entries(*old(db)).contains_key(key@) && p@
                == db_entries(*old(db))[key@])
            &&& (prev matches None ==> !db_entries(*old(db)).contains_key(key@))
        },
{
    db.remove(key).map(|prev| prev.map(|v| v.to_vec()))
}

/// Relies on sled::Tree::flush: forces every buffered write down to
/// durable storage, reporting how many bytes went out. The entries are
/// untouched.
#[verifier::external_body]
fn tree_flush(db: &sled::Db) -> (r: Result<usize, sled::Error>) {
    db.flush()
}

/// Relies on sled::Tree::iter: walks the tree's entries in key order,
/// each key once, carrying each payload over; the walk stops at the
/// first storage error.
#[verifier::external_body]
fn tree_values(db: &sled::Db) -> (r: Result<Vec<Vec<u8>>, sled::Error>)
    ensures
        r matches Ok(vs) ==> {
            &&& vs@.len() == db_entries(*db).dom().len()
            &&& payloads_from(vs@, db_entries(*db))
            &&& payloads_matched(vs@, db_entries(*db))
        },
{
    db.iter().map(|entry| entry.map(|(_, v)| v.to_vec())).collect()
}

/// Turns the outcome of a probing read into the store's answer: a
/// found payload is handed back as it is; an absent key becomes the
/// sourceless read failure with an empty text; an engine fault becomes
/// the error that records the fault's text as its source.
pub fn classify_read(found: Result<Option<Vec<u8>>, StoreFault>) -> (r: Result<Vec<u8>, DBError>)
    ensures
        found matches Ok(Some(v)) ==> r matches Ok(w) && w@ == v@,
        found matches Ok(None) ==> (r matches Err(e) && e.spec_kind()
            matches DBErrorKind::ReadFailed(m) && m@ == ""@ && e.spec_source() matches None),
        found matches Err(f) ==> (r matches Err(e) && e.spec_source() matches Some(s) && s@
            == fault_text_of(f) && (e.spec_kind() matches DBErrorKind::NotFound(_)
            || e.spec_kind() matches DBErrorKind::Other(_))),
{
    match found {
        Ok(Some(v)) => Ok(v),
        Ok(None) => {
            proof {
                reveal_strlit("");
                assert(""@ =~= Seq::<char>::empty());
            }
            Err(DBError::new(DBErrorKind::ReadFailed(String::new())))
        },
        Err(f) => Err(DBError::from_fault(f)),
    }
}

/// Turns the outcome of a removal into the store's answer: a taken-out
/// payload becomes the success message; a key the removal did not find
/// becomes the sourceless not-found error; an engine fault becomes the
/// error that records the fault's text as its source.
pub fn classify_removal(outcome: Result<Option<Vec<u8>>, StoreFault>) -> (r: Result<
    String,
    DBError,
>)
    ensures
        outcome matches Ok(Some(_)) ==> (r matches Ok(msg) && msg@
            == "data successfully removed"@),
        outcome matches Ok(None) ==> (r matches Err(e) && e.spec_kind()
            matches DBErrorKind::NotFound(m) && m@ == "delete operation failed"@
            && e.spec_source() matches None),
        outcome matches Err(f) ==> (r matches Err(e) && e.spec_source() matches Some(s) && s@
            == fault_text_of(f) && (e.spec_kind() matches DBErrorKind::NotFound(_)
            || e.spec_kind() matches DBErrorKind::Other(_))),
{
    match outcome {
        Ok(Some(_)) => Ok(String::from_str("data successfully removed")),
        Ok(None) => Err(
            DBError::new(DBErrorKind::NotFound(String::from_str("delete operation failed"))),
        ),
        Err(f) => Err(DBError::from_fault(f)),
    }
}

/// A handle on one on-disk store: the engine connection, and the path
/// the store was opened at.
#[derive(Debug)]
pub struct DBManager {
    conn: sled::Db,
    pub database_name: String,
}

impl View for DBManager {
    type V = Map<Seq<u8>, Seq<u8>>;

    /// A store is read as the map it holds, from UTF-8 key bytes to
    /// serialized payloads.
    closed spec fn view(&self) -> Map<Seq<u8>, Seq<u8>> {
        db_entries(self.conn)
    }
}

impl DBManager {
    /// The name (the path) this store was opened under.
    pub closed spec fn spec_name(&self) -> Seq<char> {
        self.database_name@
    }

    /// Draws a new identifier for a record: the 36-character text of a
    /// random version-4 UUID.
    pub fn gen_id(&self) -> (r: String)
        ensures
            is_uuid_v4_text(r@),
            r@.len() == 36,
    {
        gen_id()
    }

    /// Opens (or creates) the store persisted under `database_name`.
    /// On success the handle remembers that name; what the store holds
    /// is whatever the disk held. Failure reports the engine's fault,
    /// which is never a read or write failure of a single record.
    pub fn new(database_name: String) -> (r: Result<DBManager, DBError>)
        ensures
            r matches Ok(m) ==> m.spec_name() == database_name@ && m@.dom().finite(),
            r matches Err(e) ==> (e.spec_kind() matches DBErrorKind::NotFound(_)
                || e.spec_kind() matches DBErrorKind::Other(_)) && e.spec_source()
                matches Some(_),
    {
        let name = database_name.clone();
        match tree_open(database_name.as_str()) {
            Ok(conn) => Ok(DBManager { conn, database_name: name }),
            Err(e) => Err(DBError::from_fault(fault_of(e))),
        }
    }

    /// Stores a record: asks the record for an identifier, writes the
    /// serialized payload under that identifier's bytes, and hands the
    /// identifier back. Success upserts: the store afterwards holds
    /// exactly the old entries plus this one. A write the engine
    /// rejects is reported as a write failure carrying the engine's
    /// text; the store then either kept its old entries or already
    /// holds the payload (the engine can fail after installing the
    /// update), so the record count never shrinks either way.
    pub fn insert_data<T: Id>(&mut self, data: T, payload: Vec<u8>) -> (r: Result<String, DBError>)
        ensures
            final(self).spec_name() == old(self).spec_name(),
            final(self)@.dom().finite(),
            r matches Ok(id) ==> final(self)@ == old(self)@.insert(
                vstd::utf8::encode_utf8(id@),
                payload@,
            ),
            r matches Err(_) ==> final(self)@ == old(self)@ || (exists|k: Seq<u8>|
                final(self)@ == old(self)@.insert(k, payload@)),
            r matches Err(e) ==> e.spec_kind() matches DBErrorKind::WriteFailed(m)
                && e.spec_source() matches Some(s) && s@ == m@,
            old(self)@.dom().finite() ==> final(self)@.dom().len() >= old(self)@.dom().len(),
    {
        let id = data.gen_id();
        let ghost key = vstd::utf8::encode_utf8(id@);
        let ghost value = payload@;
        match tree_insert(&mut self.conn, id.as_str().as_bytes(), payload) {
            Err(e) => {
                proof {
                    assert(self@ == old(self)@ || self@ == old(self)@.insert(key, value));
                    if old(self)@.dom().finite() {
                        crate::laws::lemma_insert_count(old(self)@, key, value);
                    }
                }
                Err(DBError::from_write_fault(fault_of(e)))
            },
            Ok(_) => {
                proof {
                    if old(self)@.dom().finite() {
                        crate::laws::lemma_insert_count(old(self)@, key, value);
                    }
                }
                Ok(id)
            },
        }
    }

    /// Looks a record up by its identifier. Success hands back exactly
    /// the payload stored under the identifier's bytes; an absent
    /// identifier is reported as a read failure with an empty text, and
    /// a read failure is only ever reported for an absent identifier.
    /// Every other error records the engine fault it came from as its
    /// source.
    pub fn get_by_id(&self, id: String) -> (r: Result<Vec<u8>, DBError>)
        ensures
            r matches Ok(v) ==> self@.contains_key(vstd::utf8::encode_utf8(id@)) && v@
                == self@[vstd::utf8::encode_utf8(id@)],
            !self@.contains_key(vstd::utf8::encode_utf8(id@)) ==> r matches Err(_),
            r matches Err(e) ==> (e.spec_kind() matches DBErrorKind::ReadFailed(m) ==> !self@.contains_key(
                vstd::utf8::encode_utf8(id@),
            ) && m@ == ""@),
            r matches Err(e) ==> !(e.spec_kind() matches DBErrorKind::WriteFailed(_)),
            r matches Err(e) ==> e.spec_source() matches Some(_) || (e.spec_kind()
                matches DBErrorKind::ReadFailed(m) && m@ == ""@ && !self@.contains_key(
                vstd::utf8::encode_utf8(id@),
            )),
            self@.contains_key(vstd::utf8::encode_utf8(id@)) ==> (r matches Err(e)
                ==> e.spec_source() matches Some(_)),
    {
        let found = match tree_get(&self.conn, id.as_str().as_bytes()) {
            Ok(o) => Ok(o),
            Err(e) => Err(fault_of(e)),
        };
        classify_read(found)
    }

    /// Removes the record stored under `id`. Success means the
    /// identifier was present: afterwards the store holds the old
    /// entries without it. An absent identifier is reported as
    /// not-found with the text "delete operation failed" and the store
    /// is unchanged, as when the probing read is rejected; a rejected
    /// removal reports the engine's fault with its text as the source,
    /// and can only arise for a present identifier — the store then
    /// either kept its entries or is already without the key, so the
    /// record count never grows.
    pub fn delete_by_id(&mut self, id: String) -> (r: Result<String, DBError>)
        ensures
            final(self).spec_name() == old(self).spec_name(),
            old(self)@.dom().finite() ==> final(self)@.dom().finite(),
            r matches Ok(msg) ==> old(self)@.contains_key(vstd::utf8::encode_utf8(id@))
                && final(self)@ == old(self)@.remove(vstd::utf8::encode_utf8(id@)) && msg@
                == "data successfully removed"@,
            r matches Err(_) ==> final(self)@ == old(self)@ || final(self)@ == old(
                self,
            )@.remove(vstd::utf8::encode_utf8(id@)),
            !old(self)@.contains_key(vstd::utf8::encode_utf8(id@)) ==> (r matches Err(e)
                && e.spec_kind() matches DBErrorKind::NotFound(m) && m@
                == "delete operation failed"@ && final(self)@ == old(self)@),
            r matches Err(e) ==> (e.spec_kind() matches DBErrorKind::NotFound(_)
                || e.spec_kind() matches DBErrorKind::Other(_)),
            r matches Err(e) ==> e.spec_source() matches Some(_) || (e.spec_kind()
                matches DBErrorKind::NotFound(m) && m@ == "delete operation failed"@),
            r matches Err(e) ==> (e.spec_source() matches Some(_) ==> old(self)@.contains_key(
                vstd::utf8::encode_utf8(id@),
            )),
            old(self)@.dom().finite() ==> final(self)@.dom().len() <= old(self)@.dom().len(),
    {
        let ghost key = vstd::utf8::encode_utf8(id@);
        match tree_get(&self.conn, id.as_str().as_bytes()) {
            Ok(Some(_)) => {
                let outcome = match tree_remove(&mut self.conn, id.as_str().as_bytes()) {
                    Ok(o) => Ok(o),
                    Err(e) => Err(fault_of(e)),
                };
                proof {
                    // The probing read saw the key and nothing wrote in
                    // between, so the removal cannot have missed it.
                    assert(!(outcome matches Ok(None)));
                    if old(self)@.dom().finite() {
                        assert(old(self)@.remove(key).dom() =~= old(self)@.dom().remove(key));
                        vstd::set::axiom_set_remove_len(old(self)@.dom(), key);
                    }
                }
                classify_removal(outcome)
            },
            Ok(None) => Err(DBError::new(DBErrorKind::NotFound(
                String::from_str("delete operation failed"),
            ))),
            Err(_) => Err(DBError::new(DBErrorKind::NotFound(
                String::from_str("delete operation failed"),
            ))),
        }
    }

    /// Hands back every stored payload, one per record, in the
    /// engine's key order: exactly as many as the store holds entries,
    /// each matched to its own entry. If the walk over the store
    /// fails, the engine's fault is reported instead.
    pub fn get_all_data(&self) -> (r: Result<Vec<Vec<u8>>, DBError>)
        ensures
            r matches Ok(vs) ==> vs@.len() == self@.dom().len() && payloads_from(vs@, self@)
                && payloads_matched(vs@, self@),
            r matches Err(e) ==> (e.spec_kind() matches DBErrorKind::NotFound(_)
                || e.spec_kind() matches DBErrorKind::Other(_)) && e.spec_source()
                matches Some(_),
    {
        match tree_values(&self.conn) {
            Ok(vs) => Ok(vs),
            Err(e) => Err(DBError::from_fault(fault_of(e))),
        }
    }

    /// Flushes every buffered write down to durable storage, reporting
    /// the engine's fault if the flush fails. The store's entries are
    /// untouched either way.
    pub fn close(&self) -> (r: Result<(), DBError>)
        ensures
            r matches Err(e) ==> (e.spec_kind() matches DBErrorKind::NotFound(_)
                || e.spec_kind() matches DBErrorKind::Other(_)) && e.spec_source()
                matches Some(_),
    {
        match tree_flush(&self.conn) {
            Ok(_) => Ok(()),
            Err(e) => Err(DBError::from_fault(fault_of(e))),
        }
    }
}

} // verus!
