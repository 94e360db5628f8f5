use vstd::prelude::*;

verus! {

/// Storing a payload under a key and then looking that key up yields
/// exactly that payload: after a successful `DBManager::insert_data`
/// the store's view holds the inserted payload under the returned
/// identifier's key bytes, and that is what a successful
/// `DBManager::get_by_id` on the identifier hands back.
pub proof fn lemma_insert_then_get(entries: Map<Seq<u8>, Seq<u8>>, key: Seq<u8>, payload: Seq<u8>)
    ensures
        entries.insert(key, payload).contains_key(key),
        entries.insert(key, payload)[key] == payload,
{
}

/// A deleted key is afterwards absent: after a successful
/// `DBManager::delete_by_id` the store's view no longer holds the
/// identifier's key bytes, so `DBManager::get_by_id` on that
/// identifier reports an error.
pub proof fn lemma_delete_then_get(entries: Map<Seq<u8>, Seq<u8>>, key: Seq<u8>)
    ensures
        !entries.remove(key).contains_key(key),
{
}

/// An insert never shrinks the record count (the length that
/// `DBManager::get_all_data` reports): it stays, or rises by one when
/// the key is fresh.
pub proof fn lemma_insert_count(entries: Map<Seq<u8>, Seq<u8>>, key: Seq<u8>, payload: Seq<u8>)
    requires
        entries.dom().finite(),
    ensures
        entries.insert(key, payload).dom().len() >= entries.dom().len(),
        !entries.contains_key(key) ==> entries.insert(key, payload).dom().len()
            == entries.dom().len() + 1,
        entries.contains_key(key) ==> entries.insert(key, payload).dom().len()
            == entries.dom().len(),
{
    assert(entries.insert(key, payload).dom() =~= entries.dom().insert(key));
    vstd::set::axiom_set_insert_len(entries.dom(), key);
}

/// A delete of a present key lowers the record count by exactly one.
pub proof fn lemma_delete_count(entries: Map<Seq<u8>, Seq<u8>>, key: Seq<u8>)
    requires
        entries.dom().finite(),
        entries.contains_key(key),
    ensures
        entries.remove(key).dom().len() == entries.dom().len() - 1,
{
    assert(entries.remove(key).dom() =~= entries.dom().remove(key));
    vstd::set::axiom_set_remove_len(entries.dom(), key);
}

} // verus!
