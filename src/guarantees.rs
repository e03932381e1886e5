//! What the protocols guarantee across their steps.
use crate::client::{accepts, delete_at, finish, start_delete, step, Outcome, Phase, Progress, Reply, Request};
use crate::error::IpseClientError;
use crate::ledger::{first_match, has_match, is_first_match, lemma_first_match, DeleteCall, OrdersStore};
use vstd::prelude::*;

verus! {

/// Once an add has its order id and its bytes are stored, the id stays in
/// the cache: a deletion of the same key right after goes straight to the
/// delete call for the order the bytes were stored under, with no read of
/// the ledger's orders.
pub proof fn lemma_warm_cache_after_add(
    cache: Map<Seq<u8>, u64>,
    owner: Seq<u8>,
    key: Vec<u8>,
    file: Vec<u8>,
    phase: Phase,
    reply: Reply,
    handle: String,
)
    requires
        phase == (Phase::AddSubmitting { key, file }) || phase == (Phase::AddResolving { key, file }),
        accepts(phase, reply),
    ensures
        ({
            let (c1, ph1, g1) = step(cache, owner, phase, reply);
            ph1 is AddStoring ==> {
                let target = ph1->target;
                let (c2, ph2, g2) = step(c1, owner, ph1, Reply::Stored(Ok(handle)));
                &&& g1 == Progress::Pending(Request::Store { target, file })
                &&& g2 == Progress::Finished(Ok(Outcome::Added(handle)))
                &&& c2.contains_key(key@) && c2[key@] == target
                &&& start_delete(c2, key) == delete_at(c2, key, target)
                &&& start_delete(c2, key).2 == Progress::Pending(
                    Request::SubmitDelete(DeleteCall { order_id: target }),
                )
            }
        }),
{
}

/// With the key not cached but its order on the ledger, a deletion reads
/// the ledger's orders once, deletes the first order of the signer under
/// the key, removes its bytes and succeeds, and leaves the key uncached.
pub proof fn lemma_cold_resolution(
    cache: Map<Seq<u8>, u64>,
    owner: Seq<u8>,
    key: Vec<u8>,
    store: OrdersStore,
)
    requires
        store.orders@.len() <= u64::MAX,
        !cache.contains_key(key@),
        has_match(store.orders@, key@, owner),
    ensures
        ({
            let id = first_match(store.orders@, key@, owner)->0;
            let (c0, ph0, g0) = start_delete(cache, key);
            let (c1, ph1, g1) = step(c0, owner, ph0, Reply::Orders(Ok(store)));
            let (c2, ph2, g2) = step(c1, owner, ph1, Reply::Submitted(Ok(())));
            let (c3, ph3, g3) = step(c2, owner, ph2, Reply::Removed(Ok(())));
            &&& is_first_match(store.orders@, key@, owner, id as int)
            &&& g0 == Progress::Pending(Request::ListOrders)
            &&& g1 == Progress::Pending(Request::SubmitDelete(DeleteCall { order_id: id }))
            &&& g2 == Progress::Pending(Request::Remove { target: id })
            &&& g3 == Progress::Finished(Ok(Outcome::Deleted))
            &&& ph3 is Idle
            &&& !c3.contains_key(key@)
        }),
{
    lemma_first_match(store.orders@, key@, owner);
}

/// With the key neither cached nor on the ledger, a deletion reads the
/// ledger's orders and fails with `NoOrderFound`, asking for no delete call
/// and no removal.
pub proof fn lemma_not_found(cache: Map<Seq<u8>, u64>, owner: Seq<u8>, key: Vec<u8>, store: OrdersStore)
    requires
        store.orders@.len() <= u64::MAX,
        !cache.contains_key(key@),
        !has_match(store.orders@, key@, owner),
    ensures
        ({
            let (c0, ph0, g0) = start_delete(cache, key);
            &&& g0 == Progress::Pending(Request::ListOrders)
            &&& step(c0, owner, ph0, Reply::Orders(Ok(store))) == finish(
                cache,
                Err(IpseClientError::NoOrderFound),
            )
        }),
{
    lemma_first_match(store.orders@, key@, owner);
}

/// When storing fails after the order was created, the add fails with the
/// storage error and ends there: no delete call rolls the order back.
pub proof fn lemma_orphan_on_store_failure(
    cache: Map<Seq<u8>, u64>,
    owner: Seq<u8>,
    key: Vec<u8>,
    target: u64,
    e: String,
)
    ensures
        step(cache, owner, Phase::AddStoring { key, target }, Reply::Stored(Err(e))) == finish(
            cache,
            Err(IpseClientError::StorageUpload(e)),
        ),
{
}

} // verus!
