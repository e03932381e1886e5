//! The add / get / delete protocols. The client decides; a transport carries
//! out each request it hands back and resumes it with the reply.
use crate::cache::OrderIdCache;
use crate::error::IpseClientError;
use crate::fingerprint::{fingerprint_of, make_merkle_root};
use crate::ledger::{first_match, AccountId, CreateOrderCall, DeleteCall, OrdersStore};
use vstd::prelude::*;

verus! {

/// What an operation in progress waits for.
pub enum Phase {
    Idle,
    /// The create call for `key` is out; `file` is still to be stored.
    AddSubmitting { key: Vec<u8>, file: Vec<u8> },
    /// The ledger's orders are asked for, to find the new order of `key`.
    AddResolving { key: Vec<u8>, file: Vec<u8> },
    /// The bytes of `key` are being stored under the order at `target`.
    AddStoring { key: Vec<u8>, target: u64 },
    /// Bytes are being fetched.
    GetFetching,
    /// The ledger's orders are asked for, to find the order of `key`.
    DeleteResolving { key: Vec<u8> },
    /// The delete call for the order of `key` at `order_id` is out.
    DeleteSubmitting { key: Vec<u8>, order_id: u64 },
    /// The stored bytes are being removed.
    DeleteRemoving,
}

/// What the transport is asked to do next.
pub enum Request {
    /// Sign and submit a create call.
    SubmitCreateOrder(CreateOrderCall),
    /// Read all orders of the ledger.
    ListOrders,
    /// Store `file` at the storage backend for the order at `target`.
    Store { target: u64, file: Vec<u8> },
    /// Fetch the bytes under a content handle.
    Fetch(String),
    /// Sign and submit a delete call.
    SubmitDelete(DeleteCall),
    /// Remove the bytes stored for the order at `target`.
    Remove { target: u64 },
}

/// What the transport reports back.
pub enum Reply {
    Submitted(Result<(), String>),
    Orders(Result<OrdersStore, String>),
    Stored(Result<String, String>),
    Fetched(Result<Vec<u8>, String>),
    Removed(Result<(), String>),
}

/// What a finished operation gives.
pub enum Outcome {
    /// The content handle under which the added bytes are stored.
    Added(String),
    Fetched(Vec<u8>),
    Deleted,
}

/// Either a request to carry out, or the end of the operation.
pub enum Progress {
    Pending(Request),
    Finished(Result<Outcome, IpseClientError>),
}

/// The reply is the kind that the phase waits for.
pub open spec fn accepts(phase: Phase, reply: Reply) -> bool {
    match phase {
        Phase::AddSubmitting { .. } | Phase::DeleteSubmitting { .. } => reply is Submitted,
        Phase::AddResolving { .. } | Phase::DeleteResolving { .. } => reply is Orders,
        Phase::AddStoring { .. } => reply is Stored,
        Phase::GetFetching => reply is Fetched,
        Phase::DeleteRemoving => reply is Removed,
        Phase::Idle => false,
    }
}

/// The order of `key` is known at `target`: store `file` under it.
pub open spec fn store_under(cache: Map<Seq<u8>, u64>, key: Vec<u8>, file: Vec<u8>, target: u64) -> (
    Map<Seq<u8>, u64>,
    Phase,
    Progress,
) {
    (
        cache,
        Phase::AddStoring { key, target },
        Progress::Pending(Request::Store { target, file }),
    )
}

/// The order of `key` is known at `order_id`: submit its deletion.
pub open spec fn delete_at(cache: Map<Seq<u8>, u64>, key: Vec<u8>, order_id: u64) -> (
    Map<Seq<u8>, u64>,
    Phase,
    Progress,
) {
    (
        cache,
        Phase::DeleteSubmitting { key, order_id },
        Progress::Pending(Request::SubmitDelete(DeleteCall { order_id })),
    )
}

/// The end of an operation, leaving the cache as it is.
pub open spec fn finish(cache: Map<Seq<u8>, u64>, r: Result<Outcome, IpseClientError>) -> (
    Map<Seq<u8>, u64>,
    Phase,
    Progress,
) {
    (cache, Phase::Idle, Progress::Finished(r))
}

/// The start of a deletion of the order under `key`: from the cache where
/// it holds the key, else by a scan of the ledger.
pub open spec fn start_delete(cache: Map<Seq<u8>, u64>, key: Vec<u8>) -> (
    Map<Seq<u8>, u64>,
    Phase,
    Progress,
) {
    if cache.contains_key(key@) {
        delete_at(cache, key, cache[key@])
    } else {
        (cache, Phase::DeleteResolving { key }, Progress::Pending(Request::ListOrders))
    }
}

/// The cache, the phase and the progress after `reply` comes in, for a
/// client signing as `owner`. Only replies that `accepts` admits reach it;
/// the arms for the others are never taken.
pub open spec fn step(cache: Map<Seq<u8>, u64>, owner: Seq<u8>, phase: Phase, reply: Reply) -> (
    Map<Seq<u8>, u64>,
    Phase,
    Progress,
) {
    match phase {
        Phase::AddSubmitting { key, file } => match reply {
            Reply::Submitted(Err(e)) => finish(cache, Err(IpseClientError::LedgerSubmission(e))),
            _ => if cache.contains_key(key@) {
                store_under(cache, key, file, cache[key@])
            } else {
                (cache, Phase::AddResolving { key, file }, Progress::Pending(Request::ListOrders))
            },
        },
        Phase::AddResolving { key, file } => match reply {
            Reply::Orders(Ok(store)) => match first_match(store.orders@, key@, owner) {
                Some(id) => store_under(cache.insert(key@, id), key, file, id),
                None => finish(cache, Err(IpseClientError::NoOrderFound)),
            },
            Reply::Orders(Err(e)) => finish(cache, Err(IpseClientError::LedgerQuery(e))),
            _ => finish(cache, Err(IpseClientError::NoOrderFound)),
        },
        Phase::AddStoring { .. } => match reply {
            Reply::Stored(Ok(h)) => finish(cache, Ok(Outcome::Added(h))),
            Reply::Stored(Err(e)) => finish(cache, Err(IpseClientError::StorageUpload(e))),
            _ => finish(cache, Err(IpseClientError::NoOrderFound)),
        },
        Phase::GetFetching => match reply {
            Reply::Fetched(Ok(b)) => finish(cache, Ok(Outcome::Fetched(b))),
            Reply::Fetched(Err(e)) => finish(cache, Err(IpseClientError::StorageDownload(e))),
            _ => finish(cache, Err(IpseClientError::NoOrderFound)),
        },
        Phase::DeleteResolving { key } => match reply {
            Reply::Orders(Ok(store)) => match first_match(store.orders@, key@, owner) {
                Some(id) => delete_at(cache.insert(key@, id), key, id),
                None => finish(cache, Err(IpseClientError::NoOrderFound)),
            },
            Reply::Orders(Err(e)) => finish(cache, Err(IpseClientError::LedgerQuery(e))),
            _ => finish(cache, Err(IpseClientError::NoOrderFound)),
        },
        Phase::DeleteSubmitting { key, order_id } => match reply {
            Reply::Submitted(Err(e)) => finish(cache, Err(IpseClientError::LedgerSubmission(e))),
            _ => (
                cache.remove(key@),
                Phase::DeleteRemoving,
                Progress::Pending(Request::Remove { target: order_id }),
            ),
        },
        Phase::DeleteRemoving => match reply {
            Reply::Removed(Ok(_)) => finish(cache, Ok(Outcome::Deleted)),
            Reply::Removed(Err(e)) => finish(cache, Err(IpseClientError::StorageDelete(e))),
            _ => finish(cache, Err(IpseClientError::NoOrderFound)),
        },
        Phase::Idle => finish(cache, Err(IpseClientError::NoOrderFound)),
    }
}

/// A client signing as one account, with its cache of order ids and the
/// operation it has in progress.
pub struct Client {
    signer: AccountId,
    key_to_id: OrderIdCache,
    phase: Phase,
}

impl Client {
    pub closed spec fn wf(&self) -> bool {
        self.key_to_id.wf()
    }

    /// The cached order ids, by key.
    pub closed spec fn cache(&self) -> Map<Seq<u8>, u64> {
        self.key_to_id@
    }

    /// The account the client signs as, and whose orders it resolves.
    pub closed spec fn signer(&self) -> Seq<u8> {
        self.signer@
    }

    pub closed spec fn phase(&self) -> Phase {
        self.phase
    }

    /// A client signing as `signer`, with an empty cache and nothing in progress.
    pub fn new(signer: AccountId) -> (r: Client)
        ensures
            r.wf(),
            r.cache() == Map::<Seq<u8>, u64>::empty(),
            r.signer() == signer@,
            r.phase() is Idle,
    {
        Client { signer, key_to_id: OrderIdCache::new(), phase: Phase::Idle }
    }

    /// Whether no operation is in progress.
    pub fn is_idle(&self) -> (r: bool)
        ensures
            r == (self.phase() is Idle),
    {
        match self.phase {
            Phase::Idle => true,
            _ => false,
        }
    }

    /// Whether the operation in progress waits for a reply of this kind.
    pub fn accepts(&self, reply: &Reply) -> (r: bool)
        ensures
            r == accepts(self.phase(), *reply),
    {
        match (&self.phase, reply) {
            (Phase::AddSubmitting { .. }, Reply::Submitted(_)) => true,
            (Phase::DeleteSubmitting { .. }, Reply::Submitted(_)) => true,
            (Phase::AddResolving { .. }, Reply::Orders(_)) => true,
            (Phase::DeleteResolving { .. }, Reply::Orders(_)) => true,
            (Phase::AddStoring { .. }, Reply::Stored(_)) => true,
            (Phase::GetFetching, Reply::Fetched(_)) => true,
            (Phase::DeleteRemoving, Reply::Removed(_)) => true,
            _ => false,
        }
    }

    /// The create call for an order of `file` under `key`.
    pub fn call_create_order(key: Vec<u8>, file: &Vec<u8>, miners: Vec<AccountId>, days: u64) -> (r:
        CreateOrderCall)
        ensures
            r.key == key,
            r.merkle_root@ == fingerprint_of(file@),
            r.data_length == file@.len(),
            r.miners == miners,
            r.days == days,
    {
        CreateOrderCall {
            key,
            merkle_root: make_merkle_root(file),
            data_length: file.len() as u64,
            miners,
            days,
        }
    }

    /// The order id cached for `key`.
    pub fn get_order_id(&self, key: &Vec<u8>) -> (r: Option<u64>)
        requires
            self.wf(),
        ensures
            r == (if self.cache().contains_key(key@) {
                Some(self.cache()[key@])
            } else {
                None
            }),
    {
        self.key_to_id.get(key)
    }

    /// The position of the signer's first order under `key` in `orders`,
    /// remembered in the cache where there is one.
    pub fn get_order_id_from_chain(&mut self, key: &Vec<u8>, orders: &OrdersStore) -> (r: Option<u64>)
        requires
            old(self).wf(),
        ensures
            final(self).wf(),
            final(self).signer() == old(self).signer(),
            final(self).phase() == old(self).phase(),
            r == first_match(orders.orders@, key@, old(self).signer()),
            final(self).cache() == match r {
                Some(id) => old(self).cache().insert(key@, id),
                None => old(self).cache(),
            },
    {
        let r = orders.find_order(key, &self.signer);
        if let Some(id) = r {
            self.key_to_id.insert(key.clone(), id);
        }
        r
    }

    /// Starts adding `file` under `key`: an empty file is refused; otherwise
    /// the create call, carrying the file's fingerprint and length, goes out
    /// first.
    pub fn add_file(&mut self, key: Vec<u8>, file: Vec<u8>, miners: Vec<AccountId>, days: u64) -> (r:
        Progress)
        requires
            old(self).wf(),
            old(self).phase() is Idle,
        ensures
            final(self).wf(),
            final(self).signer() == old(self).signer(),
            final(self).cache() == old(self).cache(),
            file@.len() == 0 ==> final(self).phase() is Idle && r == Progress::Finished(
                Err(IpseClientError::InvalidInput),
            ),
            file@.len() > 0 ==> final(self).phase() == (Phase::AddSubmitting { key, file }) && (
            r matches Progress::Pending(Request::SubmitCreateOrder(c)) && c.key@ == key@
                && c.merkle_root@ == fingerprint_of(file@) && c.data_length == file@.len()
                && c.miners == miners && c.days == days),
    {
        if file.len() == 0 {
            return Progress::Finished(Err(IpseClientError::InvalidInput));
        }
        let call = Self::call_create_order(key.clone(), &file, miners, days);
        self.phase = Phase::AddSubmitting { key, file };
        Progress::Pending(Request::SubmitCreateOrder(call))
    }

    /// Starts fetching the bytes under `file_hash`.
    pub fn get_file(&mut self, file_hash: String) -> (r: Progress)
        requires
            old(self).wf(),
            old(self).phase() is Idle,
        ensures
            final(self).wf(),
            final(self).signer() == old(self).signer(),
            final(self).cache() == old(self).cache(),
            final(self).phase() is GetFetching,
            r == Progress::Pending(Request::Fetch(file_hash)),
    {
        self.phase = Phase::GetFetching;
        Progress::Pending(Request::Fetch(file_hash))
    }

    /// Starts deleting the order under `key`: its id comes from the cache
    /// where it is there, else from a scan of the ledger's orders.
    pub fn delete_file(&mut self, key: Vec<u8>) -> (r: Progress)
        requires
            old(self).wf(),
            old(self).phase() is Idle,
        ensures
            final(self).wf(),
            final(self).signer() == old(self).signer(),
            (final(self).cache(), final(self).phase(), r) == start_delete(old(self).cache(), key),
    {
        match self.get_order_id(&key) {
            Some(order_id) => {
                self.phase = Phase::DeleteSubmitting { key, order_id };
                Progress::Pending(Request::SubmitDelete(DeleteCall { order_id }))
            },
            None => {
                self.phase = Phase::DeleteResolving { key };
                Progress::Pending(Request::ListOrders)
            },
        }
    }

    /// Takes the reply to the last request and decides what comes next.
    pub fn resume(&mut self, reply: Reply) -> (r: Progress)
        requires
            old(self).wf(),
            accepts(old(self).phase(), reply),
        ensures
            final(self).wf(),
            final(self).signer() == old(self).signer(),
            (final(self).cache(), final(self).phase(), r) == step(
                old(self).cache(),
                old(self).signer(),
                old(self).phase(),
                reply,
            ),
    {
        let mut phase = Phase::Idle;
        std::mem::swap(&mut self.phase, &mut phase);
        match phase {
            Phase::AddSubmitting { key, file } => match reply {
                Reply::Submitted(Err(e)) => Progress::Finished(
                    Err(IpseClientError::LedgerSubmission(e)),
                ),
                _ => match self.get_order_id(&key) {
                    Some(target) => {
                        self.phase = Phase::AddStoring { key, target };
                        Progress::Pending(Request::Store { target, file })
                    },
                    None => {
                        self.phase = Phase::AddResolving { key, file };
                        Progress::Pending(Request::ListOrders)
                    },
                },
            },
            Phase::AddResolving { key, file } => match reply {
                Reply::Orders(Ok(store)) => match self.get_order_id_from_chain(&key, &store) {
                    Some(target) => {
                        self.phase = Phase::AddStoring { key, target };
                        Progress::Pending(Request::Store { target, file })
                    },
                    None => Progress::Finished(Err(IpseClientError::NoOrderFound)),
                },
                Reply::Orders(Err(e)) => Progress::Finished(Err(IpseClientError::LedgerQuery(e))),
                _ => Progress::Finished(Err(IpseClientError::NoOrderFound)),
            },
            Phase::AddStoring { .. } => match reply {
                Reply::Stored(Ok(h)) => Progress::Finished(Ok(Outcome::Added(h))),
                Reply::Stored(Err(e)) => Progress::Finished(Err(IpseClientError::StorageUpload(e))),
                _ => Progress::Finished(Err(IpseClientError::NoOrderFound)),
            },
            Phase::GetFetching => match reply {
                Reply::Fetched(Ok(b)) => Progress::Finished(Ok(Outcome::Fetched(b))),
                Reply::Fetched(Err(e)) => Progress::Finished(
                    Err(IpseClientError::StorageDownload(e)),
                ),
                _ => Progress::Finished(Err(IpseClientError::NoOrderFound)),
            },
            Phase::DeleteResolving { key } => match reply {
                Reply::Orders(Ok(store)) => match self.get_order_id_from_chain(&key, &store) {
                    Some(order_id) => {
                        self.phase = Phase::DeleteSubmitting { key, order_id };
                        Progress::Pending(Request::SubmitDelete(DeleteCall { order_id }))
                    },
                    None => Progress::Finished(Err(IpseClientError::NoOrderFound)),
                },
                Reply::Orders(Err(e)) => Progress::Finished(Err(IpseClientError::LedgerQuery(e))),
                _ => Progress::Finished(Err(IpseClientError::NoOrderFound)),
            },
            Phase::DeleteSubmitting { key, order_id } => match reply {
                Reply::Submitted(Err(e)) => Progress::Finished(
                    Err(IpseClientError::LedgerSubmission(e)),
                ),
                _ => {
                    self.key_to_id.remove(&key);
                    self.phase = Phase::DeleteRemoving;
                    Progress::Pending(Request::Remove { target: order_id })
                },
            },
            Phase::DeleteRemoving => match reply {
                Reply::Removed(Ok(_)) => Progress::Finished(Ok(Outcome::Deleted)),
                Reply::Removed(Err(e)) => Progress::Finished(Err(IpseClientError::StorageDelete(e))),
                _ => Progress::Finished(Err(IpseClientError::NoOrderFound)),
            },
            Phase::Idle => Progress::Finished(Err(IpseClientError::NoOrderFound)),
        }
    }
}

} // verus!
