use ipse_client::cache::OrderIdCache;
use ipse_client::client::{Client, Outcome, Progress, Reply, Request};
use ipse_client::error::IpseClientError;
use ipse_client::fingerprint::make_merkle_root;
use ipse_client::ledger::{AccountId, Order, OrdersStore};

const ALICE: AccountId = [1u8; 32];
const BOB: AccountId = [2u8; 32];
const MINER: AccountId = [9u8; 32];

/// A ledger and a storage backend in memory, counting the calls they get.
#[derive(Default)]
struct Sim {
    orders: Vec<Order>,
    stored: Vec<(u64, String, Vec<u8>)>,
    creates: usize,
    lists: usize,
    deletes: usize,
    removes: usize,
    fail_create: bool,
    fail_list: bool,
    fail_store: bool,
    fail_fetch: bool,
    fail_delete: bool,
    fail_remove: bool,
}

impl Sim {
    fn answer(&mut self, request: Request) -> Reply {
        match request {
            Request::SubmitCreateOrder(c) => {
                self.creates += 1;
                if self.fail_create {
                    return Reply::Submitted(Err("rejected".to_string()));
                }
                self.orders.push(Order {
                    user: ALICE,
                    key: c.key,
                    merkle_root: c.merkle_root,
                    data_length: c.data_length,
                    miners: c.miners,
                    days: c.days,
                });
                Reply::Submitted(Ok(()))
            }
            Request::ListOrders => {
                self.lists += 1;
                if self.fail_list {
                    return Reply::Orders(Err("unreachable".to_string()));
                }
                Reply::Orders(Ok(OrdersStore { orders: self.orders.clone() }))
            }
            Request::Store { target, file } => {
                if self.fail_store {
                    return Reply::Stored(Err("upload failed".to_string()));
                }
                let handle = format!("Qm{}", target);
                self.stored.push((target, handle.clone(), file));
                Reply::Stored(Ok(handle))
            }
            Request::Fetch(handle) => {
                if self.fail_fetch {
                    return Reply::Fetched(Err("download failed".to_string()));
                }
                match self.stored.iter().find(|s| s.1 == handle) {
                    Some(s) => Reply::Fetched(Ok(s.2.clone())),
                    None => Reply::Fetched(Err("unknown handle".to_string())),
                }
            }
            Request::SubmitDelete(d) => {
                self.deletes += 1;
                let id = d.order_id as usize;
                if self.fail_delete || id >= self.orders.len() {
                    return Reply::Submitted(Err("rejected".to_string()));
                }
                self.orders.remove(id);
                Reply::Submitted(Ok(()))
            }
            Request::Remove { target } => {
                self.removes += 1;
                if self.fail_remove {
                    return Reply::Removed(Err("remove failed".to_string()));
                }
                self.stored.retain(|s| s.0 != target);
                Reply::Removed(Ok(()))
            }
        }
    }

    fn run(&mut self, client: &mut Client, mut progress: Progress) -> Result<Outcome, IpseClientError> {
        loop {
            match progress {
                Progress::Finished(r) => {
                    assert!(client.is_idle());
                    return r;
                }
                Progress::Pending(request) => {
                    let reply = self.answer(request);
                    assert!(client.accepts(&reply));
                    progress = client.resume(reply);
                }
            }
        }
    }

    fn add(&mut self, client: &mut Client, key: &[u8], file: Vec<u8>) -> Result<Outcome, IpseClientError> {
        let p = client.add_file(key.to_vec(), file, vec![MINER], 30);
        self.run(client, p)
    }

    fn delete(&mut self, client: &mut Client, key: &[u8]) -> Result<Outcome, IpseClientError> {
        let p = client.delete_file(key.to_vec());
        self.run(client, p)
    }

    fn get(&mut self, client: &mut Client, handle: &str) -> Result<Outcome, IpseClientError> {
        let p = client.get_file(handle.to_string());
        self.run(client, p)
    }
}

fn order(user: AccountId, key: &[u8]) -> Order {
    Order { user, key: key.to_vec(), merkle_root: [0u8; 32], data_length: 1, miners: vec![MINER], days: 1 }
}

#[test]
fn end_to_end_add_get_delete() {
    let mut sim = Sim::default();
    let mut client = Client::new(ALICE);
    let file = vec![0xABu8; 100];
    let handle = match sim.add(&mut client, b"doc1", file.clone()) {
        Ok(Outcome::Added(h)) => h,
        _ => panic!("add failed"),
    };
    assert_eq!(sim.orders.len(), 1);
    assert_eq!(sim.orders[0].key, b"doc1".to_vec());
    assert_eq!(sim.orders[0].data_length, 100);
    assert_eq!(sim.orders[0].days, 30);
    assert_eq!(sim.orders[0].miners, vec![MINER]);
    assert_eq!(sim.orders[0].merkle_root, make_merkle_root(&file));
    match sim.get(&mut client, &handle) {
        Ok(Outcome::Fetched(b)) => assert_eq!(b, file),
        _ => panic!("get failed"),
    }
    assert!(matches!(sim.delete(&mut client, b"doc1"), Ok(Outcome::Deleted)));
    assert!(sim.orders.is_empty());
    assert!(sim.stored.is_empty());
    assert!(matches!(sim.delete(&mut client, b"doc1"), Err(IpseClientError::NoOrderFound)));
}

#[test]
fn warm_cache_resolution_after_add() {
    let mut sim = Sim::default();
    let mut client = Client::new(ALICE);
    assert!(matches!(sim.add(&mut client, b"k", vec![1u8; 10]), Ok(Outcome::Added(_))));
    let lists = sim.lists;
    assert!(client.get_order_id(&b"k".to_vec()).is_some());
    assert!(matches!(sim.delete(&mut client, b"k"), Ok(Outcome::Deleted)));
    assert_eq!(sim.lists, lists);
    assert_eq!(sim.deletes, 1);
    assert_eq!(sim.removes, 1);
}

#[test]
fn cold_resolution_scans_once() {
    let mut sim = Sim::default();
    sim.orders = vec![order(BOB, b"k"), order(ALICE, b"other"), order(ALICE, b"k"), order(ALICE, b"k")];
    let mut client = Client::new(ALICE);
    let p = client.delete_file(b"k".to_vec());
    assert!(matches!(p, Progress::Pending(Request::ListOrders)));
    let p = client.resume(sim.answer(Request::ListOrders));
    match p {
        Progress::Pending(Request::SubmitDelete(ref d)) => assert_eq!(d.order_id, 2),
        _ => panic!("expected a delete call"),
    }
    assert!(matches!(sim.run(&mut client, p), Ok(Outcome::Deleted)));
    assert_eq!(sim.lists, 1);
    assert_eq!(sim.orders.len(), 3);
    assert_eq!(sim.removes, 1);
}

#[test]
fn unknown_key_is_not_found() {
    let mut sim = Sim::default();
    sim.orders = vec![order(BOB, b"k")];
    let mut client = Client::new(ALICE);
    assert!(matches!(sim.delete(&mut client, b"k"), Err(IpseClientError::NoOrderFound)));
    assert_eq!(sim.lists, 1);
    assert_eq!(sim.deletes, 0);
    assert_eq!(sim.removes, 0);
    assert_eq!(client.get_order_id(&b"k".to_vec()), None);
}

#[test]
fn store_failure_leaves_orphan_order() {
    let mut sim = Sim::default();
    sim.fail_store = true;
    let mut client = Client::new(ALICE);
    let before = sim.orders.len();
    match sim.add(&mut client, b"k", vec![3u8; 70]) {
        Err(IpseClientError::StorageUpload(m)) => assert_eq!(m, "upload failed"),
        _ => panic!("expected a storage upload error"),
    }
    assert_eq!(sim.orders.len(), before + 1);
    assert_eq!(sim.deletes, 0);
}

#[test]
fn empty_file_is_refused() {
    let mut sim = Sim::default();
    let mut client = Client::new(ALICE);
    assert!(matches!(sim.add(&mut client, b"k", Vec::new()), Err(IpseClientError::InvalidInput)));
    assert_eq!(sim.creates, 0);
}

#[test]
fn create_failure_stops_before_storage() {
    let mut sim = Sim::default();
    sim.fail_create = true;
    let mut client = Client::new(ALICE);
    assert!(matches!(sim.add(&mut client, b"k", vec![1u8]), Err(IpseClientError::LedgerSubmission(_))));
    assert!(sim.stored.is_empty());
    assert_eq!(sim.lists, 0);
}

#[test]
fn query_failure_is_reported() {
    let mut sim = Sim::default();
    sim.fail_list = true;
    let mut client = Client::new(ALICE);
    assert!(matches!(sim.delete(&mut client, b"k"), Err(IpseClientError::LedgerQuery(_))));
    assert!(matches!(sim.add(&mut client, b"k", vec![1u8]), Err(IpseClientError::LedgerQuery(_))));
    assert!(sim.stored.is_empty());
}

#[test]
fn fetch_failure_is_reported() {
    let mut sim = Sim::default();
    let mut client = Client::new(ALICE);
    assert!(matches!(sim.get(&mut client, "nothing"), Err(IpseClientError::StorageDownload(_))));
    sim.fail_fetch = true;
    assert!(matches!(sim.get(&mut client, "Qm0"), Err(IpseClientError::StorageDownload(_))));
}

#[test]
fn delete_call_failure_leaves_storage() {
    let mut sim = Sim::default();
    let mut client = Client::new(ALICE);
    assert!(matches!(sim.add(&mut client, b"k", vec![1u8; 5]), Ok(_)));
    sim.fail_delete = true;
    assert!(matches!(sim.delete(&mut client, b"k"), Err(IpseClientError::LedgerSubmission(_))));
    assert_eq!(sim.removes, 0);
    assert_eq!(sim.stored.len(), 1);
    assert_eq!(client.get_order_id(&b"k".to_vec()), Some(0));
}

#[test]
fn remove_failure_after_ledger_delete() {
    let mut sim = Sim::default();
    let mut client = Client::new(ALICE);
    assert!(matches!(sim.add(&mut client, b"k", vec![1u8; 5]), Ok(_)));
    sim.fail_remove = true;
    assert!(matches!(sim.delete(&mut client, b"k"), Err(IpseClientError::StorageDelete(_))));
    assert!(sim.orders.is_empty());
    assert_eq!(sim.stored.len(), 1);
    assert_eq!(client.get_order_id(&b"k".to_vec()), None);
}

#[test]
fn cache_insert_get_remove() {
    let mut cache = OrderIdCache::new();
    assert_eq!(cache.get(&b"a".to_vec()), None);
    cache.insert(b"a".to_vec(), 4);
    cache.insert(b"b".to_vec(), 5);
    cache.insert(b"a".to_vec(), 6);
    assert_eq!(cache.get(&b"a".to_vec()), Some(6));
    assert_eq!(cache.get(&b"b".to_vec()), Some(5));
    cache.remove(&b"a".to_vec());
    assert_eq!(cache.get(&b"a".to_vec()), None);
    assert_eq!(cache.get(&b"b".to_vec()), Some(5));
    cache.remove(&b"zz".to_vec());
    assert_eq!(cache.get(&b"b".to_vec()), Some(5));
}

#[test]
fn scan_takes_first_order_of_owner() {
    let store = OrdersStore { orders: vec![order(BOB, b"k"), order(ALICE, b"k2"), order(ALICE, b"k"), order(ALICE, b"k")] };
    assert_eq!(store.find_order(&b"k".to_vec(), &ALICE), Some(2));
    assert_eq!(store.find_order(&b"k".to_vec(), &BOB), Some(0));
    assert_eq!(store.find_order(&b"k3".to_vec(), &ALICE), None);
    assert_eq!(OrdersStore { orders: Vec::new() }.find_order(&b"k".to_vec(), &ALICE), None);
}

#[test]
fn scan_caches_only_on_success() {
    let mut client = Client::new(ALICE);
    let store = OrdersStore { orders: vec![order(ALICE, b"x"), order(ALICE, b"k")] };
    assert_eq!(client.get_order_id_from_chain(&b"none".to_vec(), &store), None);
    assert_eq!(client.get_order_id(&b"none".to_vec()), None);
    assert_eq!(client.get_order_id_from_chain(&b"k".to_vec(), &store), Some(1));
    assert_eq!(client.get_order_id(&b"k".to_vec()), Some(1));
}

#[test]
fn create_call_carries_fingerprint_and_length() {
    let file = vec![7u8; 65];
    let call = Client::call_create_order(b"k".to_vec(), &file, vec![MINER, BOB], 12);
    assert_eq!(call.key, b"k".to_vec());
    assert_eq!(call.merkle_root, make_merkle_root(&file));
    assert_eq!(call.data_length, 65);
    assert_eq!(call.miners, vec![MINER, BOB]);
    assert_eq!(call.days, 12);
}
