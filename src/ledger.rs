//! What the library holds of the ledger: accounts, orders, the two order
//! calls, and the scan that resolves a key to its order's position.
use vstd::prelude::*;

verus! {

/// A ledger account: the 32 bytes of its public key.
pub type AccountId = [u8; 32];

/// A storage order as the ledger records it. Its id is its position in the
/// ledger's list of orders.
#[derive(Clone, Debug)]
pub struct Order {
    pub user: AccountId,
    pub key: Vec<u8>,
    pub merkle_root: [u8; 32],
    pub data_length: u64,
    pub miners: Vec<AccountId>,
    pub days: u64,
}

/// The call that creates an order.
pub struct CreateOrderCall {
    pub key: Vec<u8>,
    pub merkle_root: [u8; 32],
    pub data_length: u64,
    pub miners: Vec<AccountId>,
    pub days: u64,
}

/// The call that deletes the order at a position.
pub struct DeleteCall {
    pub order_id: u64,
}

/// A snapshot of the ledger's orders, in positional order.
pub struct OrdersStore {
    pub orders: Vec<Order>,
}

/// `o` is an order of `owner` under `key`.
pub open spec fn order_matches(o: Order, key: Seq<u8>, owner: Seq<u8>) -> bool {
    o.key@ == key && o.user@ == owner
}

/// Position `i` holds the first order of `owner` under `key`.
pub open spec fn is_first_match(orders: Seq<Order>, key: Seq<u8>, owner: Seq<u8>, i: int) -> bool {
    &&& 0 <= i < orders.len()
    &&& order_matches(orders[i], key, owner)
    &&& forall|j: int| 0 <= j < i ==> !order_matches(#[trigger] orders[j], key, owner)
}

/// Some order of `owner` under `key` is in `orders`.
pub open spec fn has_match(orders: Seq<Order>, key: Seq<u8>, owner: Seq<u8>) -> bool {
    exists|i: int| 0 <= i < orders.len() && order_matches(#[trigger] orders[i], key, owner)
}

/// The position of the first order of `owner` under `key`, if any.
pub open spec fn first_match(orders: Seq<Order>, key: Seq<u8>, owner: Seq<u8>) -> Option<u64> {
    if has_match(orders, key, owner) {
        Some(choose|i: u64| is_first_match(orders, key, owner, i as int))
    } else {
        None
    }
}

/// Whether two byte strings are equal.
pub fn bytes_eq(a: &Vec<u8>, b: &Vec<u8>) -> (r: bool)
    ensures
        r == (a@ == b@),
{
    if a.len() != b.len() {
        return false;
    }
    let mut i: usize = 0;
    while i < a.len()
        invariant
            a@.len() == b@.len(),
            i <= a@.len(),
            forall|j: int| 0 <= j < i ==> a@[j] == b@[j],
        decreases a.len() - i,
    {
        if a[i] != b[i] {
            return false;
        }
        i = i + 1;
    }
    assert(a@ =~= b@);
    true
}

/// Whether two accounts are the same.
pub fn account_eq(a: &AccountId, b: &AccountId) -> (r: bool)
    ensures
        r == (a@ == b@),
{
    let mut i: usize = 0;
    while i < 32
        invariant
            a@.len() == 32,
            b@.len() == 32,
            i <= 32,
            forall|j: int| 0 <= j < i ==> a@[j] == b@[j],
        decreases 32 - i,
    {
        if a[i] != b[i] {
            return false;
        }
        i = i + 1;
    }
    assert(a@ =~= b@);
    true
}

/// The first match is unique, so the scan's answer is determined.
proof fn lemma_first_match_unique(orders: Seq<Order>, key: Seq<u8>, owner: Seq<u8>, i: int, j: int)
    requires
        is_first_match(orders, key, owner, i),
        is_first_match(orders, key, owner, j),
    ensures
        i == j,
{
}

/// Where some order matches, a first one does.
proof fn lemma_first_match_below(orders: Seq<Order>, key: Seq<u8>, owner: Seq<u8>, i: int)
    requires
        0 <= i < orders.len(),
        order_matches(orders[i], key, owner),
    ensures
        exists|k: int| is_first_match(orders, key, owner, k),
    decreases i,
{
    if exists|j: int| 0 <= j < i && order_matches(#[trigger] orders[j], key, owner) {
        let j = choose|j: int| 0 <= j < i && order_matches(#[trigger] orders[j], key, owner);
        lemma_first_match_below(orders, key, owner, j);
    } else {
        assert(is_first_match(orders, key, owner, i));
    }
}

/// The scan finds an order exactly when one matches, and then the first.
pub proof fn lemma_first_match(orders: Seq<Order>, key: Seq<u8>, owner: Seq<u8>)
    requires
        orders.len() <= u64::MAX,
    ensures
        first_match(orders, key, owner) is Some <==> has_match(orders, key, owner),
        has_match(orders, key, owner) ==> is_first_match(
            orders,
            key,
            owner,
            first_match(orders, key, owner)->0 as int,
        ),
{
    if has_match(orders, key, owner) {
        let i = choose|i: int| 0 <= i < orders.len() && order_matches(#[trigger] orders[i], key, owner);
        lemma_first_match_below(orders, key, owner, i);
        let k = choose|k: int| is_first_match(orders, key, owner, k);
        assert(is_first_match(orders, key, owner, (k as u64) as int));
    }
}

impl OrdersStore {
    /// The position of the first order of `owner` under `key`, scanning in
    /// ascending position.
    pub fn find_order(&self, key: &Vec<u8>, owner: &AccountId) -> (r: Option<u64>)
        ensures
            r == first_match(self.orders@, key@, owner@),
    {
        let mut i: usize = 0;
        while i < self.orders.len()
            invariant
                i <= self.orders@.len(),
                forall|j: int| 0 <= j < i ==> !order_matches(#[trigger] self.orders@[j], key@, owner@),
            decreases self.orders.len() - i,
        {
            let o = &self.orders[i];
            if bytes_eq(&o.key, key) && account_eq(&o.user, owner) {
                let id = i as u64;
                assert(is_first_match(self.orders@, key@, owner@, id as int));
                assert(has_match(self.orders@, key@, owner@));
                proof {
                    let c = choose|c: u64| is_first_match(self.orders@, key@, owner@, c as int);
                    lemma_first_match_unique(self.orders@, key@, owner@, c as int, id as int);
                }
                return Some(id);
            }
            i = i + 1;
        }
        None
    }
}

} // verus!
