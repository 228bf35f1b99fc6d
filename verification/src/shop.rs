//! The shop: the ledger of paid orders and the settlement of new ones.

use crate::account::AccountId;
use crate::error::{BurgerShopError, TransferError};
use crate::menu::{order_total, Balance, FoodItem};
use crate::order::{Order, OrderView};
use std::collections::HashMap;
use vstd::prelude::*;

verus! {

/// How many base units of the chain make one unit of the shop's prices.
pub const PRICE_SCALE: Balance = 1_000_000_000_000;

/// How many ids there are, and so how many orders a ledger can hold: an
/// order's id is the number of orders stored before it.
pub open spec fn id_space() -> nat {
    0x1_0000_0000
}

/// What a request comes to, given how many orders the ledger holds: the
/// unpaid order that the payment is to be transferred for, or the reason
/// it is turned down. The request is looked at in this order: who asks
/// and what for, whether the amount due fits, whether the payment is
/// exact, and last whether an id is left for the order.
pub open spec fn checked_request(
    stored: nat,
    items: Seq<FoodItem>,
    caller: AccountId,
    shop: AccountId,
    transferred: Balance,
) -> Result<OrderView, BurgerShopError> {
    if caller == shop || items.len() == 0 {
        Err(BurgerShopError::InvalidRequest)
    } else if order_total(items) * PRICE_SCALE > Balance::MAX {
        Err(BurgerShopError::Overflow)
    } else if transferred != order_total(items) * PRICE_SCALE {
        Err(BurgerShopError::PaymentMismatch)
    } else if stored >= id_space() {
        Err(BurgerShopError::Overflow)
    } else {
        Ok(
            OrderView {
                list_of_items: items,
                customer: caller,
                total_price: order_total(items) as Balance,
                paid: false,
                order_id: stored as u32,
            },
        )
    }
}

/// What the ledger `log` holds once the transfer for `order` has come back
/// as `transfer`, and what the customer is told. Only a transfer that went
/// through adds an entry: the order, paid, under the next id. Where no id
/// is left nothing is added; no request is accepted on such a ledger.
pub open spec fn settlement(
    log: Seq<OrderView>,
    order: OrderView,
    transfer: Result<(), TransferError>,
) -> (Seq<OrderView>, Result<OrderView, BurgerShopError>) {
    if transfer is Err {
        (log, Err(BurgerShopError::PaymentError))
    } else if log.len() >= id_space() {
        (log, Err(BurgerShopError::Overflow))
    } else {
        (log.push(order.settled(log.len() as u32)), Ok(order.settled(log.len() as u32)))
    }
}

/// What a lookup of `id` in the ledger `log` gives.
pub open spec fn lookup(log: Seq<OrderView>, id: u32) -> Result<OrderView, BurgerShopError> {
    if id < log.len() {
        Ok(log[id as int])
    } else {
        Err(BurgerShopError::NotFound)
    }
}

/// What the ledger `log` holds after the orders of `orders` were settled
/// one after the other, each with a transfer that went through.
pub open spec fn settle_all(log: Seq<OrderView>, orders: Seq<OrderView>) -> Seq<OrderView>
    decreases orders.len(),
{
    if orders.len() == 0 {
        log
    } else {
        settlement(settle_all(log, orders.drop_last()), orders.last(), Ok(())).0
    }
}

/// An order without items is an invalid request, whoever sends it, whatever
/// is paid for it and whatever the ledger holds.
pub proof fn lemma_empty_order_is_invalid(
    stored: nat,
    caller: AccountId,
    shop: AccountId,
    transferred: Balance,
)
    ensures
        checked_request(stored, Seq::<FoodItem>::empty(), caller, shop, transferred) == Err::<
            OrderView,
            BurgerShopError,
        >(BurgerShopError::InvalidRequest),
{
}

/// A payment that is not exactly the amount due, be it more or less, is
/// never accepted; on a request that is otherwise in order the reason given
/// is the mismatch, whatever the ledger holds.
pub proof fn lemma_inexact_payment_is_rejected(
    stored: nat,
    items: Seq<FoodItem>,
    caller: AccountId,
    shop: AccountId,
    transferred: Balance,
)
    requires
        transferred != order_total(items) * PRICE_SCALE,
    ensures
        checked_request(stored, items, caller, shop, transferred) is Err,
        caller != shop && items.len() > 0 && order_total(items) * PRICE_SCALE <= Balance::MAX
            ==> checked_request(stored, items, caller, shop, transferred) == Err::<
            OrderView,
            BurgerShopError,
        >(BurgerShopError::PaymentMismatch),
{
}

/// A request in order that is paid exactly is accepted, and once its
/// transfer has gone through the ledger holds exactly one entry more: the
/// order, paid, under an id equal to the number of orders stored before.
pub proof fn lemma_exact_payment_is_committed(
    log: Seq<OrderView>,
    items: Seq<FoodItem>,
    caller: AccountId,
    shop: AccountId,
)
    requires
        caller != shop,
        items.len() > 0,
        order_total(items) * PRICE_SCALE <= Balance::MAX,
        log.len() < id_space(),
    ensures
        ({
            let due = (order_total(items) * PRICE_SCALE) as Balance;
            let request = checked_request(log.len(), items, caller, shop, due);
            let after = settlement(log, request->Ok_0, Ok(()));
            &&& request is Ok
            &&& request->Ok_0.priced()
            &&& !request->Ok_0.paid
            &&& after.0.len() == log.len() + 1
            &&& after.0.subrange(0, log.len() as int) == log
            &&& after.1 == Ok::<OrderView, BurgerShopError>(after.0.last())
            &&& after.0.last().paid
            &&& after.0.last().order_id == log.len()
            &&& after.0.last().list_of_items == items
            &&& after.0.last().customer == caller
            &&& after.0.last().total_price == order_total(items)
        }),
{
    let due = (order_total(items) * PRICE_SCALE) as Balance;
    let request = checked_request(log.len(), items, caller, shop, due);
    let after = settlement(log, request->Ok_0, Ok(()));
    assert(order_total(items) <= order_total(items) * PRICE_SCALE) by (nonlinear_arith);
    assert(after.0.subrange(0, log.len() as int) =~= log);
}

/// An order is committed exactly when the caller is not the shop, the
/// list is not empty, the payment is exactly the amount due, an id is
/// left, and the transfer went through.
pub proof fn lemma_committed_exactly_when(
    log: Seq<OrderView>,
    items: Seq<FoodItem>,
    caller: AccountId,
    shop: AccountId,
    transferred: Balance,
    transfer: Result<(), TransferError>,
)
    ensures
        ({
            let request = checked_request(log.len(), items, caller, shop, transferred);
            (request is Ok && settlement(log, request->Ok_0, transfer).1 is Ok) <==> (caller
                != shop && items.len() > 0 && transferred == order_total(items) * PRICE_SCALE
                && log.len() < id_space() && transfer is Ok)
        }),
{
}

/// Once a request is accepted, the outcome of its transfer alone decides:
/// a transfer that went through commits the order, a failed one is a
/// payment error. That no id is left is found before any transfer is made,
/// never after one.
pub proof fn lemma_accepted_request_is_settled(
    log: Seq<OrderView>,
    items: Seq<FoodItem>,
    caller: AccountId,
    shop: AccountId,
    transferred: Balance,
    transfer: Result<(), TransferError>,
)
    requires
        checked_request(log.len(), items, caller, shop, transferred) is Ok,
    ensures
        ({
            let order = checked_request(log.len(), items, caller, shop, transferred)->Ok_0;
            let after = settlement(log, order, transfer);
            &&& transfer is Ok ==> after.1 == Ok::<OrderView, BurgerShopError>(
                order.settled(log.len() as u32),
            ) && after.0 == log.push(order.settled(log.len() as u32))
            &&& transfer is Err ==> after.1 == Err::<OrderView, BurgerShopError>(
                BurgerShopError::PaymentError,
            ) && after.0 == log
        }),
{
}

/// A transfer that fails leaves the ledger as it was and is reported as a
/// payment error.
pub proof fn lemma_failed_transfer_changes_nothing(
    log: Seq<OrderView>,
    order: OrderView,
    failure: TransferError,
)
    ensures
        settlement(log, order, Err(failure)) == (
            log,
            Err::<OrderView, BurgerShopError>(BurgerShopError::PaymentError),
        ),
{
}

/// A lookup of the id of an order that was just committed gives the order
/// as it was handed back on commit.
pub proof fn lemma_committed_order_is_found(log: Seq<OrderView>, order: OrderView)
    requires
        log.len() < id_space(),
    ensures
        lookup(settlement(log, order, Ok(())).0, log.len() as u32) == settlement(
            log,
            order,
            Ok(()),
        ).1,
{
}

/// A lookup of an id that no order was committed under fails, and with no
/// other error than that the order was not found.
pub proof fn lemma_unknown_id_is_not_found(log: Seq<OrderView>, id: u32)
    requires
        id >= log.len(),
    ensures
        lookup(log, id) == Err::<OrderView, BurgerShopError>(BurgerShopError::NotFound),
{
}

/// After any number of commits the ledger holds what it held before and
/// then one entry for each commit, in the order of the commits, each under
/// its position as id.
pub proof fn lemma_commits_are_listed_in_order(log: Seq<OrderView>, orders: Seq<OrderView>)
    requires
        log.len() + orders.len() <= id_space(),
    ensures
        settle_all(log, orders).len() == log.len() + orders.len(),
        forall|i: int| 0 <= i < log.len() ==> settle_all(log, orders)[i] == log[i],
        forall|j: int|
            0 <= j < orders.len() ==> settle_all(log, orders)[log.len() + j] == (
            #[trigger] orders[j]).settled((log.len() + j) as u32),
    decreases orders.len(),
{
    if orders.len() > 0 {
        let front = orders.drop_last();
        lemma_commits_are_listed_in_order(log, front);
        assert forall|j: int| 0 <= j < orders.len() implies settle_all(log, orders)[log.len() + j]
            == (#[trigger] orders[j]).settled((log.len() + j) as u32) by {
            if j < front.len() {
                assert(front[j] == orders[j]);
            }
        }
    }
}

/// The shop's storage: every paid order, once in a log in the order of
/// payment and once in an index by id.
pub struct BurgerShop {
    orders: Vec<(u32, Order)>,
    orders_mapping: HashMap<u32, Order>,
}

impl View for BurgerShop {
    type V = Seq<OrderView>;

    /// The log: the stored orders, oldest first.
    closed spec fn view(&self) -> Seq<OrderView> {
        Seq::new(self.orders@.len(), |i: int| self.orders@[i].1@)
    }
}

impl BurgerShop {
    /// The index: the stored orders by id.
    pub closed spec fn index(&self) -> Map<u32, OrderView> {
        Map::new(
            |id: u32| self.orders_mapping@.contains_key(id),
            |id: u32| self.orders_mapping@[id]@,
        )
    }

    /// Log and index hold the same orders, each paid, priced and filed
    /// under its position in the log, which is its id.
    pub closed spec fn wf(&self) -> bool {
        &&& self.orders@.len() <= id_space()
        &&& forall|i: int|
            0 <= i < self.orders@.len() ==> {
                &&& (#[trigger] self.orders@[i]).0 == i
                &&& self.orders@[i].1@.order_id == i
                &&& self.orders@[i].1@.paid
                &&& self.orders@[i].1@.priced()
            }
        &&& forall|id: u32| #[trigger]
            self.orders_mapping@.contains_key(id) <==> id < self.orders@.len()
        &&& forall|id: u32|
            id < self.orders@.len() ==> (#[trigger] self.orders_mapping@[id])@
                == self.orders@[id as int].1@
    }

    /// What holds of the ledger in every state: each entry is paid, priced
    /// and carries its position as id, and the index holds exactly the
    /// entries of the log, each under its id.
    pub proof fn lemma_ledger_invariant(&self)
        requires
            self.wf(),
        ensures
            self@.len() <= id_space(),
            forall|i: int|
                0 <= i < self@.len() ==> {
                    &&& (#[trigger] self@[i]).order_id == i
                    &&& self@[i].paid
                    &&& self@[i].priced()
                },
            forall|id: u32| #[trigger] self.index().contains_key(id) <==> id < self@.len(),
            forall|id: u32| id < self@.len() ==> #[trigger] self.index()[id] == self@[id as int],
    {
    }

    /// A shop with no order yet.
    pub fn new() -> (shop: Self)
        ensures
            shop.wf(),
            shop@ == Seq::<OrderView>::empty(),
            shop.index() == Map::<u32, OrderView>::empty(),
    {
        let shop = BurgerShop { orders: Vec::new(), orders_mapping: HashMap::new() };
        assert(shop@ =~= Seq::<OrderView>::empty());
        assert(shop.index() =~= Map::<u32, OrderView>::empty());
        shop
    }

    /// Whether `entries` can be the log of a shop: each entry is paid and
    /// stands, with its id, at the position that the id names.
    pub open spec fn is_log(entries: Seq<(u32, Order)>) -> bool {
        &&& entries.len() <= id_space()
        &&& forall|i: int|
            0 <= i < entries.len() ==> {
                &&& (#[trigger] entries[i]).0 == i
                &&& entries[i].1@.order_id == i
                &&& entries[i].1@.paid
            }
    }

    /// The shop whose log is `orders`, as `get_orders` of an earlier shop
    /// gave it, with the index built anew. `None` where `orders` cannot be
    /// a log.
    pub fn from_orders(orders: Vec<(u32, Order)>) -> (shop: Option<Self>)
        requires
            forall|i: int| 0 <= i < orders@.len() ==> (#[trigger] orders@[i]).1.inv(),
        ensures
            shop is Some <==> Self::is_log(orders@),
            shop is Some ==> {
                &&& shop->Some_0.wf()
                &&& shop->Some_0@.len() == orders@.len()
                &&& forall|i: int|
                    0 <= i < orders@.len() ==> shop->Some_0@[i] == (#[trigger] orders@[i]).1@
            },
    {
        if orders.len() > 0 && orders.len() - 1 > u32::MAX as usize {
            return None;
        }
        let mut orders_mapping: HashMap<u32, Order> = HashMap::new();
        let mut i: usize = 0;
        while i < orders.len()
            invariant
                i <= orders.len() <= id_space(),
                forall|j: int| 0 <= j < orders@.len() ==> (#[trigger] orders@[j]).1.inv(),
                forall|j: int|
                    0 <= j < i ==> {
                        &&& (#[trigger] orders@[j]).0 == j
                        &&& orders@[j].1@.order_id == j
                        &&& orders@[j].1@.paid
                    },
                forall|id: u32| #[trigger] orders_mapping@.contains_key(id) <==> id < i,
                forall|id: u32|
                    id < i ==> (#[trigger] orders_mapping@[id])@ == orders@[id as int].1@,
            decreases orders.len() - i,
        {
            let entry = &orders[i];
            if entry.0 != i as u32 || entry.1.id() != i as u32 || !entry.1.is_paid() {
                return None;
            }
            orders_mapping.insert(entry.0, entry.1.clone());
            i += 1;
        }
        let shop = BurgerShop { orders, orders_mapping };
        Some(shop)
    }

    /// The id that the next order will get: the number of orders stored.
    /// `None` where every id is taken.
    pub fn next_id(&self) -> (id: Option<u32>)
        requires
            self.wf(),
        ensures
            id is Some <==> self@.len() < id_space(),
            id is Some ==> id->Some_0 == self@.len(),
    {
        if self.orders.len() > u32::MAX as usize {
            None
        } else {
            Some(self.orders.len() as u32)
        }
    }

    /// Takes an order and checks the payment attached to it. `caller` asks
    /// for `list_of_items`, `shop` is the shop's own account, and
    /// `transferred_value` came with the call, in base units. Nothing is
    /// stored: the order that comes back is unpaid, and its price is what
    /// is to be transferred to the shop before `settle_payment` files it.
    /// An order is accepted only while an id is left for it, so that
    /// `settle_payment` on the same ledger fails on a failed transfer only.
    pub fn take_order_and_payment(
        &self,
        list_of_items: Vec<FoodItem>,
        caller: AccountId,
        shop: AccountId,
        transferred_value: Balance,
    ) -> (outcome: Result<Order, BurgerShopError>)
        requires
            self.wf(),
        ensures
            match outcome {
                Ok(order) => order.inv() && self@.len() < id_space() && checked_request(
                    self@.len(),
                    list_of_items@,
                    caller,
                    shop,
                    transferred_value,
                ) == Ok::<OrderView, BurgerShopError>(order@),
                Err(e) => checked_request(
                    self@.len(),
                    list_of_items@,
                    caller,
                    shop,
                    transferred_value,
                ) == Err::<OrderView, BurgerShopError>(e),
            },
    {
        if caller.same_as(&shop) || list_of_items.len() == 0 {
            return Err(BurgerShopError::InvalidRequest);
        }
        // the id is given last, once the payment is known to be exact
        let order = Order::new(list_of_items, caller, 0);
        match order.price().checked_mul(PRICE_SCALE) {
            None => Err(BurgerShopError::Overflow),
            Some(due) => {
                if transferred_value != due {
                    return Err(BurgerShopError::PaymentMismatch);
                }
                match self.next_id() {
                    None => Err(BurgerShopError::Overflow),
                    Some(id) => Ok(order.filed(id)),
                }
            },
        }
    }

    /// Ends the settlement of `order` once the host has tried to transfer
    /// its price. A failed transfer leaves the ledger as it was. After a
    /// transfer that went through the order is marked paid, gets the next
    /// id, enters log and index, and comes back as it was stored; no other
    /// entry of log or index changes. While an id is left, which it is on
    /// the ledger that accepted the order, the transfer alone decides.
    pub fn settle_payment(&mut self, order: Order, transfer: Result<(), TransferError>) -> (outcome:
        Result<Order, BurgerShopError>)
        requires
            old(self).wf(),
            order.inv(),
            !order@.paid,
        ensures
            final(self).wf(),
            final(self)@ == settlement(old(self)@, order@, transfer).0,
            match outcome {
                Ok(stored) => {
                    &&& stored.inv()
                    &&& settlement(old(self)@, order@, transfer).1 == Ok::<
                        OrderView,
                        BurgerShopError,
                    >(stored@)
                    &&& final(self).index() == old(self).index().insert(
                        old(self)@.len() as u32,
                        stored@,
                    )
                },
                Err(e) => {
                    &&& settlement(old(self)@, order@, transfer).1 == Err::<
                        OrderView,
                        BurgerShopError,
                    >(e)
                    &&& final(self).index() == old(self).index()
                },
            },
            old(self)@.len() < id_space() ==> (outcome is Ok <==> transfer is Ok),
    {
        if transfer.is_err() {
            return Err(BurgerShopError::PaymentError);
        }
        match self.next_id() {
            None => Err(BurgerShopError::Overflow),
            Some(id) => {
                let stored = order.settle(id);
                let for_index = stored.clone();
                let for_log = stored.clone();
                self.orders_mapping.insert(id, for_index);
                self.orders.push((id, for_log));
                assert(self@ =~= old(self)@.push(stored@));
                assert(self.index() =~= old(self).index().insert(id, stored@));
                Ok(stored)
            },
        }
    }

    /// The order stored under `id`, looked up in the index.
    pub fn get_single_order(&self, id: u32) -> (outcome: Result<Order, BurgerShopError>)
        requires
            self.wf(),
        ensures
            match outcome {
                Ok(order) => order.inv() && lookup(self@, id) == Ok::<OrderView, BurgerShopError>(
                    order@,
                ),
                Err(e) => lookup(self@, id) == Err::<OrderView, BurgerShopError>(e),
            },
    {
        match self.orders_mapping.get(&id) {
            Some(order) => Ok(order.clone()),
            None => Err(BurgerShopError::NotFound),
        }
    }

    /// What a read of one entry of a stored index comes to: the order that
    /// was found, or that there is none under the id that was asked for.
    pub fn order_found(entry: Option<Order>) -> (outcome: Result<Order, BurgerShopError>)
        ensures
            match entry {
                Some(order) => outcome == Ok::<Order, BurgerShopError>(order),
                None => outcome == Err::<Order, BurgerShopError>(BurgerShopError::NotFound),
            },
    {
        match entry {
            Some(order) => Ok(order),
            None => Err(BurgerShopError::NotFound),
        }
    }

    /// All stored orders with their ids, oldest first, or `None` where
    /// there is none yet.
    pub fn get_orders(&self) -> (listing: Option<Vec<(u32, Order)>>)
        requires
            self.wf(),
        ensures
            match listing {
                None => self@.len() == 0,
                Some(entries) => {
                    &&& self@.len() > 0
                    &&& entries@.len() == self@.len()
                    &&& forall|i: int|
                        0 <= i < entries@.len() ==> (#[trigger] entries@[i]).0 == i
                            && entries@[i].1@ == self@[i]
                },
            },
    {
        if self.orders.len() == 0 {
            return None;
        }
        let mut entries: Vec<(u32, Order)> = Vec::new();
        let mut i: usize = 0;
        while i < self.orders.len()
            invariant
                self.wf(),
                i <= self.orders.len(),
                entries@.len() == i,
                forall|j: int|
                    0 <= j < i ==> (#[trigger] entries@[j]).0 == j && entries@[j].1@ == self@[j],
            decreases self.orders.len() - i,
        {
            let entry = &self.orders[i];
            entries.push((entry.0, entry.1.clone()));
            i += 1;
        }
        Some(entries)
    }
}

} // verus!
