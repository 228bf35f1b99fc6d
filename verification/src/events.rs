//! Notification records that the shop hands to its host to emit.

use crate::account::AccountId;
use crate::menu::Balance;
use crate::order::Order;
use vstd::prelude::*;

verus! {

/// A payment went from a customer to the shop.
#[derive(Debug, Clone, Copy, PartialEq, Eq)]
pub struct Transfer {
    pub from: Option<AccountId>,
    pub to: Option<AccountId>,
    pub value: Balance,
}

impl Transfer {
    /// The record of the payment of `order` to the account `shop`: from the
    /// customer, to the shop, over the price of the order.
    pub fn for_order(order: &Order, shop: AccountId) -> (record: Self)
        ensures
            record.from == Some(order@.customer),
            record.to == Some(shop),
            record.value == order@.total_price,
    {
        Transfer { from: Some(order.customer()), to: Some(shop), value: order.price() }
    }
}

/// The whole ledger was read.
#[derive(Debug, PartialEq, Eq)]
pub struct GetAllOrders {
    pub orders: Vec<(u32, Order)>,
}

impl GetAllOrders {
    /// The record of a read of `listing`. Reading an empty ledger leaves no
    /// record.
    pub fn for_listing(listing: &Option<Vec<(u32, Order)>>) -> (record: Option<Self>)
        ensures
            record is Some <==> listing is Some,
            record is Some ==> {
                &&& record->Some_0.orders@.len() == listing->Some_0@.len()
                &&& forall|i: int|
                    0 <= i < listing->Some_0@.len() ==> (#[trigger] record->Some_0.orders@[i]).0
                        == listing->Some_0@[i].0 && record->Some_0.orders@[i].1@
                        == listing->Some_0@[i].1@
            },
    {
        match listing {
            None => None,
            Some(entries) => {
                let mut orders: Vec<(u32, Order)> = Vec::new();
                let mut i: usize = 0;
                while i < entries.len()
                    invariant
                        i <= entries.len(),
                        orders@.len() == i,
                        forall|j: int|
                            0 <= j < i ==> (#[trigger] orders@[j]).0 == entries@[j].0
                                && orders@[j].1@ == entries@[j].1@,
                    decreases entries.len() - i,
                {
                    let entry = &entries[i];
                    orders.push((entry.0, entry.1.clone()));
                    i += 1;
                }
                Some(GetAllOrders { orders })
            },
        }
    }
}

/// One order was read.
#[derive(Debug, PartialEq, Eq)]
pub struct GetSingleOrder {
    pub single_order: Order,
}

impl GetSingleOrder {
    /// The record of a read of `order`.
    pub fn for_order(order: &Order) -> (record: Self)
        ensures
            record.single_order@ == order@,
    {
        GetSingleOrder { single_order: order.clone() }
    }
}

/// A shop was set up with the orders it starts from.
#[derive(Debug, PartialEq, Eq)]
pub struct CreatedShopAndStorage {
    pub orders: Vec<(u32, Order)>,
}

} // verus!
