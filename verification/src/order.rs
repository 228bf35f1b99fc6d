//! Orders and their life from pricing to payment.

use crate::account::AccountId;
use crate::menu::{lemma_order_total_bound, lemma_order_total_push, max_line_price, order_total, Balance, FoodItem};
use vstd::prelude::*;

verus! {

/// What an order says, as mathematical data.
pub struct OrderView {
    pub list_of_items: Seq<FoodItem>,
    pub customer: AccountId,
    pub total_price: Balance,
    pub paid: bool,
    pub order_id: u32,
}

impl OrderView {
    /// An order holds at least one line, and its price is the sum of its lines.
    pub open spec fn priced(self) -> bool {
        &&& self.list_of_items.len() > 0
        &&& self.total_price == order_total(self.list_of_items)
    }

    /// The same order once it is paid and stored under `id`.
    pub open spec fn settled(self, id: u32) -> OrderView {
        OrderView { paid: true, order_id: id, ..self }
    }
}

/// A customer's order: the burgers asked for, who asked, what they cost,
/// and whether they are paid.
#[derive(Debug, PartialEq, Eq)]
pub struct Order {
    list_of_items: Vec<FoodItem>,
    customer: AccountId,
    total_price: Balance,
    paid: bool,
    order_id: u32,
}

impl View for Order {
    type V = OrderView;

    closed spec fn view(&self) -> OrderView {
        OrderView {
            list_of_items: self.list_of_items@,
            customer: self.customer,
            total_price: self.total_price,
            paid: self.paid,
            order_id: self.order_id,
        }
    }
}

impl Clone for Order {
    /// A copy that says the same as the order it is made from.
    fn clone(&self) -> (copy: Self)
        ensures
            copy@ == self@,
    {
        let mut items: Vec<FoodItem> = Vec::new();
        let mut i: usize = 0;
        while i < self.list_of_items.len()
            invariant
                i <= self.list_of_items.len(),
                items@ == self.list_of_items@.subrange(0, i as int),
            decreases self.list_of_items.len() - i,
        {
            items.push(self.list_of_items[i]);
            assert(items@ =~= self.list_of_items@.subrange(0, i + 1));
            i += 1;
        }
        assert(items@ =~= self.list_of_items@);
        Order {
            list_of_items: items,
            customer: self.customer,
            total_price: self.total_price,
            paid: self.paid,
            order_id: self.order_id,
        }
    }
}

impl Order {
    /// Every order is priced: it has a line, and its price is their sum.
    pub open spec fn inv(&self) -> bool {
        self@.priced()
    }

    /// A new, unpaid order of `customer` for `list_of_items`, priced at once.
    pub fn new(list_of_items: Vec<FoodItem>, customer: AccountId, id: u32) -> (order: Self)
        requires
            list_of_items@.len() > 0,
        ensures
            order.inv(),
            order@ == (OrderView {
                list_of_items: list_of_items@,
                customer,
                total_price: order_total(list_of_items@) as Balance,
                paid: false,
                order_id: id,
            }),
    {
        let total_price = Order::total_price(&list_of_items);
        Order { list_of_items, customer, total_price, paid: false, order_id: id }
    }

    /// An order as it was written down before: with the price, the mark of
    /// payment and the id it had. `None` where the list is empty or the
    /// price is not the sum of its lines.
    pub fn from_parts(
        list_of_items: Vec<FoodItem>,
        customer: AccountId,
        total_price: Balance,
        paid: bool,
        order_id: u32,
    ) -> (order: Option<Self>)
        ensures
            order is Some <==> list_of_items@.len() > 0 && total_price == order_total(
                list_of_items@,
            ),
            order is Some ==> order->Some_0.inv() && order->Some_0@ == (OrderView {
                list_of_items: list_of_items@,
                customer,
                total_price,
                paid,
                order_id,
            }),
    {
        if list_of_items.len() == 0 || Order::total_price(&list_of_items) != total_price {
            return None;
        }
        Some(Order { list_of_items, customer, total_price, paid, order_id })
    }

    /// Total price of `list_of_items`: the sum of the line prices. It always
    /// fits a `Balance`, however long the list is.
    pub fn total_price(list_of_items: &Vec<FoodItem>) -> (total: Balance)
        ensures
            total == order_total(list_of_items@),
    {
        let mut total: Balance = 0;
        let mut i: usize = 0;
        while i < list_of_items.len()
            invariant
                i <= list_of_items.len(),
                total == order_total(list_of_items@.subrange(0, i as int)),
            decreases list_of_items.len() - i,
        {
            let line: Balance = list_of_items[i].price();
            proof {
                let done = list_of_items@.subrange(0, i as int);
                lemma_order_total_bound(done);
                lemma_order_total_push(done, list_of_items@[i as int]);
                assert(done.push(list_of_items@[i as int]) =~= list_of_items@.subrange(
                    0,
                    i + 1,
                ));
                assert(done.len() * max_line_price() <= 0xffff_ffff_ffff_ffff * max_line_price())
                    by (nonlinear_arith)
                    requires
                        done.len() <= 0xffff_ffff_ffff_ffff,
                ;
            }
            total = total + line;
            i += 1;
        }
        assert(list_of_items@.subrange(0, i as int) =~= list_of_items@);
        total
    }

    /// The lines of the order, in the order they were asked for.
    pub fn items(&self) -> (items: &Vec<FoodItem>)
        ensures
            items@ == self@.list_of_items,
    {
        &self.list_of_items
    }

    /// Who placed the order.
    pub fn customer(&self) -> (customer: AccountId)
        ensures
            customer == self@.customer,
    {
        self.customer
    }

    /// What the order costs, in the shop's price unit.
    pub fn price(&self) -> (price: Balance)
        ensures
            price == self@.total_price,
    {
        self.total_price
    }

    /// Whether the order is paid.
    pub fn is_paid(&self) -> (paid: bool)
        ensures
            paid == self@.paid,
    {
        self.paid
    }

    /// The id of the order.
    pub fn id(&self) -> (id: u32)
        ensures
            id == self@.order_id,
    {
        self.order_id
    }

    /// The same order under the id `id`.
    pub(crate) fn filed(self, id: u32) -> (order: Self)
        ensures
            order@ == (OrderView { order_id: id, ..self@ }),
    {
        Order {
            list_of_items: self.list_of_items,
            customer: self.customer,
            total_price: self.total_price,
            paid: self.paid,
            order_id: id,
        }
    }

    /// Marks the order paid and files it under `id`. Nothing else changes,
    /// and no order goes back to unpaid.
    pub(crate) fn settle(self, id: u32) -> (order: Self)
        ensures
            order@ == self@.settled(id),
    {
        Order {
            list_of_items: self.list_of_items,
            customer: self.customer,
            total_price: self.total_price,
            paid: true,
            order_id: id,
        }
    }
}

} // verus!
