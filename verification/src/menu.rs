//! The menu and its prices.

use vstd::prelude::*;

verus! {

/// Amounts of money, in the shop's price unit or in the chain's base unit.
pub type Balance = u128;

/// Burgers sold in the shop.
#[derive(Debug, Clone, Copy, PartialEq, Eq, Structural)]
pub enum BurgerMenu {
    CheeseBurger,
    ChickenBurger,
    VeggieBurger,
}

impl BurgerMenu {
    /// Price of one burger of this kind.
    pub open spec fn unit_price(self) -> nat {
        match self {
            BurgerMenu::CheeseBurger => 12,
            BurgerMenu::VeggieBurger => 10,
            BurgerMenu::ChickenBurger => 15,
        }
    }

    /// Price of one burger of this kind.
    pub fn price(&self) -> (p: Balance)
        ensures
            p == self.unit_price(),
    {
        match self {
            BurgerMenu::CheeseBurger => 12,
            BurgerMenu::VeggieBurger => 10,
            BurgerMenu::ChickenBurger => 15,
        }
    }
}

/// One line of an order: a kind of burger and how many of it.
#[derive(Debug, Clone, Copy, PartialEq, Eq, Structural)]
pub struct FoodItem {
    pub burger_menu: BurgerMenu,
    pub amount: u32,
}

/// No line costs more than this: the dearest burger, the largest quantity.
pub open spec fn max_line_price() -> nat {
    15 * 0xffff_ffff
}

impl FoodItem {
    /// A line of `amount` burgers of kind `burger_menu`.
    pub fn new(burger_menu: BurgerMenu, amount: u32) -> (item: Self)
        ensures
            item.burger_menu == burger_menu,
            item.amount == amount,
    {
        FoodItem { burger_menu, amount }
    }

    /// Price of the line: unit price times quantity.
    pub open spec fn line_price(self) -> nat {
        self.burger_menu.unit_price() * (self.amount as nat)
    }

    /// Price of the line. The product always fits a `Balance`.
    pub fn price(&self) -> (p: Balance)
        ensures
            p == self.line_price(),
            p <= max_line_price(),
    {
        let unit: Balance = self.burger_menu.price();
        let quantity: Balance = self.amount as Balance;
        assert(unit * quantity <= 15 * 0xffff_ffff) by (nonlinear_arith)
            requires
                unit <= 15,
                quantity <= 0xffff_ffff,
        ;
        unit * quantity
    }
}

/// Sum of the line prices of `items`.
pub open spec fn order_total(items: Seq<FoodItem>) -> nat
    decreases items.len(),
{
    if items.len() == 0 {
        0
    } else {
        order_total(items.drop_last()) + items.last().line_price()
    }
}

/// The total of an order grows by at most the largest line price per line.
pub proof fn lemma_order_total_bound(items: Seq<FoodItem>)
    ensures
        order_total(items) <= items.len() * max_line_price(),
    decreases items.len(),
{
    if items.len() > 0 {
        lemma_order_total_bound(items.drop_last());
        let last = items.last();
        assert(last.line_price() <= max_line_price()) by (nonlinear_arith)
            requires
                last.line_price() == last.burger_menu.unit_price() * (last.amount as nat),
                last.burger_menu.unit_price() <= 15,
                last.amount <= 0xffff_ffff,
        ;
        assert((items.len() - 1) * max_line_price() + max_line_price() == items.len()
            * max_line_price()) by (nonlinear_arith);
    }
}

/// Adding a line to an order adds its price to the total.
pub proof fn lemma_order_total_push(items: Seq<FoodItem>, item: FoodItem)
    ensures
        order_total(items.push(item)) == order_total(items) + item.line_price(),
{
    assert(items.push(item).drop_last() =~= items);
}

/// The total of two lists joined is the sum of their totals.
pub proof fn lemma_order_total_concat(first: Seq<FoodItem>, second: Seq<FoodItem>)
    ensures
        order_total(first + second) == order_total(first) + order_total(second),
    decreases second.len(),
{
    if second.len() == 0 {
        assert(first + second =~= first);
    } else {
        lemma_order_total_concat(first, second.drop_last());
        assert((first + second).drop_last() =~= first + second.drop_last());
    }
}

} // verus!
