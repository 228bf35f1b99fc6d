use burger_shop::menu::{BurgerMenu, FoodItem};
use burger_shop::order::Order;
use burger_shop::AccountId;

fn customer() -> AccountId {
    AccountId::new([7u8; 32])
}

#[test]
fn unit_prices_follow_the_menu() {
    assert_eq!(BurgerMenu::CheeseBurger.price(), 12);
    assert_eq!(BurgerMenu::ChickenBurger.price(), 15);
    assert_eq!(BurgerMenu::VeggieBurger.price(), 10);
}

#[test]
fn line_price_is_unit_price_times_quantity() {
    assert_eq!(FoodItem::new(BurgerMenu::CheeseBurger, 3).price(), 36);
    assert_eq!(FoodItem::new(BurgerMenu::ChickenBurger, 4).price(), 60);
    assert_eq!(FoodItem::new(BurgerMenu::VeggieBurger, 1).price(), 10);
    assert_eq!(FoodItem::new(BurgerMenu::VeggieBurger, 0).price(), 0);
}

#[test]
fn line_price_of_the_largest_quantity_does_not_wrap() {
    let item = FoodItem::new(BurgerMenu::ChickenBurger, u32::MAX);
    assert_eq!(item.price(), 15u128 * 4_294_967_295u128);
    assert_eq!(item.price(), 64_424_509_425u128);
}

#[test]
fn total_is_the_sum_of_the_lines() {
    let items = vec![
        FoodItem::new(BurgerMenu::CheeseBurger, 2),
        FoodItem::new(BurgerMenu::VeggieBurger, 1),
    ];
    assert_eq!(Order::total_price(&items), 34);
    let items = vec![
        FoodItem::new(BurgerMenu::CheeseBurger, 1),
        FoodItem::new(BurgerMenu::ChickenBurger, 2),
        FoodItem::new(BurgerMenu::VeggieBurger, 3),
        FoodItem::new(BurgerMenu::CheeseBurger, 4),
    ];
    assert_eq!(Order::total_price(&items), 12 + 30 + 30 + 48);
}

#[test]
fn total_of_no_lines_is_zero() {
    assert_eq!(Order::total_price(&Vec::new()), 0);
}

#[test]
fn total_of_many_large_lines_does_not_wrap() {
    let items = vec![FoodItem::new(BurgerMenu::ChickenBurger, u32::MAX); 1000];
    assert_eq!(Order::total_price(&items), 64_424_509_425_000u128);
}

#[test]
fn total_of_joined_lists_is_the_sum_of_their_totals() {
    let first = vec![FoodItem::new(BurgerMenu::CheeseBurger, 5)];
    let second = vec![
        FoodItem::new(BurgerMenu::VeggieBurger, 2),
        FoodItem::new(BurgerMenu::ChickenBurger, 1),
    ];
    let mut joined = first.clone();
    joined.extend(second.iter().copied());
    assert_eq!(
        Order::total_price(&joined),
        Order::total_price(&first) + Order::total_price(&second)
    );
    assert_eq!(Order::total_price(&joined), 95);
}

#[test]
fn new_order_is_priced_and_unpaid() {
    let items = vec![
        FoodItem::new(BurgerMenu::ChickenBurger, 2),
        FoodItem::new(BurgerMenu::VeggieBurger, 2),
    ];
    let order = Order::new(items.clone(), customer(), 9);
    assert_eq!(order.items(), &items);
    assert_eq!(order.customer(), customer());
    assert_eq!(order.price(), 50);
    assert!(!order.is_paid());
    assert_eq!(order.id(), 9);
}

#[test]
fn copy_of_an_order_equals_it() {
    let order = Order::new(vec![FoodItem::new(BurgerMenu::CheeseBurger, 1)], customer(), 0);
    let copy = order.clone();
    assert_eq!(copy, order);
    assert_eq!(copy.items().len(), 1);
    assert_eq!(copy.price(), 12);
}

#[test]
fn order_from_parts_needs_lines_and_the_right_price() {
    let items = vec![FoodItem::new(BurgerMenu::CheeseBurger, 2)];
    let order = Order::from_parts(items.clone(), customer(), 24, true, 3).unwrap();
    assert_eq!(order.price(), 24);
    assert!(order.is_paid());
    assert_eq!(order.id(), 3);
    assert_eq!(order.items(), &items);
    assert!(Order::from_parts(items.clone(), customer(), 25, true, 3).is_none());
    assert!(Order::from_parts(items, customer(), 23, false, 3).is_none());
    assert!(Order::from_parts(Vec::new(), customer(), 0, true, 3).is_none());
}

#[test]
fn accounts_are_the_same_when_all_bytes_are() {
    let a = AccountId::new([1u8; 32]);
    let b = AccountId::new([1u8; 32]);
    let mut bytes = [1u8; 32];
    bytes[31] = 2;
    let c = AccountId::new(bytes);
    let mut bytes = [1u8; 32];
    bytes[0] = 0;
    let d = AccountId::new(bytes);
    assert!(a.same_as(&b));
    assert!(!a.same_as(&c));
    assert!(!c.same_as(&a));
    assert!(!a.same_as(&d));
    assert_eq!(c.as_bytes()[31], 2);
}
