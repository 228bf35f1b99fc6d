//! Order book of a burger shop: pricing of menu items, exact-payment
//! settlement and a ledger of paid orders with sequentially assigned ids.
//!
//! The logic here is pure. Whoever embeds it supplies the caller's and the
//! shop's account, the amount attached to a call and the outcome of the
//! balance transfer, and emits the notification records the shop hands out.

pub mod account;
pub mod error;
pub mod events;
pub mod menu;
pub mod order;
pub mod shop;

pub use account::AccountId;
pub use error::{BurgerShopError, TransferError};
pub use events::{CreatedShopAndStorage, GetAllOrders, GetSingleOrder, Transfer};
pub use menu::{Balance, BurgerMenu, FoodItem};
pub use order::{Order, OrderView};
pub use shop::{BurgerShop, PRICE_SCALE};
