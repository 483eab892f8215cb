//! Checkout core of a restaurant ordering backend: discount evaluation for
//! coupons and stored-value gift codes, the pending-order lifecycle, and the
//! finalization of captured payments into durable orders.
//!
//! All amounts are integers in minor currency units (cents).

pub mod account;
pub mod admin;
pub mod amount;
pub mod cart;
pub mod checkout;
pub mod coupons;
pub mod discount;
pub mod finalize;
pub mod gateway;
pub mod gift;
pub mod ids;
pub mod json;
pub mod laws;
pub mod mail;
pub mod money;
pub mod orders;
pub mod records;
pub mod resolver;
pub mod snapshot;
pub mod store;
pub mod table;
pub mod text;
