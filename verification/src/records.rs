//! The records the checkout flow keeps: pending orders and pending gift
//! purchases, which bridge checkout and payment capture, and the durable
//! orders with their items.

use crate::cart::{AppliedDiscountView, CartItemView, OrderSnapshot, OrderSnapshotView};
use crate::text::{clone_opt, opt_text};
use vstd::prelude::*;

verus! {

/// A checkout that waits for its payment, keyed by the provider's order id.
/// `amount_cents` is the total owed, after the discount.
#[derive(Debug)]
pub struct PendingOrder {
    pub provider_order_id: String,
    pub user_id: Option<String>,
    pub email: String,
    pub amount_cents: i64,
    pub snapshot: OrderSnapshot,
    pub created_at: i64,
}

/// The mathematical content of a `PendingOrder`.
pub ghost struct PendingOrderView {
    pub provider_order_id: Seq<char>,
    pub user_id: Option<Seq<char>>,
    pub email: Seq<char>,
    pub amount_cents: int,
    pub snapshot: OrderSnapshotView,
    pub created_at: int,
}

impl View for PendingOrder {
    type V = PendingOrderView;

    open spec fn view(&self) -> PendingOrderView {
        PendingOrderView {
            provider_order_id: self.provider_order_id@,
            user_id: opt_text(self.user_id),
            email: self.email@,
            amount_cents: self.amount_cents as int,
            snapshot: self.snapshot@,
            created_at: self.created_at as int,
        }
    }
}

impl Clone for PendingOrder {
    fn clone(&self) -> (r: Self)
        ensures
            r@ == self@,
    {
        PendingOrder {
            provider_order_id: self.provider_order_id.clone(),
            user_id: clone_opt(&self.user_id),
            email: self.email.clone(),
            amount_cents: self.amount_cents,
            snapshot: self.snapshot.clone(),
            created_at: self.created_at,
        }
    }
}

/// A gift purchase that waits for its payment, keyed by the provider's order
/// id. `base_amount_cents` is what the buyer pays.
#[derive(Debug)]
pub struct PendingGift {
    pub provider_order_id: String,
    pub email: String,
    pub base_amount_cents: i64,
    pub created_at: i64,
}

/// The mathematical content of a `PendingGift`.
pub ghost struct PendingGiftView {
    pub provider_order_id: Seq<char>,
    pub email: Seq<char>,
    pub base_amount_cents: int,
    pub created_at: int,
}

impl View for PendingGift {
    type V = PendingGiftView;

    open spec fn view(&self) -> PendingGiftView {
        PendingGiftView {
            provider_order_id: self.provider_order_id@,
            email: self.email@,
            base_amount_cents: self.base_amount_cents as int,
            created_at: self.created_at as int,
        }
    }
}

impl Clone for PendingGift {
    fn clone(&self) -> (r: Self)
        ensures
            r == *self,
    {
        PendingGift {
            provider_order_id: self.provider_order_id.clone(),
            email: self.email.clone(),
            base_amount_cents: self.base_amount_cents,
            created_at: self.created_at,
        }
    }
}

/// What was bought with a gift purchase: the code that was issued and how
/// its value came about.
#[derive(Debug)]
pub struct GiftPurchase {
    pub code: String,
    pub base_amount_cents: i64,
    pub bonus_cents: i64,
    pub total_value_cents: i64,
}

/// The mathematical content of a `GiftPurchase`.
pub ghost struct GiftPurchaseView {
    pub code: Seq<char>,
    pub base_amount_cents: int,
    pub bonus_cents: int,
    pub total_value_cents: int,
}

impl View for GiftPurchase {
    type V = GiftPurchaseView;

    open spec fn view(&self) -> GiftPurchaseView {
        GiftPurchaseView {
            code: self.code@,
            base_amount_cents: self.base_amount_cents as int,
            bonus_cents: self.bonus_cents as int,
            total_value_cents: self.total_value_cents as int,
        }
    }
}

impl Clone for GiftPurchase {
    fn clone(&self) -> (r: Self)
        ensures
            r == *self,
    {
        GiftPurchase {
            code: self.code.clone(),
            base_amount_cents: self.base_amount_cents,
            bonus_cents: self.bonus_cents,
            total_value_cents: self.total_value_cents,
        }
    }
}

/// The audit snapshot an order keeps of what was bought.
#[derive(Debug)]
pub enum OrderContent {
    /// A cart with the discount that was applied to it.
    Cart(OrderSnapshot),
    /// A gift code.
    Gift(GiftPurchase),
}

/// The mathematical content of an `OrderContent`.
pub ghost enum OrderContentView {
    Cart(OrderSnapshotView),
    Gift(GiftPurchaseView),
}

impl View for OrderContent {
    type V = OrderContentView;

    open spec fn view(&self) -> OrderContentView {
        match self {
            OrderContent::Cart(s) => OrderContentView::Cart(s@),
            OrderContent::Gift(g) => OrderContentView::Gift(g@),
        }
    }
}

impl Clone for OrderContent {
    fn clone(&self) -> (r: Self)
        ensures
            r@ == self@,
    {
        match self {
            OrderContent::Cart(s) => OrderContent::Cart(s.clone()),
            OrderContent::Gift(g) => OrderContent::Gift(g.clone()),
        }
    }
}

/// A durable order. `total_cents` is the amount that was charged.
#[derive(Debug)]
pub struct Order {
    pub id: String,
    pub user_id: Option<String>,
    pub email: String,
    pub total_cents: i64,
    pub coupon_code: Option<String>,
    pub content: OrderContent,
    pub created_at: i64,
}

/// The mathematical content of an `Order`.
pub ghost struct OrderView {
    pub id: Seq<char>,
    pub user_id: Option<Seq<char>>,
    pub email: Seq<char>,
    pub total_cents: int,
    pub coupon_code: Option<Seq<char>>,
    pub content: OrderContentView,
    pub created_at: int,
}

impl View for Order {
    type V = OrderView;

    open spec fn view(&self) -> OrderView {
        OrderView {
            id: self.id@,
            user_id: opt_text(self.user_id),
            email: self.email@,
            total_cents: self.total_cents as int,
            coupon_code: opt_text(self.coupon_code),
            content: self.content@,
            created_at: self.created_at as int,
        }
    }
}

impl Clone for Order {
    fn clone(&self) -> (r: Self)
        ensures
            r@ == self@,
    {
        Order {
            id: self.id.clone(),
            user_id: clone_opt(&self.user_id),
            email: self.email.clone(),
            total_cents: self.total_cents,
            coupon_code: clone_opt(&self.coupon_code),
            content: self.content.clone(),
            created_at: self.created_at,
        }
    }
}

/// One line of a durable order, with the price and quantity as they were at
/// purchase time.
#[derive(Debug)]
pub struct OrderItemRecord {
    pub id: String,
    pub order_id: String,
    pub product_id: String,
    pub quantity: i64,
    pub unit_amount: i64,
}

/// The mathematical content of an `OrderItemRecord`.
pub ghost struct OrderItemRecordView {
    pub id: Seq<char>,
    pub order_id: Seq<char>,
    pub product_id: Seq<char>,
    pub quantity: int,
    pub unit_amount: int,
}

impl View for OrderItemRecord {
    type V = OrderItemRecordView;

    open spec fn view(&self) -> OrderItemRecordView {
        OrderItemRecordView {
            id: self.id@,
            order_id: self.order_id@,
            product_id: self.product_id@,
            quantity: self.quantity as int,
            unit_amount: self.unit_amount as int,
        }
    }
}

impl Clone for OrderItemRecord {
    fn clone(&self) -> (r: Self)
        ensures
            r == *self,
    {
        OrderItemRecord {
            id: self.id.clone(),
            order_id: self.order_id.clone(),
            product_id: self.product_id.clone(),
            quantity: self.quantity,
            unit_amount: self.unit_amount,
        }
    }
}

/// The code of an optional applied discount.
pub open spec fn discount_code(d: Option<AppliedDiscountView>) -> Option<Seq<char>> {
    match d {
        Some(a) => Some(a.code),
        None => None,
    }
}

/// The order that a pending order becomes: the same buyer, the amount that
/// was charged, the code of the discount that was applied, and the snapshot
/// of the cart.
pub open spec fn order_from_pending(pending: PendingOrderView, id: Seq<char>, now: int)
    -> OrderView {
    OrderView {
        id,
        user_id: pending.user_id,
        email: pending.email,
        total_cents: pending.amount_cents,
        coupon_code: discount_code(pending.snapshot.discount),
        content: OrderContentView::Cart(pending.snapshot),
        created_at: now,
    }
}

/// The order item that a cart line becomes: the product, quantity and price
/// of the line as they stand in the snapshot.
pub open spec fn item_from_line(line: CartItemView, id: Seq<char>, order_id: Seq<char>)
    -> OrderItemRecordView {
    OrderItemRecordView {
        id,
        order_id,
        product_id: line.product_id,
        quantity: line.quantity,
        unit_amount: line.unit_amount,
    }
}

} // verus!
