//! The tables the checkout flow works on, held in memory: discount sources,
//! pending orders and gifts, orders and their items.
//!
//! A lookup returns the first row that answers to the key. A delete removes
//! every row that does, and a put replaces them, so a table that is only
//! filled through `put_*` holds at most one row per key.

use crate::discount::{Coupon, CouponView, GiftCode, GiftCodeView};
use crate::records::{
    Order, OrderItemRecord, OrderItemRecordView, OrderView, PendingGift, PendingGiftView,
    PendingOrder, PendingOrderView,
};
use crate::table::{delete, delete_rows, find_row, lookup, opt_view, rows_view, Row};
use crate::text::{eq_ignore_ascii_case, same_nocase, same_text};
use vstd::prelude::*;

verus! {

impl Row for GiftCode {
    /// Gift codes are found without regard to ASCII letter case.
    open spec fn has_key(row: GiftCodeView, key: Seq<char>) -> bool {
        same_nocase(row.code, key)
    }

    fn matches_key(&self, key: &str) -> (yes: bool) {
        eq_ignore_ascii_case(self.code.as_str(), key)
    }

    fn duplicate(&self) -> (r: Self) {
        self.clone()
    }
}

impl Row for Coupon {
    /// Coupons are found by their exact code.
    open spec fn has_key(row: CouponView, key: Seq<char>) -> bool {
        row.code == key
    }

    fn matches_key(&self, key: &str) -> (yes: bool) {
        same_text(self.code.as_str(), key)
    }

    fn duplicate(&self) -> (r: Self) {
        self.clone()
    }
}

impl Row for PendingOrder {
    open spec fn has_key(row: PendingOrderView, key: Seq<char>) -> bool {
        row.provider_order_id == key
    }

    fn matches_key(&self, key: &str) -> (yes: bool) {
        same_text(self.provider_order_id.as_str(), key)
    }

    fn duplicate(&self) -> (r: Self) {
        self.clone()
    }
}

impl Row for PendingGift {
    open spec fn has_key(row: PendingGiftView, key: Seq<char>) -> bool {
        row.provider_order_id == key
    }

    fn matches_key(&self, key: &str) -> (yes: bool) {
        same_text(self.provider_order_id.as_str(), key)
    }

    fn duplicate(&self) -> (r: Self) {
        self.clone()
    }
}

impl Row for Order {
    open spec fn has_key(row: OrderView, key: Seq<char>) -> bool {
        row.id == key
    }

    fn matches_key(&self, key: &str) -> (yes: bool) {
        same_text(self.id.as_str(), key)
    }

    fn duplicate(&self) -> (r: Self) {
        self.clone()
    }
}

/// The tables, as rows in insertion order.
#[derive(Debug)]
pub struct Store {
    pub gift_codes: Vec<GiftCode>,
    pub coupons: Vec<Coupon>,
    pub pending_orders: Vec<PendingOrder>,
    pub pending_gifts: Vec<PendingGift>,
    pub orders: Vec<Order>,
    pub order_items: Vec<OrderItemRecord>,
}

/// The mathematical content of a `Store`.
pub ghost struct StoreView {
    pub gift_codes: Seq<GiftCodeView>,
    pub coupons: Seq<CouponView>,
    pub pending_orders: Seq<PendingOrderView>,
    pub pending_gifts: Seq<PendingGiftView>,
    pub orders: Seq<OrderView>,
    pub order_items: Seq<OrderItemRecordView>,
}

impl View for Store {
    type V = StoreView;

    open spec fn view(&self) -> StoreView {
        StoreView {
            gift_codes: rows_view(self.gift_codes@),
            coupons: rows_view(self.coupons@),
            pending_orders: rows_view(self.pending_orders@),
            pending_gifts: rows_view(self.pending_gifts@),
            orders: rows_view(self.orders@),
            order_items: rows_view(self.order_items@),
        }
    }
}

/// The coupons after the one stored under `code` was used once.
pub open spec fn use_coupon(rows: Seq<CouponView>, code: Seq<char>) -> Seq<CouponView> {
    rows.map_values(
        |c: CouponView|
            if Coupon::has_key(c, code) {
                c.used()
            } else {
                c
            },
    )
}

/// The gift codes after `amount` was redeemed from the one stored under
/// `code`.
pub open spec fn redeem_gift(rows: Seq<GiftCodeView>, code: Seq<char>, amount: int) -> Seq<
    GiftCodeView,
> {
    rows.map_values(
        |g: GiftCodeView|
            if GiftCode::has_key(g, code) {
                g.redeemed(amount)
            } else {
                g
            },
    )
}

/// The table after a row was put under its key: the rows that answered to the
/// key are gone and the new row stands last.
pub open spec fn put<T: Row>(rows: Seq<T::V>, key: Seq<char>, row: T::V) -> Seq<T::V> {
    delete::<T>(rows, key).push(row)
}

/// How long a pending record is kept, in seconds: twenty-four hours.
pub const RETENTION_SECONDS: i64 = 86400;

/// Whether a record created at `created_at` is older than the retention
/// window at time `now` (both in seconds).
pub open spec fn is_stale(created_at: int, now: int) -> bool {
    now - created_at > 86400
}

/// The pending orders that a sweep at `now` keeps.
pub open spec fn fresh_orders(rows: Seq<PendingOrderView>, now: int) -> Seq<PendingOrderView> {
    rows.filter(|p: PendingOrderView| !is_stale(p.created_at, now))
}

/// The pending gifts that a sweep at `now` keeps.
pub open spec fn fresh_gifts(rows: Seq<PendingGiftView>, now: int) -> Seq<PendingGiftView> {
    rows.filter(|p: PendingGiftView| !is_stale(p.created_at, now))
}

impl StoreView {
    /// Every balance and every use count is non-negative.
    pub open spec fn wf(self) -> bool {
        &&& forall|i: int| 0 <= i < self.gift_codes.len() ==> (#[trigger] self.gift_codes[i]).wf()
        &&& forall|i: int| 0 <= i < self.coupons.len() ==> (#[trigger] self.coupons[i]).wf()
    }

    /// The store after a sweep at `now`.
    pub open spec fn swept(self, now: int) -> StoreView {
        StoreView {
            pending_orders: fresh_orders(self.pending_orders, now),
            pending_gifts: fresh_gifts(self.pending_gifts, now),
            ..self
        }
    }
}

/// Whether a record created at `created_at` is older than the retention
/// window at time `now`.
pub fn stale(created_at: i64, now: i64) -> (old: bool)
    ensures
        old == is_stale(created_at as int, now as int),
{
    now as i128 - created_at as i128 > RETENTION_SECONDS as i128
}

/// How many pending records a sweep removed.
#[derive(Clone, Copy, Debug, PartialEq, Eq, Structural)]
pub struct SweepReport {
    pub pending_orders_deleted: usize,
    pub pending_gifts_deleted: usize,
}

impl Store {
    /// A store with empty tables.
    pub fn new() -> (s: Store)
        ensures
            s@.gift_codes.len() == 0,
            s@.coupons.len() == 0,
            s@.pending_orders.len() == 0,
            s@.pending_gifts.len() == 0,
            s@.orders.len() == 0,
            s@.order_items.len() == 0,
    {
        Store {
            gift_codes: Vec::new(),
            coupons: Vec::new(),
            pending_orders: Vec::new(),
            pending_gifts: Vec::new(),
            orders: Vec::new(),
            order_items: Vec::new(),
        }
    }

    /// The gift code stored under `code`, letter case aside.
    pub fn find_gift_code(&self, code: &str) -> (r: Option<GiftCode>)
        ensures
            opt_view(r) == lookup::<GiftCode>(self@.gift_codes, code@),
    {
        find_row(&self.gift_codes, code)
    }

    /// The coupon stored under exactly `code`.
    pub fn find_coupon(&self, code: &str) -> (r: Option<Coupon>)
        ensures
            opt_view(r) == lookup::<Coupon>(self@.coupons, code@),
    {
        find_row(&self.coupons, code)
    }

    /// The pending order for the provider order `id`.
    pub fn find_pending_order(&self, id: &str) -> (r: Option<PendingOrder>)
        ensures
            opt_view(r) == lookup::<PendingOrder>(self@.pending_orders, id@),
    {
        find_row(&self.pending_orders, id)
    }

    /// The pending gift for the provider order `id`.
    pub fn find_pending_gift(&self, id: &str) -> (r: Option<PendingGift>)
        ensures
            opt_view(r) == lookup::<PendingGift>(self@.pending_gifts, id@),
    {
        find_row(&self.pending_gifts, id)
    }

    /// The order with the internal id `id`.
    pub fn find_order(&self, id: &str) -> (r: Option<Order>)
        ensures
            opt_view(r) == lookup::<Order>(self@.orders, id@),
    {
        find_row(&self.orders, id)
    }

    /// Stores a pending order under its provider order id, replacing what was
    /// stored under that id.
    pub fn put_pending_order(&mut self, pending: PendingOrder)
        ensures
            final(self)@ == (StoreView {
                pending_orders: put::<PendingOrder>(
                    old(self)@.pending_orders,
                    pending@.provider_order_id,
                    pending@,
                ),
                ..old(self)@
            }),
    {
        let _removed: usize = delete_rows(&mut self.pending_orders, pending.provider_order_id.as_str());
        proof {
            assert(rows_view(self.pending_orders@.push(pending)) =~= rows_view(
                self.pending_orders@,
            ).push(pending@));
        }
        self.pending_orders.push(pending);
    }

    /// Stores a pending gift under its provider order id, replacing what was
    /// stored under that id.
    pub fn put_pending_gift(&mut self, pending: PendingGift)
        ensures
            final(self)@ == (StoreView {
                pending_gifts: put::<PendingGift>(
                    old(self)@.pending_gifts,
                    pending@.provider_order_id,
                    pending@,
                ),
                ..old(self)@
            }),
    {
        let _removed: usize = delete_rows(&mut self.pending_gifts, pending.provider_order_id.as_str());
        proof {
            assert(rows_view(self.pending_gifts@.push(pending)) =~= rows_view(
                self.pending_gifts@,
            ).push(pending@));
        }
        self.pending_gifts.push(pending);
    }

    /// Deletes the pending order for the provider order `id` and says whether
    /// there was one.
    pub fn delete_pending_order(&mut self, id: &str) -> (deleted: bool)
        ensures
            final(self)@ == (StoreView {
                pending_orders: delete::<PendingOrder>(old(self)@.pending_orders, id@),
                ..old(self)@
            }),
            deleted == lookup::<PendingOrder>(old(self)@.pending_orders, id@).is_some(),
    {
        let removed: usize = delete_rows(&mut self.pending_orders, id);
        removed > 0
    }

    /// Deletes the pending gift for the provider order `id` and says whether
    /// there was one.
    pub fn delete_pending_gift(&mut self, id: &str) -> (deleted: bool)
        ensures
            final(self)@ == (StoreView {
                pending_gifts: delete::<PendingGift>(old(self)@.pending_gifts, id@),
                ..old(self)@
            }),
            deleted == lookup::<PendingGift>(old(self)@.pending_gifts, id@).is_some(),
    {
        let removed: usize = delete_rows(&mut self.pending_gifts, id);
        removed > 0
    }

    /// Stores a coupon under its code, replacing what was stored under that
    /// code.
    pub fn put_coupon(&mut self, coupon: Coupon)
        ensures
            final(self)@ == (StoreView {
                coupons: put::<Coupon>(old(self)@.coupons, coupon@.code, coupon@),
                ..old(self)@
            }),
    {
        let _removed: usize = delete_rows(&mut self.coupons, coupon.code.as_str());
        proof {
            assert(rows_view(self.coupons@.push(coupon)) =~= rows_view(self.coupons@).push(
                coupon@,
            ));
        }
        self.coupons.push(coupon);
    }

    /// Adds a gift code unless one is stored under its code already, and says
    /// whether it was added.
    pub fn add_gift_code(&mut self, gift: GiftCode) -> (added: bool)
        ensures
            added == lookup::<GiftCode>(old(self)@.gift_codes, gift@.code).is_none(),
            added ==> final(self)@ == (StoreView {
                gift_codes: old(self)@.gift_codes.push(gift@),
                ..old(self)@
            }),
            !added ==> final(self)@ == old(self)@,
    {
        let present: Option<GiftCode> = find_row(&self.gift_codes, gift.code.as_str());
        if present.is_some() {
            return false;
        }
        proof {
            assert(rows_view(self.gift_codes@.push(gift)) =~= rows_view(self.gift_codes@).push(
                gift@,
            ));
        }
        self.gift_codes.push(gift);
        true
    }

    /// Appends an order.
    pub fn insert_order(&mut self, order: Order)
        ensures
            final(self)@ == (StoreView { orders: old(self)@.orders.push(order@), ..old(self)@ }),
    {
        proof {
            assert(rows_view(self.orders@.push(order)) =~= rows_view(self.orders@).push(order@));
        }
        self.orders.push(order);
    }

    /// Appends an order item.
    pub fn insert_order_item(&mut self, item: OrderItemRecord)
        ensures
            final(self)@ == (StoreView {
                order_items: old(self)@.order_items.push(item@),
                ..old(self)@
            }),
    {
        proof {
            assert(rows_view(self.order_items@.push(item)) =~= rows_view(self.order_items@).push(
                item@,
            ));
        }
        self.order_items.push(item);
    }

    /// Appends order items, in order.
    pub fn insert_order_items(&mut self, items: &Vec<OrderItemRecord>)
        ensures
            final(self)@ == (StoreView {
                order_items: old(self)@.order_items + rows_view(items@),
                ..old(self)@
            }),
    {
        let mut i: usize = 0;
        proof {
            assert(old(self)@.order_items + rows_view(items@).take(0) =~= old(self)@.order_items);
        }
        while i < items.len()
            invariant
                i <= items.len(),
                self@ == (StoreView {
                    order_items: old(self)@.order_items + rows_view(items@).take(i as int),
                    ..old(self)@
                }),
            decreases items.len() - i,
        {
            let item: OrderItemRecord = items[i].clone();
            proof {
                assert((old(self)@.order_items + rows_view(items@).take(i as int)).push(item@)
                    =~= old(self)@.order_items + rows_view(items@).take(i + 1));
            }
            self.insert_order_item(item);
            i += 1;
        }
        proof {
            assert(rows_view(items@).take(items.len() as int) =~= rows_view(items@));
        }
    }

    /// Counts one use of the coupon stored under `code`, floored at zero.
    pub fn use_coupon(&mut self, code: &str)
        ensures
            final(self)@ == (StoreView {
                coupons: use_coupon(old(self)@.coupons, code@),
                ..old(self)@
            }),
    {
        let mut updated: Vec<Coupon> = Vec::new();
        let mut i: usize = 0;
        while i < self.coupons.len()
            invariant
                i <= self.coupons.len(),
                *self == *old(self),
                rows_view(updated@) =~= use_coupon(rows_view(self.coupons@), code@).take(i as int),
            decreases self.coupons.len() - i,
        {
            let mut coupon: Coupon = self.coupons[i].clone();
            if coupon.matches_key(code) {
                coupon.consume();
            }
            proof {
                assert(rows_view(updated@.push(coupon)) =~= rows_view(updated@).push(coupon@));
            }
            updated.push(coupon);
            i += 1;
        }
        proof {
            let all = use_coupon(rows_view(self.coupons@), code@);
            assert(all.take(self.coupons.len() as int) =~= all);
        }
        self.coupons = updated;
    }

    /// Takes `amount_cents` off the gift code stored under `code`, floored at
    /// zero. A code whose balance reaches zero stays in the table.
    pub fn redeem_gift_code(&mut self, code: &str, amount_cents: i64)
        ensures
            final(self)@ == (StoreView {
                gift_codes: redeem_gift(old(self)@.gift_codes, code@, amount_cents as int),
                ..old(self)@
            }),
    {
        let mut updated: Vec<GiftCode> = Vec::new();
        let mut i: usize = 0;
        while i < self.gift_codes.len()
            invariant
                i <= self.gift_codes.len(),
                *self == *old(self),
                rows_view(updated@) =~= redeem_gift(
                    rows_view(self.gift_codes@),
                    code@,
                    amount_cents as int,
                ).take(i as int),
            decreases self.gift_codes.len() - i,
        {
            let mut gift: GiftCode = self.gift_codes[i].clone();
            if gift.matches_key(code) {
                gift.redeem(amount_cents);
            }
            proof {
                assert(rows_view(updated@.push(gift)) =~= rows_view(updated@).push(gift@));
            }
            updated.push(gift);
            i += 1;
        }
        proof {
            let all = redeem_gift(rows_view(self.gift_codes@), code@, amount_cents as int);
            assert(all.take(self.gift_codes.len() as int) =~= all);
        }
        self.gift_codes = updated;
    }

    /// Removes the pending orders and pending gifts that are older than the
    /// retention window at `now`, whatever became of their payments.
    pub fn sweep(&mut self, now: i64) -> (report: SweepReport)
        ensures
            final(self)@ == old(self)@.swept(now as int),
            report.pending_orders_deleted == old(self)@.pending_orders.len()
                - final(self)@.pending_orders.len(),
            report.pending_gifts_deleted == old(self)@.pending_gifts.len()
                - final(self)@.pending_gifts.len(),
    {
        let ghost orders = rows_view(self.pending_orders@);
        let ghost gifts = rows_view(self.pending_gifts@);
        let ghost keep_order = |p: PendingOrderView| !is_stale(p.created_at, now as int);
        let ghost keep_gift = |p: PendingGiftView| !is_stale(p.created_at, now as int);
        let mut kept_orders: Vec<PendingOrder> = Vec::new();
        let mut orders_deleted: usize = 0;
        let mut i: usize = 0;
        proof {
            reveal(Seq::filter);
            assert(orders.take(0) =~= Seq::<PendingOrderView>::empty());
            assert(gifts.take(0) =~= Seq::<PendingGiftView>::empty());
            assert(rows_view(kept_orders@) =~= Seq::<PendingOrderView>::empty());
        }
        while i < self.pending_orders.len()
            invariant
                i <= self.pending_orders.len(),
                *self == *old(self),
                orders == rows_view(self.pending_orders@),
                keep_order == (|p: PendingOrderView| !is_stale(p.created_at, now as int)),
                rows_view(kept_orders@) == orders.take(i as int).filter(keep_order),
                orders_deleted + kept_orders@.len() == i,
            decreases self.pending_orders.len() - i,
        {
            proof {
                assert(orders.take(i + 1) =~= orders.take(i as int).push(orders[i as int]));
                orders.take(i as int).lemma_filter_push(orders[i as int], keep_order);
            }
            if stale(self.pending_orders[i].created_at, now) {
                orders_deleted += 1;
            } else {
                let row: PendingOrder = self.pending_orders[i].clone();
                proof {
                    assert(rows_view(kept_orders@.push(row)) =~= rows_view(kept_orders@).push(
                        row@,
                    ));
                }
                kept_orders.push(row);
            }
            i += 1;
        }
        let mut kept_gifts: Vec<PendingGift> = Vec::new();
        let mut gifts_deleted: usize = 0;
        let mut k: usize = 0;
        proof {
            assert(orders.take(self.pending_orders.len() as int) =~= orders);
            assert(rows_view(kept_gifts@) =~= Seq::<PendingGiftView>::empty());
        }
        while k < self.pending_gifts.len()
            invariant
                k <= self.pending_gifts.len(),
                *self == *old(self),
                gifts == rows_view(self.pending_gifts@),
                keep_gift == (|p: PendingGiftView| !is_stale(p.created_at, now as int)),
                rows_view(kept_gifts@) == gifts.take(k as int).filter(keep_gift),
                gifts_deleted + kept_gifts@.len() == k,
            decreases self.pending_gifts.len() - k,
        {
            proof {
                assert(gifts.take(k + 1) =~= gifts.take(k as int).push(gifts[k as int]));
                gifts.take(k as int).lemma_filter_push(gifts[k as int], keep_gift);
            }
            if stale(self.pending_gifts[k].created_at, now) {
                gifts_deleted += 1;
            } else {
                let row: PendingGift = self.pending_gifts[k].clone();
                proof {
                    assert(rows_view(kept_gifts@.push(row)) =~= rows_view(kept_gifts@).push(row@));
                }
                kept_gifts.push(row);
            }
            k += 1;
        }
        proof {
            assert(gifts.take(self.pending_gifts.len() as int) =~= gifts);
        }
        self.pending_orders = kept_orders;
        self.pending_gifts = kept_gifts;
        SweepReport { pending_orders_deleted: orders_deleted, pending_gifts_deleted: gifts_deleted }
    }
}

} // verus!
