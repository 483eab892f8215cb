//! Finalization: turning a captured payment into a durable order.
//!
//! A pending order is consumed exactly once. The order and its items are
//! built from what the pending order recorded at checkout, never from current
//! prices or current discount state; the discount source that was used is
//! decremented; the pending order is deleted. A callback for an order that
//! has no pending record is a success that changes nothing, because the
//! provider delivers callbacks at least once.
//!
//! What was decided is returned with the outcome: the order, its items, and
//! the discount that was taken. A caller that keeps its tables elsewhere
//! carries out exactly that.

use crate::cart::{
    AppliedDiscount, AppliedDiscountView, CartItem, CartItemView, cart_view, opt_discount_view,
};
use crate::discount::DiscountKind;
use crate::gateway::{is_settled, settled, CaptureResult};
use crate::ids::{fresh_id, is_uuid_text};
use crate::records::{
    item_from_line, order_from_pending, Order, OrderContent, OrderItemRecord,
    OrderItemRecordView, OrderView, PendingOrder, PendingOrderView,
};
use crate::resolver::{lookup_source, source_spec};
use crate::store::{redeem_gift, use_coupon, Store, StoreView};
use crate::table::{delete, lookup, opt_view, rows_view};
use crate::text::{clone_opt, to_upper, uppercase};
use vstd::prelude::*;

verus! {

/// What a finalization decided: the order and its items to create, and the
/// discount to take from its source, if any.
#[derive(Debug)]
pub struct Finalization {
    pub order: Order,
    pub items: Vec<OrderItemRecord>,
    /// The discount to take: which kind of source, the code it is stored
    /// under, and the amount. `None` where nothing is to be taken.
    pub settlement: Option<AppliedDiscount>,
}

/// The mathematical content of a `Finalization`.
pub ghost struct FinalizationView {
    pub order: OrderView,
    pub items: Seq<OrderItemRecordView>,
    pub settlement: Option<AppliedDiscountView>,
}

impl View for Finalization {
    type V = FinalizationView;

    open spec fn view(&self) -> FinalizationView {
        FinalizationView {
            order: self.order@,
            items: rows_view(self.items@),
            settlement: opt_discount_view(self.settlement),
        }
    }
}

/// How a finalization ended.
#[derive(Debug)]
pub enum FinalizationOutcome {
    /// The capture call itself failed. Nothing was changed; a later callback
    /// may succeed.
    TransientFailure,
    /// The payment is not settled. Nothing was changed.
    NotSettled,
    /// The payment is settled and no pending order is left for it: it was
    /// finalized before. Nothing was changed.
    AlreadyProcessed,
    /// The pending order was turned into an order.
    Finalized(Finalization),
}

/// The mathematical content of a `FinalizationOutcome`.
pub ghost enum FinalizationOutcomeView {
    TransientFailure,
    NotSettled,
    AlreadyProcessed,
    Finalized(FinalizationView),
}

impl View for FinalizationOutcome {
    type V = FinalizationOutcomeView;

    open spec fn view(&self) -> FinalizationOutcomeView {
        match self {
            FinalizationOutcome::TransientFailure => FinalizationOutcomeView::TransientFailure,
            FinalizationOutcome::NotSettled => FinalizationOutcomeView::NotSettled,
            FinalizationOutcome::AlreadyProcessed => FinalizationOutcomeView::AlreadyProcessed,
            FinalizationOutcome::Finalized(f) => FinalizationOutcomeView::Finalized(f@),
        }
    }
}

impl FinalizationOutcome {
    /// The id of the order that was created, if one was.
    pub fn order_id(&self) -> (id: Option<String>)
        ensures
            match self@ {
                FinalizationOutcomeView::Finalized(f) => id matches Some(s) && s@ == f.order.id,
                _ => id is None,
            },
    {
        match self {
            FinalizationOutcome::Finalized(f) => Some(f.order.id.clone()),
            _ => None,
        }
    }

    /// Whether the payer is to be told that all is well: the order was
    /// created now, or had been created before.
    pub fn is_success(&self) -> (ok: bool)
        ensures
            ok == (self@ is Finalized || self@ is AlreadyProcessed),
    {
        match self {
            FinalizationOutcome::Finalized(_) => true,
            FinalizationOutcome::AlreadyProcessed => true,
            _ => false,
        }
    }
}

/// The discount to take for a recorded discount, where `upper` is the
/// recorded code in upper case. A record that names its source is taken as
/// it stands. For one that does not, the source is the one the recorded code
/// names now, by the ordered lookup of the resolver: a gift code that still
/// carries value, else a coupon that can be applied; where the code names
/// none, nothing is taken.
pub open spec fn settlement_for(
    store: StoreView,
    discount: Option<AppliedDiscountView>,
    upper: Seq<char>,
) -> Option<AppliedDiscountView> {
    match discount {
        None => None,
        Some(d) => match d.source {
            Some(_) => Some(d),
            None => match source_spec(store, d.code, upper) {
                Some(source) => Some(
                    AppliedDiscountView {
                        source: Some(source.kind()),
                        code: source.code(),
                        discount_cents: d.discount_cents,
                    },
                ),
                None => None,
            },
        },
    }
}

/// The discount to take for a recorded discount.
pub open spec fn settlement_of(store: StoreView, discount: Option<AppliedDiscountView>) -> Option<
    AppliedDiscountView,
> {
    match discount {
        None => None,
        Some(d) => settlement_for(store, discount, uppercase(d.code)),
    }
}

/// The tables after a discount was taken from its source: one use from a
/// coupon, the discounted amount from a gift code.
pub open spec fn settlement_applied(store: StoreView, settlement: Option<AppliedDiscountView>)
    -> StoreView {
    match settlement {
        None => store,
        Some(d) => match d.source {
            Some(DiscountKind::Coupon) => StoreView {
                coupons: use_coupon(store.coupons, d.code),
                ..store
            },
            Some(DiscountKind::GiftCode) => StoreView {
                gift_codes: redeem_gift(store.gift_codes, d.code, d.discount_cents),
                ..store
            },
            None => store,
        },
    }
}

/// The tables after the discount that an order recorded was taken from its
/// source.
pub open spec fn discount_settled(store: StoreView, discount: Option<AppliedDiscountView>)
    -> StoreView {
    settlement_applied(store, settlement_of(store, discount))
}

/// Whether `items` are the order items of the cart lines `cart` for the order
/// `order_id`: one item per line, in order, each with the product, quantity
/// and price of its line.
pub open spec fn items_match(
    items: Seq<OrderItemRecordView>,
    cart: Seq<CartItemView>,
    order_id: Seq<char>,
) -> bool {
    &&& items.len() == cart.len()
    &&& forall|i: int|
        0 <= i < items.len() ==> #[trigger] items[i] == item_from_line(
            cart[i],
            items[i].id,
            order_id,
        )
}

/// Whether `f` is what the pending order `pending` becomes at time `now`,
/// given the tables `store`.
pub open spec fn finalization_of(
    store: StoreView,
    pending: PendingOrderView,
    now: int,
    f: FinalizationView,
) -> bool {
    &&& f.order == order_from_pending(pending, f.order.id, now)
    &&& f.settlement == settlement_of(store, pending.snapshot.discount)
    &&& is_uuid_text(f.order.id)
    &&& items_match(f.items, pending.snapshot.cart, f.order.id)
    &&& forall|i: int| 0 <= i < f.items.len() ==> is_uuid_text((#[trigger] f.items[i]).id)
}

/// The tables after the pending order stored under `id` was finalized into
/// `f`: the order and its items are added, the discount that `f` names is
/// taken, and the pending order is gone.
pub open spec fn finalized_store(pre: StoreView, id: Seq<char>, f: FinalizationView) -> StoreView {
    let settled = settlement_applied(pre, f.settlement);
    StoreView {
        orders: pre.orders.push(f.order),
        order_items: pre.order_items + f.items,
        pending_orders: delete::<PendingOrder>(pre.pending_orders, id),
        ..settled
    }
}

/// What `finalize` does: how the tables `post` and the outcome `out` follow
/// from the tables `pre`, the provider order `id`, the status of the capture
/// (`None` where the capture call failed) and the time `now`.
pub open spec fn finalize_post(
    pre: StoreView,
    id: Seq<char>,
    status: Option<Seq<char>>,
    now: int,
    post: StoreView,
    out: FinalizationOutcomeView,
) -> bool {
    match status {
        None => out is TransientFailure && post == pre,
        Some(st) => if !is_settled(st) {
            out is NotSettled && post == pre
        } else {
            match lookup::<PendingOrder>(pre.pending_orders, id) {
                None => out is AlreadyProcessed && post == pre,
                Some(pending) => {
                    &&& out matches FinalizationOutcomeView::Finalized(f)
                    &&& finalization_of(pre, pending, now, f)
                    &&& post == finalized_store(pre, id, f)
                },
            }
        },
    }
}

/// The order that `pending` becomes under the id `id`.
pub fn order_for(id: String, pending: &PendingOrder, now: i64) -> (order: Order)
    ensures
        order@ == order_from_pending(pending@, id@, now as int),
{
    let coupon_code: Option<String> = match &pending.snapshot.discount {
        Some(d) => Some(d.code.clone()),
        None => None,
    };
    Order {
        id,
        user_id: clone_opt(&pending.user_id),
        email: pending.email.clone(),
        total_cents: pending.amount_cents,
        coupon_code,
        content: OrderContent::Cart(pending.snapshot.clone()),
        created_at: now,
    }
}

/// The order item that the cart line `line` becomes under the id `id`, for
/// the order `order_id`.
pub fn order_item_for(id: String, order_id: &str, line: &CartItem) -> (item: OrderItemRecord)
    ensures
        item@ == item_from_line(line@, id@, order_id@),
{
    OrderItemRecord {
        id,
        order_id: order_id.to_owned(),
        product_id: line.product_id.clone(),
        quantity: line.quantity,
        unit_amount: line.unit_amount,
    }
}

/// The discount to take for a recorded discount, where `code_upper` is the
/// recorded code in upper case.
pub fn resolve_settlement_canonical(
    store: &Store,
    discount: &Option<AppliedDiscount>,
    code_upper: &str,
) -> (settlement: Option<AppliedDiscount>)
    ensures
        opt_discount_view(settlement) == settlement_for(
            store@,
            opt_discount_view(*discount),
            code_upper@,
        ),
{
    match discount {
        None => None,
        Some(d) => match d.source {
            Some(_) => Some(d.clone()),
            None => match lookup_source(store, d.code.as_str(), code_upper) {
                Some(source) => Some(
                    AppliedDiscount {
                        source: Some(source.kind()),
                        code: source.code(),
                        discount_cents: d.discount_cents,
                    },
                ),
                None => None,
            },
        },
    }
}

/// The discount to take for a recorded discount. The tables are not changed.
pub fn resolve_settlement(store: &Store, discount: &Option<AppliedDiscount>) -> (settlement: Option<
    AppliedDiscount,
>)
    ensures
        opt_discount_view(settlement) == settlement_of(store@, opt_discount_view(*discount)),
{
    match discount {
        None => None,
        Some(d) => {
            let upper: String = to_upper(d.code.as_str());
            resolve_settlement_canonical(store, discount, upper.as_str())
        },
    }
}

/// What the pending order `pending` becomes at time `now`, given the tables:
/// an order with a fresh id, one item with a fresh id for each line of the
/// cart, and the discount to take. The tables are not changed.
pub fn plan_finalization(store: &Store, pending: &PendingOrder, now: i64) -> (f: Finalization)
    ensures
        finalization_of(store@, pending@, now as int, f@),
{
    let order: Order = order_for(fresh_id(), pending, now);
    let ghost cart = cart_view(pending.snapshot.cart@);
    let mut items: Vec<OrderItemRecord> = Vec::new();
    let mut i: usize = 0;
    while i < pending.snapshot.cart.len()
        invariant
            i <= pending.snapshot.cart.len(),
            cart == cart_view(pending.snapshot.cart@),
            items@.len() == i,
            forall|j: int|
                0 <= j < i ==> #[trigger] rows_view(items@)[j] == item_from_line(
                    cart[j],
                    rows_view(items@)[j].id,
                    order.id@,
                ),
            forall|j: int| 0 <= j < i ==> is_uuid_text((#[trigger] rows_view(items@)[j]).id),
        decreases pending.snapshot.cart.len() - i,
    {
        let item: OrderItemRecord = order_item_for(
            fresh_id(),
            order.id.as_str(),
            &pending.snapshot.cart[i],
        );
        proof {
            assert(rows_view(items@.push(item)) =~= rows_view(items@).push(item@));
        }
        items.push(item);
        i += 1;
    }
    let settlement: Option<AppliedDiscount> = resolve_settlement(store, &pending.snapshot.discount);
    Finalization { order, items, settlement }
}

/// Takes a discount from its source: one use from a coupon, the discounted
/// amount from a gift code.
pub fn apply_settlement(store: &mut Store, settlement: &Option<AppliedDiscount>)
    ensures
        final(store)@ == settlement_applied(old(store)@, opt_discount_view(*settlement)),
{
    match settlement {
        None => {},
        Some(d) => match d.source {
            Some(DiscountKind::Coupon) => store.use_coupon(d.code.as_str()),
            Some(DiscountKind::GiftCode) => store.redeem_gift_code(
                d.code.as_str(),
                d.discount_cents,
            ),
            None => {},
        },
    }
}

/// Takes the discount that an order recorded from its source, and says what
/// was taken.
pub fn settle_discount(store: &mut Store, discount: &Option<AppliedDiscount>) -> (settlement:
    Option<AppliedDiscount>)
    ensures
        opt_discount_view(settlement) == settlement_of(old(store)@, opt_discount_view(*discount)),
        final(store)@ == discount_settled(old(store)@, opt_discount_view(*discount)),
{
    let settlement: Option<AppliedDiscount> = resolve_settlement(store, discount);
    apply_settlement(store, &settlement);
    settlement
}

/// Finalizes the provider order `provider_order_id`, given what the capture
/// call returned (`None` where the call itself failed).
///
/// Nothing is changed unless the payment is settled and a pending order is
/// stored for it. Then an order and its items are created from the pending
/// order, the discount that was used is taken from its source, and the
/// pending order is deleted.
pub fn finalize(
    store: &mut Store,
    provider_order_id: &str,
    capture: Option<&CaptureResult>,
    now: i64,
) -> (out: FinalizationOutcome)
    ensures
        finalize_post(
            old(store)@,
            provider_order_id@,
            match capture {
                Some(c) => Some(c.status@),
                None => None,
            },
            now as int,
            final(store)@,
            out@,
        ),
{
    let captured: &CaptureResult = match capture {
        Some(c) => c,
        None => {
            return FinalizationOutcome::TransientFailure;
        },
    };
    if !settled(captured.status.as_str()) {
        return FinalizationOutcome::NotSettled;
    }
    let pending: PendingOrder = match store.find_pending_order(provider_order_id) {
        Some(p) => p,
        None => {
            return FinalizationOutcome::AlreadyProcessed;
        },
    };
    let f: Finalization = plan_finalization(store, &pending, now);
    store.insert_order(f.order.clone());
    store.insert_order_items(&f.items);
    apply_settlement(store, &f.settlement);
    let _deleted: bool = store.delete_pending_order(provider_order_id);
    FinalizationOutcome::Finalized(f)
}

/// What the payment provider reports in a webhook: the provider order and
/// its status.
#[derive(Debug)]
pub struct WebhookEvent {
    pub id: String,
    pub status: String,
}

/// How the handling of a webhook ended.
#[derive(Debug)]
pub enum WebhookOutcome {
    /// The event does not report a settled payment. Nothing was changed.
    Ignored,
    /// The order was finalized before. Nothing was changed.
    AlreadyProcessed,
    /// The pending order was turned into an order.
    Processed(Finalization),
    /// The capture failed or the payment is not settled. Nothing was changed.
    Failed,
}

/// The mathematical content of a `WebhookOutcome`.
pub ghost enum WebhookOutcomeView {
    Ignored,
    AlreadyProcessed,
    Processed(FinalizationView),
    Failed,
}

impl View for WebhookOutcome {
    type V = WebhookOutcomeView;

    open spec fn view(&self) -> WebhookOutcomeView {
        match self {
            WebhookOutcome::Ignored => WebhookOutcomeView::Ignored,
            WebhookOutcome::AlreadyProcessed => WebhookOutcomeView::AlreadyProcessed,
            WebhookOutcome::Processed(f) => WebhookOutcomeView::Processed(f@),
            WebhookOutcome::Failed => WebhookOutcomeView::Failed,
        }
    }
}

/// What a webhook is answered before any capture is tried, if it can be
/// answered then: an event that reports no settled payment is ignored, and
/// one for which an order with the event's id exists was processed before.
pub open spec fn webhook_early(store: StoreView, id: Seq<char>, status: Seq<char>) -> Option<
    WebhookOutcomeView,
> {
    if !is_settled(status) {
        Some(WebhookOutcomeView::Ignored)
    } else if lookup::<Order>(store.orders, id) is Some {
        Some(WebhookOutcomeView::AlreadyProcessed)
    } else {
        None
    }
}

/// How a finalization outcome is reported to the sender of a webhook.
pub open spec fn webhook_report(out: FinalizationOutcomeView) -> WebhookOutcomeView {
    match out {
        FinalizationOutcomeView::Finalized(f) => WebhookOutcomeView::Processed(f),
        FinalizationOutcomeView::AlreadyProcessed => WebhookOutcomeView::AlreadyProcessed,
        FinalizationOutcomeView::NotSettled => WebhookOutcomeView::Failed,
        FinalizationOutcomeView::TransientFailure => WebhookOutcomeView::Failed,
    }
}

/// What `handle_webhook` does: an event that can be answered early is, and
/// nothing changes; any other is finalized and the outcome reported.
pub open spec fn webhook_post(
    pre: StoreView,
    id: Seq<char>,
    status: Seq<char>,
    captured: Option<Seq<char>>,
    now: int,
    post: StoreView,
    out: WebhookOutcomeView,
) -> bool {
    match webhook_early(pre, id, status) {
        Some(early) => out == early && post == pre,
        None => exists|fin: FinalizationOutcomeView|
            #[trigger] finalize_post(pre, id, captured, now, post, fin) && out == webhook_report(
                fin,
            ),
    }
}

/// Whether a webhook can be answered without a capture, and how.
pub fn webhook_precheck(store: &Store, event: &WebhookEvent) -> (early: Option<WebhookOutcome>)
    ensures
        opt_view(early) == webhook_early(store@, event.id@, event.status@),
{
    if !settled(event.status.as_str()) {
        return Some(WebhookOutcome::Ignored);
    }
    if store.find_order(event.id.as_str()).is_some() {
        return Some(WebhookOutcome::AlreadyProcessed);
    }
    None
}

/// How a finalization outcome is reported to the sender of a webhook.
pub fn report_webhook(out: FinalizationOutcome) -> (report: WebhookOutcome)
    ensures
        report@ == webhook_report(out@),
{
    match out {
        FinalizationOutcome::Finalized(f) => WebhookOutcome::Processed(f),
        FinalizationOutcome::AlreadyProcessed => WebhookOutcome::AlreadyProcessed,
        FinalizationOutcome::NotSettled => WebhookOutcome::Failed,
        FinalizationOutcome::TransientFailure => WebhookOutcome::Failed,
    }
}

/// Handles a webhook, given what the capture call returned (`None` where the
/// call itself failed, or was not made because `webhook_precheck` answered).
///
/// The webhook may arrive before, after or together with the payer's return
/// for the same order: it goes through the same finalization, so the order is
/// created once.
pub fn handle_webhook(
    store: &mut Store,
    event: &WebhookEvent,
    capture: Option<&CaptureResult>,
    now: i64,
) -> (out: WebhookOutcome)
    ensures
        webhook_post(
            old(store)@,
            event.id@,
            event.status@,
            match capture {
                Some(c) => Some(c.status@),
                None => None,
            },
            now as int,
            final(store)@,
            out@,
        ),
{
    match webhook_precheck(store, event) {
        Some(early) => {
            return early;
        },
        None => {},
    }
    let fin: FinalizationOutcome = finalize(store, event.id.as_str(), capture, now);
    report_webhook(fin)
}

} // verus!
