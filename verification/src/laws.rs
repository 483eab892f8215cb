//! Laws of the checkout flow: what holds of every cart, every code and every
//! state of the tables.

use crate::cart::AppliedDiscountView;
use crate::cart::CartItemView;
use crate::checkout::{applied_of, checkout_recorded, pending_of, QuoteView};
use crate::finalize::items_match;
use crate::gateway::PayPalOrderRespView;
use crate::discount::{is_positive, Coupon, CouponView, DiscountKind, GiftCode, GiftCodeView};
use crate::finalize::{discount_settled, finalize_post, FinalizationOutcomeView};
use crate::gateway::is_settled;
use crate::gift::{gift_issue_post, gift_issue_spec, GiftIssueOutcomeView};
use crate::money::{min_amount, order_total, percent_of, percent_of_capped};
use crate::records::{PendingGift, PendingOrder, PendingOrderView};
use crate::discount::DiscountSourceView;
use crate::resolver::{evaluate_spec, no_discount, source_spec};
use crate::store::{fresh_orders, is_stale, redeem_gift, use_coupon, StoreView};
use crate::table::{
    first_index, lemma_find_first_none, lemma_first_index, lemma_first_index_is,
    lemma_lookup_after_delete, lemma_lookup_after_put, lookup, with_key,
};
use crate::text::{is_blank, lemma_blank_trims_to_empty, same_nocase, trimmed, uppercase};
use vstd::prelude::*;

verus! {

/// The total of an order is the subtotal less the discount where that is
/// positive, and zero otherwise; it is never negative.
pub proof fn law_total_is_floored_difference(subtotal: int, discount: int)
    ensures
        order_total(subtotal, discount) >= 0,
        order_total(subtotal, discount) >= subtotal - discount,
        order_total(subtotal, discount) == 0 || order_total(subtotal, discount) == subtotal
            - discount,
{
}

/// A coupon applies exactly one kind of discount. A fixed amount that is set
/// and positive is the discount, whatever the percentage says. Otherwise a
/// percentage that is set and positive gives the discount: that share of the
/// subtotal, rounded to the nearest cent with halves rounded up.
pub proof fn law_coupon_uses_one_kind(coupon: CouponView, subtotal: int)
    requires
        subtotal >= 0,
    ensures
        is_positive(coupon.amount_off) ==> coupon.discount_for(subtotal) == coupon.amount_off->0,
        !is_positive(coupon.amount_off) && is_positive(coupon.percent_off) ==> {
            let p = coupon.percent_off->0;
            let d = coupon.discount_for(subtotal);
            &&& d == percent_of_capped(p, subtotal)
            &&& percent_of(p, subtotal) <= i64::MAX ==> 100 * d - 50 <= p * subtotal < 100 * d
                + 50
        },
        !coupon.has_discount() ==> coupon.discount_for(subtotal) == 0,
{
    if !is_positive(coupon.amount_off) && is_positive(coupon.percent_off) {
        let p = coupon.percent_off->0;
        crate::money::lemma_percent_of_is_nearest(p, subtotal, percent_of(p, subtotal));
    }
}

/// A valid coupon that grants a percentage takes exactly that share of the
/// subtotal, rounded to the nearest cent with halves rounded up: nothing is
/// capped, and the discount is never more than the subtotal.
pub proof fn law_valid_percentage_is_exact(coupon: CouponView, subtotal: int)
    requires
        coupon.wf(),
        0 <= subtotal <= i64::MAX,
        !is_positive(coupon.amount_off),
        is_positive(coupon.percent_off),
    ensures
        coupon.discount_for(subtotal) == percent_of(coupon.percent_off->0, subtotal),
        0 <= coupon.discount_for(subtotal) <= subtotal,
        ({
            let p = coupon.percent_off->0;
            let d = coupon.discount_for(subtotal);
            100 * d - 50 <= p * subtotal < 100 * d + 50
        }),
{
    let p = coupon.percent_off->0;
    crate::money::lemma_percent_of_bounds(p, subtotal);
    crate::money::lemma_percent_of_is_nearest(p, subtotal, percent_of(p, subtotal));
}

/// A code that is empty or made of white space only is worth nothing,
/// whatever the tables hold; that is no error.
pub proof fn law_blank_code_is_no_discount(store: StoreView, raw_code: Seq<char>, subtotal: int)
    requires
        is_blank(raw_code),
    ensures
        evaluate_spec(store, trimmed(raw_code), uppercase(trimmed(raw_code)), subtotal)
            == no_discount(),
{
    lemma_blank_trims_to_empty(raw_code);
}

/// A gift code that still carries value takes its balance off the cart,
/// capped at the subtotal, whatever coupon the code may also name.
pub proof fn law_gift_discount_is_capped_balance(
    store: StoreView,
    code: Seq<char>,
    upper: Seq<char>,
    subtotal: int,
)
    requires
        code.len() > 0,
        lookup::<GiftCode>(store.gift_codes, code) is Some,
        lookup::<GiftCode>(store.gift_codes, code)->0.remaining_balance > 0,
    ensures
        ({
            let gift = lookup::<GiftCode>(store.gift_codes, code)->0;
            let result = evaluate_spec(store, code, upper, subtotal);
            &&& result.applies
            &&& result.source == Some(DiscountKind::GiftCode)
            &&& result.discount_cents == min_amount(gift.remaining_balance, subtotal)
            &&& result.canonical_code == Some(gift.code)
        }),
{
}

/// A coupon with no uses left, or with neither a positive amount nor a
/// positive percentage, never applies: the code resolves as if no coupon
/// were stored at all, and never to a coupon.
pub proof fn law_spent_coupon_never_applies(
    store: StoreView,
    code: Seq<char>,
    upper: Seq<char>,
    subtotal: int,
)
    requires
        lookup::<Coupon>(store.coupons, upper) is Some,
        ({
            let coupon = lookup::<Coupon>(store.coupons, upper)->0;
            coupon.remaining_uses <= 0 || !coupon.has_discount()
        }),
    ensures
        evaluate_spec(store, code, upper, subtotal) == evaluate_spec(
            StoreView { coupons: Seq::empty(), ..store },
            code,
            upper,
            subtotal,
        ),
        evaluate_spec(store, code, upper, subtotal).source != Some(DiscountKind::Coupon),
        lookup::<GiftCode>(store.gift_codes, code) is None ==> evaluate_spec(
            store,
            code,
            upper,
            subtotal,
        ) == no_discount(),
{
    assert(lookup::<Coupon>(Seq::<CouponView>::empty(), upper) is None);
}

/// Redeeming from gift codes changes no code, so a lookup finds the same row,
/// redeemed where it answers to the code that was redeemed.
pub proof fn lemma_lookup_after_redeem(
    rows: Seq<GiftCodeView>,
    code: Seq<char>,
    amount: int,
    key: Seq<char>,
)
    ensures
        lookup::<GiftCode>(redeem_gift(rows, code, amount), key) == match lookup::<GiftCode>(
            rows,
            key,
        ) {
            Some(g) => Some(
                if same_nocase(g.code, code) {
                    g.redeemed(amount)
                } else {
                    g
                },
            ),
            None => None,
        },
{
    let pred = with_key::<GiftCode>(key);
    let after = redeem_gift(rows, code, amount);
    lemma_first_index(rows, pred);
    let i = first_index(rows, pred);
    assert forall|j: int| 0 <= j < after.len() implies pred(#[trigger] after[j]) == pred(
        rows[j],
    ) by {}
    lemma_first_index_is(after, pred, i);
}

/// Using a coupon changes no code, so a lookup finds the same row, used
/// where it is stored under the code that was used.
pub proof fn lemma_lookup_after_use(rows: Seq<CouponView>, code: Seq<char>, key: Seq<char>)
    ensures
        lookup::<Coupon>(use_coupon(rows, code), key) == match lookup::<Coupon>(rows, key) {
            Some(c) => Some(
                if c.code == code {
                    c.used()
                } else {
                    c
                },
            ),
            None => None,
        },
{
    let pred = with_key::<Coupon>(key);
    let after = use_coupon(rows, code);
    lemma_first_index(rows, pred);
    let i = first_index(rows, pred);
    assert forall|j: int| 0 <= j < after.len() implies pred(#[trigger] after[j]) == pred(
        rows[j],
    ) by {}
    lemma_first_index_is(after, pred, i);
}

/// A gift code with balance `R` that was applied to a cart of subtotal `S`
/// holds `R - S` after the order is finalized where `S < R`, and nothing
/// where the cart used it up.
pub proof fn law_gift_balance_after_finalization(
    pre: StoreView,
    id: Seq<char>,
    now: int,
    post: StoreView,
    out: FinalizationOutcomeView,
    code: Seq<char>,
    upper: Seq<char>,
    subtotal: int,
    status: Seq<char>,
)
    requires
        code.len() > 0,
        subtotal >= 0,
        lookup::<GiftCode>(pre.gift_codes, code) is Some,
        0 < lookup::<GiftCode>(pre.gift_codes, code)->0.remaining_balance <= i64::MAX,
        lookup::<PendingOrder>(pre.pending_orders, id) is Some,
        lookup::<PendingOrder>(pre.pending_orders, id)->0.snapshot.discount == applied_of(
            evaluate_spec(pre, code, upper, subtotal),
        ),
        is_settled(status),
        finalize_post(pre, id, Some(status), now, post, out),
    ensures
        ({
            let before = lookup::<GiftCode>(pre.gift_codes, code)->0;
            let after = lookup::<GiftCode>(post.gift_codes, code);
            &&& after is Some
            &&& after->0.code == before.code
            &&& after->0.remaining_balance == if subtotal < before.remaining_balance {
                before.remaining_balance - subtotal
            } else {
                0
            }
        }),
{
    let before = lookup::<GiftCode>(pre.gift_codes, code)->0;
    let amount = min_amount(before.remaining_balance, subtotal);
    lemma_first_index(pre.gift_codes, with_key::<GiftCode>(code));
    assert(same_nocase(before.code, code));
    assert(same_nocase(before.code, before.code));
    // The code as stored names the same rows as the code as typed.
    assert forall|j: int| 0 <= j < pre.gift_codes.len() implies same_nocase(
        (#[trigger] pre.gift_codes[j]).code,
        before.code,
    ) == same_nocase(pre.gift_codes[j].code, code) by {
        let row = pre.gift_codes[j].code;
        if same_nocase(row, before.code) {
            assert forall|k: int| 0 <= k < row.len() implies crate::text::fold_ascii(
                #[trigger] row[k],
            ) == crate::text::fold_ascii(code[k]) by {
                assert(crate::text::fold_ascii(row[k]) == crate::text::fold_ascii(before.code[k]));
                assert(crate::text::fold_ascii(before.code[k]) == crate::text::fold_ascii(
                    code[k],
                ));
            }
        }
        if same_nocase(row, code) {
            assert forall|k: int| 0 <= k < row.len() implies crate::text::fold_ascii(
                #[trigger] row[k],
            ) == crate::text::fold_ascii(before.code[k]) by {
                assert(crate::text::fold_ascii(row[k]) == crate::text::fold_ascii(code[k]));
                assert(crate::text::fold_ascii(before.code[k]) == crate::text::fold_ascii(
                    code[k],
                ));
            }
        }
    }
    lemma_lookup_after_redeem(pre.gift_codes, before.code, amount, code);
}

/// A coupon that was applied at checkout has one use less after the order is
/// finalized, and never fewer than none; its discount stays as it was.
pub proof fn law_coupon_uses_after_finalization(
    pre: StoreView,
    id: Seq<char>,
    now: int,
    post: StoreView,
    out: FinalizationOutcomeView,
    code: Seq<char>,
    upper: Seq<char>,
    subtotal: int,
    status: Seq<char>,
)
    requires
        code.len() > 0,
        subtotal >= 0,
        evaluate_spec(pre, code, upper, subtotal).source == Some(DiscountKind::Coupon),
        lookup::<PendingOrder>(pre.pending_orders, id) is Some,
        lookup::<PendingOrder>(pre.pending_orders, id)->0.snapshot.discount == applied_of(
            evaluate_spec(pre, code, upper, subtotal),
        ),
        is_settled(status),
        finalize_post(pre, id, Some(status), now, post, out),
    ensures
        ({
            let before = lookup::<Coupon>(pre.coupons, upper);
            let after = lookup::<Coupon>(post.coupons, upper);
            &&& before is Some
            &&& after == Some(before->0.used())
            &&& after->0.remaining_uses == before->0.remaining_uses - 1
            &&& post.gift_codes == pre.gift_codes
        }),
{
    lemma_first_index(pre.coupons, with_key::<Coupon>(upper));
    lemma_lookup_after_use(pre.coupons, upper, upper);
}

/// A checkout that the provider created an order for, followed by the
/// finalization of that order once its payment is settled, creates an order
/// over the quoted total for the buyer of the checkout, with one item per
/// line of the cart as it was priced, and takes the quoted discount from its
/// source.
pub proof fn law_checkout_then_finalize(
    pre: StoreView,
    created: PayPalOrderRespView,
    cart: Seq<CartItemView>,
    email: Seq<char>,
    user_id: Option<Seq<char>>,
    quote: QuoteView,
    checkout_now: int,
    mid: StoreView,
    status: Seq<char>,
    now: int,
    post: StoreView,
    out: FinalizationOutcomeView,
)
    requires
        mid == checkout_recorded(pre, Some(created), cart, email, user_id, quote, checkout_now),
        is_settled(status),
        finalize_post(mid, created.id, Some(status), now, post, out),
    ensures
        out is Finalized,
        out->Finalized_0.order.total_cents == quote.total_cents,
        out->Finalized_0.order.email == email,
        out->Finalized_0.order.user_id == user_id,
        items_match(out->Finalized_0.items, cart, out->Finalized_0.order.id),
        post.orders == pre.orders.push(out->Finalized_0.order),
        post.order_items == pre.order_items + out->Finalized_0.items,
        post.coupons == discount_settled(pre, applied_of(quote.discount)).coupons,
        post.gift_codes == discount_settled(pre, applied_of(quote.discount)).gift_codes,
        lookup::<PendingOrder>(post.pending_orders, created.id) is None,
{
    let pending = pending_of(created.id, cart, email, user_id, quote, checkout_now);
    lemma_lookup_after_put::<PendingOrder>(pre.pending_orders, created.id, pending);
    lemma_lookup_after_delete::<PendingOrder>(mid.pending_orders, created.id);
}

/// A discount that was recorded without its source is settled on the source
/// that its code names when the order is finalized, by the ordered lookup of
/// the resolver: a gift code that still carries value gives up the recorded
/// amount, else a coupon that can be applied gives up one use, else nothing
/// is taken.
pub proof fn law_unrecorded_source_is_looked_up(
    store: StoreView,
    code: Seq<char>,
    amount: int,
)
    ensures
        ({
            let recorded = Some(
                AppliedDiscountView { source: None, code, discount_cents: amount },
            );
            discount_settled(store, recorded) == match source_spec(store, code, uppercase(code)) {
                Some(DiscountSourceView::GiftCode(gift)) => StoreView {
                    gift_codes: redeem_gift(store.gift_codes, gift.code, amount),
                    ..store
                },
                Some(DiscountSourceView::Coupon(coupon)) => StoreView {
                    coupons: use_coupon(store.coupons, coupon.code),
                    ..store
                },
                None => store,
            }
        }),
{
}

/// A payment that is not settled changes nothing: the pending order stays,
/// no order is created, and the outcome says so.
pub proof fn law_unsettled_payment_changes_nothing(
    pre: StoreView,
    id: Seq<char>,
    status: Seq<char>,
    now: int,
    post: StoreView,
    out: FinalizationOutcomeView,
)
    requires
        !is_settled(status),
        finalize_post(pre, id, Some(status), now, post, out),
    ensures
        post == pre,
        out is NotSettled,
{
}

/// A failed capture call changes nothing.
pub proof fn law_failed_capture_changes_nothing(
    pre: StoreView,
    id: Seq<char>,
    now: int,
    post: StoreView,
    out: FinalizationOutcomeView,
)
    requires
        finalize_post(pre, id, None, now, post, out),
    ensures
        post == pre,
        out is TransientFailure,
{
}

/// Finalizing creates exactly one order, takes the discount once, and leaves
/// no pending order under the id.
pub proof fn law_finalization_consumes_pending(
    pre: StoreView,
    id: Seq<char>,
    status: Option<Seq<char>>,
    now: int,
    post: StoreView,
    out: FinalizationOutcomeView,
)
    requires
        finalize_post(pre, id, status, now, post, out),
        out is Finalized,
    ensures
        lookup::<PendingOrder>(pre.pending_orders, id) is Some,
        lookup::<PendingOrder>(post.pending_orders, id) is None,
        post.orders == pre.orders.push(out->Finalized_0.order),
        out->Finalized_0.order.total_cents == lookup::<PendingOrder>(
            pre.pending_orders,
            id,
        )->0.amount_cents,
        ({
            let settled = discount_settled(
                pre,
                lookup::<PendingOrder>(pre.pending_orders, id)->0.snapshot.discount,
            );
            post.coupons == settled.coupons && post.gift_codes == settled.gift_codes
        }),
{
    lemma_lookup_after_delete::<PendingOrder>(pre.pending_orders, id);
}

/// Finalizing the same provider order a second time, as when the webhook and
/// the payer's return both arrive, changes nothing: there is still exactly
/// one order, the discount was taken once, and a settled second call reports
/// that the order had been processed.
pub proof fn law_finalize_is_idempotent(
    pre: StoreView,
    id: Seq<char>,
    first_status: Option<Seq<char>>,
    first_now: int,
    mid: StoreView,
    first: FinalizationOutcomeView,
    second_status: Option<Seq<char>>,
    second_now: int,
    post: StoreView,
    second: FinalizationOutcomeView,
)
    requires
        finalize_post(pre, id, first_status, first_now, mid, first),
        first is Finalized,
        finalize_post(mid, id, second_status, second_now, post, second),
    ensures
        post == mid,
        post.orders.len() == pre.orders.len() + 1,
        !(second is Finalized),
        second_status is Some && is_settled(second_status->0) ==> second is AlreadyProcessed,
{
    law_finalization_consumes_pending(pre, id, first_status, first_now, mid, first);
}

/// After a sweep no pending record is older than the retention window, every
/// pending record that is left was there before, every one that was not
/// older is still there, and nothing else has changed.
pub proof fn law_sweep_removes_stale(pre: StoreView, now: int)
    ensures
        forall|i: int|
            0 <= i < pre.swept(now).pending_orders.len() ==> {
                &&& !is_stale((#[trigger] pre.swept(now).pending_orders[i]).created_at, now)
                &&& pre.pending_orders.contains(pre.swept(now).pending_orders[i])
            },
        forall|i: int|
            0 <= i < pre.pending_orders.len() && !is_stale(
                (#[trigger] pre.pending_orders[i]).created_at,
                now,
            ) ==> pre.swept(now).pending_orders.contains(pre.pending_orders[i]),
        forall|i: int|
            0 <= i < pre.swept(now).pending_gifts.len() ==> {
                &&& !is_stale((#[trigger] pre.swept(now).pending_gifts[i]).created_at, now)
                &&& pre.pending_gifts.contains(pre.swept(now).pending_gifts[i])
            },
        forall|i: int|
            0 <= i < pre.pending_gifts.len() && !is_stale(
                (#[trigger] pre.pending_gifts[i]).created_at,
                now,
            ) ==> pre.swept(now).pending_gifts.contains(pre.pending_gifts[i]),
        pre.swept(now).orders == pre.orders,
        pre.swept(now).order_items == pre.order_items,
        pre.swept(now).coupons == pre.coupons,
        pre.swept(now).gift_codes == pre.gift_codes,
{
    let keep_order = |p: PendingOrderView| !is_stale(p.created_at, now);
    let kept_orders = pre.swept(now).pending_orders;
    assert forall|i: int| 0 <= i < kept_orders.len() implies {
        &&& !is_stale((#[trigger] kept_orders[i]).created_at, now)
        &&& pre.pending_orders.contains(kept_orders[i])
    } by {
        pre.pending_orders.lemma_filter_pred(keep_order, i);
        assert(kept_orders.contains(kept_orders[i]));
        pre.pending_orders.lemma_filter_contains_rev(keep_order, kept_orders[i]);
    }
    assert forall|i: int|
        0 <= i < pre.pending_orders.len() && !is_stale(
            (#[trigger] pre.pending_orders[i]).created_at,
            now,
        ) implies kept_orders.contains(pre.pending_orders[i]) by {
        pre.pending_orders.lemma_filter_contains(keep_order, i);
    }
    let keep_gift = |p: crate::records::PendingGiftView| !is_stale(p.created_at, now);
    let kept_gifts = pre.swept(now).pending_gifts;
    assert forall|i: int| 0 <= i < kept_gifts.len() implies {
        &&& !is_stale((#[trigger] kept_gifts[i]).created_at, now)
        &&& pre.pending_gifts.contains(kept_gifts[i])
    } by {
        pre.pending_gifts.lemma_filter_pred(keep_gift, i);
        assert(kept_gifts.contains(kept_gifts[i]));
        pre.pending_gifts.lemma_filter_contains_rev(keep_gift, kept_gifts[i]);
    }
    assert forall|i: int|
        0 <= i < pre.pending_gifts.len() && !is_stale(
            (#[trigger] pre.pending_gifts[i]).created_at,
            now,
        ) implies kept_gifts.contains(pre.pending_gifts[i]) by {
        pre.pending_gifts.lemma_filter_contains(keep_gift, i);
    }
}

/// A pending order that is older than the retention window is gone after a
/// sweep: a finalization for it then finds nothing, changes nothing, and,
/// where the payment is settled, reports that the order had been processed.
pub proof fn law_swept_order_is_absent(
    pre: StoreView,
    id: Seq<char>,
    sweep_now: int,
    status: Option<Seq<char>>,
    now: int,
    post: StoreView,
    out: FinalizationOutcomeView,
)
    requires
        forall|i: int|
            0 <= i < pre.pending_orders.len() && (#[trigger] pre.pending_orders[i]).provider_order_id
                == id ==> is_stale(pre.pending_orders[i].created_at, sweep_now),
        finalize_post(pre.swept(sweep_now), id, status, now, post, out),
    ensures
        lookup::<PendingOrder>(pre.swept(sweep_now).pending_orders, id) is None,
        post == pre.swept(sweep_now),
        !(out is Finalized),
        status is Some && is_settled(status->0) ==> out is AlreadyProcessed,
{
    let keep = |p: PendingOrderView| !is_stale(p.created_at, sweep_now);
    let kept = fresh_orders(pre.pending_orders, sweep_now);
    assert forall|j: int| 0 <= j < kept.len() implies !with_key::<PendingOrder>(id)(
        #[trigger] kept[j],
    ) by {
        let row = kept[j];
        assert(kept.contains(row));
        pre.pending_orders.lemma_filter_contains_rev(keep, row);
        let i = choose|i: int| 0 <= i < pre.pending_orders.len() && pre.pending_orders[i] == row;
        pre.pending_orders.lemma_filter_pred(keep, j);
        if row.provider_order_id == id {
            assert(is_stale(pre.pending_orders[i].created_at, sweep_now));
        }
    }
    lemma_find_first_none(kept, with_key::<PendingOrder>(id));
}

/// Taking a discount from its source keeps every gift code and every coupon
/// valid, and raises no balance and no use count.
pub proof fn law_discount_settlement_only_decreases(
    store: StoreView,
    discount: Option<AppliedDiscountView>,
)
    requires
        store.wf(),
        discount is Some ==> discount->0.discount_cents >= 0,
    ensures
        discount_settled(store, discount).wf(),
        discount_settled(store, discount).coupons.len() == store.coupons.len(),
        discount_settled(store, discount).gift_codes.len() == store.gift_codes.len(),
        forall|i: int|
            0 <= i < store.coupons.len() ==> (#[trigger] discount_settled(
                store,
                discount,
            ).coupons[i]).remaining_uses <= store.coupons[i].remaining_uses,
        forall|i: int|
            0 <= i < store.gift_codes.len() ==> (#[trigger] discount_settled(
                store,
                discount,
            ).gift_codes[i]).remaining_balance <= store.gift_codes[i].remaining_balance,
{
    let after = discount_settled(store, discount);
    assert forall|i: int| 0 <= i < after.coupons.len() implies (#[trigger] after.coupons[i]).wf()
        && after.coupons[i].remaining_uses <= store.coupons[i].remaining_uses by {
        assert(store.coupons[i].wf());
    }
    assert forall|i: int| 0 <= i < after.gift_codes.len() implies (
    #[trigger] after.gift_codes[i]).wf() && after.gift_codes[i].remaining_balance
        <= store.gift_codes[i].remaining_balance by {
        assert(store.gift_codes[i].wf());
    }
}

/// Finalization keeps the tables valid: no balance and no use count becomes
/// negative and no percentage changes, whatever the pending order recorded.
pub proof fn law_finalize_keeps_tables_valid(
    pre: StoreView,
    id: Seq<char>,
    status: Option<Seq<char>>,
    now: int,
    post: StoreView,
    out: FinalizationOutcomeView,
)
    requires
        pre.wf(),
        finalize_post(pre, id, status, now, post, out),
    ensures
        post.wf(),
{
    if out is Finalized {
        let pending = lookup::<PendingOrder>(pre.pending_orders, id)->0;
        let settled = discount_settled(pre, pending.snapshot.discount);
        assert forall|i: int| 0 <= i < settled.coupons.len() implies (
        #[trigger] settled.coupons[i]).wf() by {
            assert(pre.coupons[i].wf());
        }
        assert forall|i: int| 0 <= i < settled.gift_codes.len() implies (
        #[trigger] settled.gift_codes[i]).wf() by {
            assert(pre.gift_codes[i].wf());
        }
    }
}

/// Issuing a gift code keeps the tables valid: the code that is added holds
/// a balance that is not negative.
pub proof fn law_gift_issue_keeps_tables_valid(
    pre: StoreView,
    id: Seq<char>,
    status: Option<Seq<char>>,
    now: int,
    post: StoreView,
    out: GiftIssueOutcomeView,
)
    requires
        pre.wf(),
        gift_issue_post(pre, id, status, now, post, out),
    ensures
        post.wf(),
        out is Issued ==> out->Issued_0.gift.remaining_balance >= out->Issued_0.order.total_cents
            >= 0,
{
    if out is Issued {
        let g = out->Issued_0;
        let pending = lookup::<PendingGift>(pre.pending_gifts, id)->0;
        crate::money::lemma_percent_of_bounds(10, pending.base_amount_cents);
        assert forall|i: int| 0 <= i < post.gift_codes.len() implies (
        #[trigger] post.gift_codes[i]).wf() by {
            if i < pre.gift_codes.len() {
                assert(pre.gift_codes[i].wf());
            }
        }
    } else {
        let code = choose|code: Seq<char>|
            crate::ids::is_gift_code_text(code) && (post, out) == #[trigger] gift_issue_spec(
                pre,
                id,
                status,
                now,
                code,
                Seq::empty(),
                Seq::empty(),
            );
    }
}

/// Issuing a gift code a second time for the same provider order changes
/// nothing: the pending gift is gone, so no second code is created.
pub proof fn law_gift_issue_is_idempotent(
    pre: StoreView,
    id: Seq<char>,
    first_status: Option<Seq<char>>,
    first_now: int,
    mid: StoreView,
    first: GiftIssueOutcomeView,
    second_status: Option<Seq<char>>,
    second_now: int,
    post: StoreView,
    second: GiftIssueOutcomeView,
)
    requires
        gift_issue_post(pre, id, first_status, first_now, mid, first),
        first is Issued,
        gift_issue_post(mid, id, second_status, second_now, post, second),
    ensures
        post == mid,
        mid.gift_codes.len() == pre.gift_codes.len() + 1,
        !(second is Issued),
        second_status is Some && is_settled(second_status->0) ==> second is AlreadyProcessed,
{
    lemma_lookup_after_delete::<PendingGift>(pre.pending_gifts, id);
    if second is Issued {
        let g = second->Issued_0;
        assert((post, second) == gift_issue_spec(
            mid,
            id,
            second_status,
            second_now,
            g.gift.code,
            g.gift.id,
            g.order.id,
        ));
    } else {
        let code = choose|code: Seq<char>|
            crate::ids::is_gift_code_text(code) && (post, second) == #[trigger] gift_issue_spec(
                mid,
                id,
                second_status,
                second_now,
                code,
                Seq::empty(),
                Seq::empty(),
            );
    }
}

/// A gift code that is issued for a pending gift holds the amount that was
/// paid plus the bonus and goes to the buyer of the pending gift. The order
/// that records the purchase is over the amount that was paid, which is what
/// the buyer was charged.
pub proof fn law_issued_gift_is_worth_base_plus_bonus(
    pre: StoreView,
    id: Seq<char>,
    status: Option<Seq<char>>,
    now: int,
    post: StoreView,
    out: GiftIssueOutcomeView,
)
    requires
        gift_issue_post(pre, id, status, now, post, out),
        out is Issued,
    ensures
        lookup::<PendingGift>(pre.pending_gifts, id) is Some,
        ({
            let pending = lookup::<PendingGift>(pre.pending_gifts, id)->0;
            let issued = out->Issued_0;
            &&& issued.gift.remaining_balance == crate::money::gift_value_of(
                pending.base_amount_cents,
            )
            &&& issued.gift.purchaser_email == pending.email
            &&& issued.order.total_cents == pending.base_amount_cents
            &&& issued.order.email == pending.email
            &&& post.gift_codes == pre.gift_codes.push(issued.gift)
            &&& post.orders == pre.orders.push(issued.order)
            &&& lookup::<GiftCode>(pre.gift_codes, issued.gift.code) is None
        }),
{
}

/// The value of an issued gift code is the amount paid plus a tenth of it,
/// rounded to the nearest cent with halves rounded up.
pub proof fn law_gift_value(base: int)
    requires
        base >= 0,
    ensures
        crate::money::gift_value_of(base) == base + crate::money::gift_bonus_of(base),
        10 * crate::money::gift_bonus_of(base) - 5 <= base < 10 * crate::money::gift_bonus_of(base)
            + 5,
{
    crate::money::lemma_percent_of_is_nearest(10, base, percent_of(10, base));
}

} // verus!
