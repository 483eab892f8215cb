//! The checkout orchestrator: pricing a cart, and recording the pending
//! order once the payment provider has created its order.
//!
//! A checkout runs in two steps with the call to the payment provider in
//! between. `quote` prices the cart. The caller asks the provider for an
//! order over the quoted total. `complete_checkout` then records the pending
//! order under the provider's order id and picks the address the payer is
//! sent to. Where the provider call failed nothing is recorded.

use crate::cart::{
    cart_is_valid, cart_sum, cart_view, clone_cart, subtotal, AppliedDiscount,
    AppliedDiscountView, CartItem, CartItemView, OrderSnapshot, OrderSnapshotView,
    ValidationError,
};
use crate::gateway::{approval_url, find_approval_url, PayPalOrderResp, PayPalOrderRespView};
use crate::money::{order_total, total};
use crate::records::{PendingOrder, PendingOrderView};
use crate::resolver::{
    evaluate, evaluate_spec, no_discount, not_applicable, DiscountResult, DiscountResultView,
};
use crate::store::{put, Store, StoreView};
use crate::text::{opt_text, trimmed, uppercase};
use vstd::prelude::*;
use vstd::string::StringExecFns;

verus! {

/// What a buyer submits to start a checkout.
#[derive(Debug)]
pub struct CheckoutRequest {
    pub cart: Vec<CartItem>,
    pub coupon: Option<String>,
    pub email: Option<String>,
}

/// Where the payer is sent next.
#[derive(Debug)]
pub struct CheckoutResponse {
    pub url: String,
}

/// Who an authenticated request comes from.
#[derive(Debug)]
pub struct Identity {
    pub user_id: String,
    pub email: String,
}

/// A priced cart: the subtotal, the discount the code was worth, and the
/// total owed.
#[derive(Debug)]
pub struct Quote {
    pub subtotal_cents: i64,
    pub discount: DiscountResult,
    pub total_cents: i64,
}

/// The mathematical content of a `Quote`.
pub ghost struct QuoteView {
    pub subtotal_cents: int,
    pub discount: DiscountResultView,
    pub total_cents: int,
}

impl View for Quote {
    type V = QuoteView;

    open spec fn view(&self) -> QuoteView {
        QuoteView {
            subtotal_cents: self.subtotal_cents as int,
            discount: self.discount@,
            total_cents: self.total_cents as int,
        }
    }
}

/// The quote for a cart of `subtotal` with the discount `discount`: the
/// total is the subtotal less the discount, floored at zero.
pub open spec fn quote_of(subtotal: int, discount: DiscountResultView) -> QuoteView {
    QuoteView {
        subtotal_cents: subtotal,
        discount,
        total_cents: order_total(subtotal, discount.discount_cents),
    }
}

/// What the code of a request is worth on a cart of `subtotal`: nothing where
/// no code was given, else what the trimmed code resolves to.
pub open spec fn requested_discount(store: StoreView, coupon: Option<Seq<char>>, subtotal: int)
    -> DiscountResultView {
    match coupon {
        None => no_discount(),
        Some(raw) => evaluate_spec(store, trimmed(raw), uppercase(trimmed(raw)), subtotal),
    }
}

/// The discount a pending order remembers for a discount result: the source,
/// the canonical code and the amount, where a discount applies.
pub open spec fn applied_of(discount: DiscountResultView) -> Option<AppliedDiscountView> {
    if discount.applies && discount.source is Some && discount.canonical_code is Some {
        Some(
            AppliedDiscountView {
                source: discount.source,
                code: discount.canonical_code->0,
                discount_cents: discount.discount_cents,
            },
        )
    } else {
        None
    }
}

/// The e-mail address an order is attributed to: that of the authenticated
/// identity where there is one, else the one the request supplied, else none.
pub open spec fn buyer_email(identity: Option<Identity>, supplied: Option<Seq<char>>) -> Seq<char> {
    match identity {
        Some(who) => who.email@,
        None => match supplied {
            Some(email) => email,
            None => Seq::empty(),
        },
    }
}

/// The user an order is attributed to, if the request was authenticated.
pub open spec fn buyer_id(identity: Option<Identity>) -> Option<Seq<char>> {
    match identity {
        Some(who) => Some(who.user_id@),
        None => None,
    }
}

/// The pending order that a checkout records.
pub open spec fn pending_of(
    provider_order_id: Seq<char>,
    cart: Seq<CartItemView>,
    email: Seq<char>,
    user_id: Option<Seq<char>>,
    quote: QuoteView,
    now: int,
) -> PendingOrderView {
    PendingOrderView {
        provider_order_id,
        user_id,
        email,
        amount_cents: quote.total_cents,
        snapshot: OrderSnapshotView { cart, discount: applied_of(quote.discount) },
        created_at: now,
    }
}

/// The address of the generic page a payer is sent to when no approval
/// address can be had: `app_url` followed by `/thank-you`.
pub open spec fn fallback_url(app_url: Seq<char>) -> Seq<char> {
    app_url + "/thank-you"@
}

/// The address a payer is sent to after a checkout: the provider's approval
/// address where the provider created an order that has one, else the
/// fallback.
pub open spec fn redirect_url(created: Option<PayPalOrderRespView>, app_url: Seq<char>) -> Seq<
    char,
> {
    match created {
        Some(order) => match approval_url(order.links) {
            Some(url) => url,
            None => fallback_url(app_url),
        },
        None => fallback_url(app_url),
    }
}

/// The tables after a checkout: where the provider created an order, the
/// pending order stands under the provider's order id; else nothing changed.
pub open spec fn checkout_recorded(
    pre: StoreView,
    created: Option<PayPalOrderRespView>,
    cart: Seq<CartItemView>,
    email: Seq<char>,
    user_id: Option<Seq<char>>,
    quote: QuoteView,
    now: int,
) -> StoreView {
    match created {
        Some(order) => StoreView {
            pending_orders: put::<PendingOrder>(
                pre.pending_orders,
                order.id,
                pending_of(order.id, cart, email, user_id, quote, now),
            ),
            ..pre
        },
        None => pre,
    }
}

impl Quote {
    /// The quote for a cart of `subtotal_cents` with the discount `discount`.
    pub fn new(subtotal_cents: i64, discount: DiscountResult) -> (q: Quote)
        requires
            subtotal_cents >= 0,
            discount.discount_cents >= 0,
        ensures
            q@ == quote_of(subtotal_cents as int, discount@),
            0 <= q.total_cents <= subtotal_cents,
    {
        let total_cents: i64 = total(subtotal_cents, discount.discount_cents);
        Quote { subtotal_cents, discount, total_cents }
    }
}

/// Prices a cart: its subtotal, what the code is worth on it, and the total.
///
/// A cart with a negative price or quantity is rejected, and so is one whose
/// subtotal does not fit the amount type. A code that resolves to nothing is
/// no error: the quote then carries no discount. The tables are not changed.
pub fn quote(store: &Store, cart: &Vec<CartItem>, coupon: &Option<String>) -> (r: Result<
    Quote,
    ValidationError,
>)
    ensures
        match r {
            Ok(q) => {
                &&& cart_is_valid(cart_view(cart@))
                &&& cart_sum(cart_view(cart@)) <= i64::MAX
                &&& q@ == quote_of(
                    cart_sum(cart_view(cart@)),
                    requested_discount(store@, opt_text(*coupon), cart_sum(cart_view(cart@))),
                )
                &&& 0 <= q.total_cents <= q.subtotal_cents
            },
            Err(ValidationError::NegativeCartValue) => !cart_is_valid(cart_view(cart@)),
            Err(ValidationError::AmountTooLarge) => cart_is_valid(cart_view(cart@)) && cart_sum(
                cart_view(cart@),
            ) > i64::MAX,
            Err(ValidationError::NegativeGiftAmount) => false,
        },
{
    let subtotal_cents: i64 = match subtotal(cart) {
        Ok(s) => s,
        Err(e) => {
            return Err(e);
        },
    };
    let discount: DiscountResult = match coupon {
        Some(raw) => evaluate(store, raw.as_str(), subtotal_cents),
        None => not_applicable(),
    };
    Ok(Quote::new(subtotal_cents, discount))
}

/// The e-mail address an order is attributed to. The address of the
/// authenticated identity wins over one that the request supplies.
pub fn resolve_buyer_email(identity: Option<&Identity>, supplied: &Option<String>) -> (email: String)
    ensures
        email@ == buyer_email(
            match identity {
                Some(who) => Some(*who),
                None => None,
            },
            opt_text(*supplied),
        ),
{
    match identity {
        Some(who) => who.email.clone(),
        None => match supplied {
            Some(email) => email.clone(),
            None => String::new(),
        },
    }
}

/// The address of the generic page: `app_url` followed by `/thank-you`.
pub fn thank_you_url(app_url: &str) -> (url: String)
    ensures
        url@ == fallback_url(app_url@),
{
    let mut url: String = app_url.to_owned();
    url.append("/thank-you");
    url
}

/// The path of the page a payer lands on after a payment callback: the
/// confirmation page of the order where one was created, else the generic
/// page.
pub open spec fn landing_path(order_id: Option<Seq<char>>) -> Seq<char> {
    match order_id {
        Some(id) => "/thank-you/"@ + id,
        None => "/thank-you"@,
    }
}

/// The path of the page a payer lands on after a payment callback.
pub fn thank_you_path(order_id: &Option<String>) -> (path: String)
    ensures
        path@ == landing_path(opt_text(*order_id)),
{
    match order_id {
        Some(id) => {
            let mut path: String = "/thank-you/".to_owned();
            path.append(id.as_str());
            path
        },
        None => "/thank-you".to_owned(),
    }
}

/// The discount a pending order remembers for a discount result.
pub fn applied_discount(discount: &DiscountResult) -> (r: Option<AppliedDiscount>)
    ensures
        (match r {
            Some(a) => Some(a@),
            None => None,
        }) == applied_of(discount@),
{
    if !discount.applies {
        return None;
    }
    match (&discount.source, &discount.canonical_code) {
        (Some(source), Some(code)) => Some(
            AppliedDiscount {
                source: Some(*source),
                code: code.clone(),
                discount_cents: discount.discount_cents,
            },
        ),
        _ => None,
    }
}

/// Records a checkout, given what the payment provider answered to the
/// request for an order over the quoted total (`None` where the request
/// failed), and says where the payer is sent.
///
/// Where the provider created an order, a pending order is stored under the
/// provider's order id, holding the cart as it was priced, the total owed,
/// the discount that was applied and the buyer; the payer is sent to the
/// provider's approval address. Where the request failed, nothing is stored
/// and the payer is sent to the generic page.
pub fn complete_checkout(
    store: &mut Store,
    request: &CheckoutRequest,
    identity: Option<&Identity>,
    quote: &Quote,
    created: Option<&PayPalOrderResp>,
    app_url: &str,
    now: i64,
) -> (response: CheckoutResponse)
    ensures
        final(store)@ == checkout_recorded(
            old(store)@,
            match created {
                Some(order) => Some(order@),
                None => None,
            },
            cart_view(request.cart@),
            buyer_email(
                match identity {
                    Some(who) => Some(*who),
                    None => None,
                },
                opt_text(request.email),
            ),
            buyer_id(
                match identity {
                    Some(who) => Some(*who),
                    None => None,
                },
            ),
            quote@,
            now as int,
        ),
        response.url@ == redirect_url(
            match created {
                Some(order) => Some(order@),
                None => None,
            },
            app_url@,
        ),
{
    let order: &PayPalOrderResp = match created {
        Some(order) => order,
        None => {
            return CheckoutResponse { url: thank_you_url(app_url) };
        },
    };
    let user_id: Option<String> = match identity {
        Some(who) => Some(who.user_id.clone()),
        None => None,
    };
    let pending = PendingOrder {
        provider_order_id: order.id.clone(),
        user_id,
        email: resolve_buyer_email(identity, &request.email),
        amount_cents: quote.total_cents,
        snapshot: OrderSnapshot {
            cart: clone_cart(&request.cart),
            discount: applied_discount(&quote.discount),
        },
        created_at: now,
    };
    store.put_pending_order(pending);
    match find_approval_url(order) {
        Some(url) => CheckoutResponse { url },
        None => CheckoutResponse { url: thank_you_url(app_url) },
    }
}

} // verus!
