//! Gift codes: buying one, and issuing it once the payment is captured.
//!
//! A gift code is worth what was paid for it plus a bonus of ten per cent.
//! Issuance follows the same rules as the finalization of an order: nothing
//! happens unless the payment is settled and a pending gift is stored for it,
//! and a repeated callback changes nothing.

use crate::amount::{push_signed, signed_decimal};
use crate::cart::ValidationError;
use crate::checkout::{
    buyer_email, redirect_url, resolve_buyer_email, thank_you_url, Identity,
};
use crate::discount::{GiftCode, GiftCodeView};
use crate::gateway::{find_approval_url, is_settled, settled, CaptureResult, PayPalOrderResp};
use crate::gateway::PayPalOrderRespView;
use crate::ids::{fresh_gift_code, fresh_id, is_gift_code_text, is_uuid_text};
use crate::money::{gift_bonus, gift_bonus_of, gift_value_of};
use crate::records::{
    GiftPurchase, GiftPurchaseView, Order, OrderContent, OrderContentView, OrderView,
    PendingGift, PendingGiftView,
};
use crate::store::{put, Store, StoreView};
use crate::table::{delete, lookup};
use crate::text::opt_text;
use vstd::prelude::*;
use vstd::string::StringExecFns;

verus! {

/// What a buyer submits to buy a gift code: the amount in whole currency
/// units, and optionally where to send the code.
#[derive(Debug)]
pub struct BuyGiftRequest {
    pub amount_eur: i64,
    pub email: Option<String>,
}

/// Where the payer is sent next.
#[derive(Debug)]
pub struct BuyGiftResponse {
    pub url: String,
}

/// The amounts of a gift purchase: what is paid, the bonus, and the value of
/// the code.
#[derive(Clone, Copy, Debug, PartialEq, Eq, Structural)]
pub struct GiftOffer {
    pub amount_cents: i64,
    pub bonus_cents: i64,
    pub total_value_cents: i64,
}

/// Whether a gift purchase of `base` cents can be issued: the amount is not
/// negative and the value of the code fits the amount type.
pub open spec fn is_issuable(base: int) -> bool {
    0 <= base && gift_value_of(base) <= i64::MAX
}

/// The amounts of a gift purchase of `amount_cents`.
pub fn offer_for(amount_cents: i64) -> (r: Result<GiftOffer, ValidationError>)
    ensures
        match r {
            Ok(offer) => {
                &&& is_issuable(amount_cents as int)
                &&& offer.amount_cents == amount_cents
                &&& offer.bonus_cents == gift_bonus_of(amount_cents as int)
                &&& offer.total_value_cents == gift_value_of(amount_cents as int)
            },
            Err(ValidationError::NegativeGiftAmount) => amount_cents < 0,
            Err(ValidationError::AmountTooLarge) => amount_cents >= 0 && gift_value_of(
                amount_cents as int,
            ) > i64::MAX,
            Err(ValidationError::NegativeCartValue) => false,
        },
{
    if amount_cents < 0 {
        return Err(ValidationError::NegativeGiftAmount);
    }
    let bonus_cents: i64 = gift_bonus(amount_cents);
    match amount_cents.checked_add(bonus_cents) {
        Some(total_value_cents) => Ok(GiftOffer { amount_cents, bonus_cents, total_value_cents }),
        None => Err(ValidationError::AmountTooLarge),
    }
}

/// The amounts of a gift purchase of `amount_eur` whole currency units.
///
/// A negative amount is rejected, and so is one whose value in cents does not
/// fit the amount type.
pub fn gift_offer(amount_eur: i64) -> (r: Result<GiftOffer, ValidationError>)
    ensures
        match r {
            Ok(offer) => {
                &&& is_issuable(amount_eur * 100)
                &&& offer.amount_cents == amount_eur * 100
                &&& offer.bonus_cents == gift_bonus_of(amount_eur * 100)
                &&& offer.total_value_cents == gift_value_of(amount_eur * 100)
            },
            Err(ValidationError::NegativeGiftAmount) => amount_eur < 0,
            Err(ValidationError::AmountTooLarge) => amount_eur >= 0 && gift_value_of(
                amount_eur * 100,
            ) > i64::MAX,
            Err(ValidationError::NegativeCartValue) => false,
        },
{
    if amount_eur < 0 {
        return Err(ValidationError::NegativeGiftAmount);
    }
    match amount_eur.checked_mul(100) {
        Some(amount_cents) => offer_for(amount_cents),
        None => {
            proof {
                crate::money::lemma_percent_of_bounds(10, amount_eur * 100);
            }
            Err(ValidationError::AmountTooLarge)
        },
    }
}

/// What the payment provider shows for a gift purchase.
pub open spec fn gift_description_of(offer: GiftOffer) -> Seq<char> {
    "Gift coupon "@ + signed_decimal(offer.amount_cents as int) + " cents (+"@ + signed_decimal(
        offer.bonus_cents as int,
    ) + " bonus)"@
}

/// What the payment provider shows for a gift purchase: the amount paid and
/// the bonus, in cents.
pub fn gift_description(offer: &GiftOffer) -> (text: String)
    ensures
        text@ == gift_description_of(*offer),
{
    let mut text: String = "Gift coupon ".to_owned();
    push_signed(&mut text, offer.amount_cents);
    text.append(" cents (+");
    push_signed(&mut text, offer.bonus_cents);
    text.append(" bonus)");
    text
}

/// The pending gift that a gift purchase records.
pub open spec fn pending_gift_of(
    provider_order_id: Seq<char>,
    email: Seq<char>,
    amount_cents: int,
    now: int,
) -> PendingGiftView {
    PendingGiftView { provider_order_id, email, base_amount_cents: amount_cents, created_at: now }
}

/// The tables after a gift purchase was started: where the provider created
/// an order, the pending gift stands under the provider's order id; else
/// nothing changed.
pub open spec fn gift_purchase_recorded(
    pre: StoreView,
    created: Option<PayPalOrderRespView>,
    email: Seq<char>,
    amount_cents: int,
    now: int,
) -> StoreView {
    match created {
        Some(order) => StoreView {
            pending_gifts: put::<PendingGift>(
                pre.pending_gifts,
                order.id,
                pending_gift_of(order.id, email, amount_cents, now),
            ),
            ..pre
        },
        None => pre,
    }
}

/// Records a gift purchase, given what the payment provider answered to the
/// request for an order over the offered amount (`None` where the request
/// failed), and says where the payer is sent.
pub fn complete_gift_purchase(
    store: &mut Store,
    request: &BuyGiftRequest,
    identity: Option<&Identity>,
    offer: &GiftOffer,
    created: Option<&PayPalOrderResp>,
    app_url: &str,
    now: i64,
) -> (response: BuyGiftResponse)
    ensures
        final(store)@ == gift_purchase_recorded(
            old(store)@,
            match created {
                Some(order) => Some(order@),
                None => None,
            },
            buyer_email(
                match identity {
                    Some(who) => Some(*who),
                    None => None,
                },
                opt_text(request.email),
            ),
            offer.amount_cents as int,
            now as int,
        ),
        response.url@ == redirect_url(
            match created {
                Some(order) => Some(order@),
                None => None,
            },
            app_url@,
        ),
{
    let order: &PayPalOrderResp = match created {
        Some(order) => order,
        None => {
            return BuyGiftResponse { url: thank_you_url(app_url) };
        },
    };
    let pending = PendingGift {
        provider_order_id: order.id.clone(),
        email: resolve_buyer_email(identity, &request.email),
        base_amount_cents: offer.amount_cents,
        created_at: now,
    };
    store.put_pending_gift(pending);
    match find_approval_url(order) {
        Some(url) => BuyGiftResponse { url },
        None => BuyGiftResponse { url: thank_you_url(app_url) },
    }
}

/// What an issuance created: the gift code, and the order that records the
/// purchase in the order ledger.
#[derive(Debug)]
pub struct GiftIssue {
    pub gift: GiftCode,
    pub order: Order,
}

/// The mathematical content of a `GiftIssue`.
pub ghost struct GiftIssueView {
    pub gift: GiftCodeView,
    pub order: OrderView,
}

impl View for GiftIssue {
    type V = GiftIssueView;

    open spec fn view(&self) -> GiftIssueView {
        GiftIssueView { gift: self.gift@, order: self.order@ }
    }
}

/// How an issuance ended.
#[derive(Debug)]
pub enum GiftIssueOutcome {
    /// The capture call itself failed. Nothing was changed.
    TransientFailure,
    /// The payment is not settled. Nothing was changed.
    NotSettled,
    /// The payment is settled and no pending gift is left for it: the code
    /// was issued before. Nothing was changed.
    AlreadyProcessed,
    /// The pending gift holds an amount no code can be issued for. Nothing
    /// was changed.
    InvalidAmount,
    /// The code that was drawn is in use. Nothing was changed; the caller may
    /// try again.
    CodeTaken,
    /// The code was issued.
    Issued(GiftIssue),
}

/// The mathematical content of a `GiftIssueOutcome`.
pub ghost enum GiftIssueOutcomeView {
    TransientFailure,
    NotSettled,
    AlreadyProcessed,
    InvalidAmount,
    CodeTaken,
    Issued(GiftIssueView),
}

impl View for GiftIssueOutcome {
    type V = GiftIssueOutcomeView;

    open spec fn view(&self) -> GiftIssueOutcomeView {
        match self {
            GiftIssueOutcome::TransientFailure => GiftIssueOutcomeView::TransientFailure,
            GiftIssueOutcome::NotSettled => GiftIssueOutcomeView::NotSettled,
            GiftIssueOutcome::AlreadyProcessed => GiftIssueOutcomeView::AlreadyProcessed,
            GiftIssueOutcome::InvalidAmount => GiftIssueOutcomeView::InvalidAmount,
            GiftIssueOutcome::CodeTaken => GiftIssueOutcomeView::CodeTaken,
            GiftIssueOutcome::Issued(g) => GiftIssueOutcomeView::Issued(g@),
        }
    }
}

impl GiftIssueOutcome {
    /// The id of the order that records the purchase, if a code was issued.
    pub fn order_id(&self) -> (id: Option<String>)
        ensures
            match self@ {
                GiftIssueOutcomeView::Issued(g) => id matches Some(s) && s@ == g.order.id,
                _ => id is None,
            },
    {
        match self {
            GiftIssueOutcome::Issued(g) => Some(g.order.id.clone()),
            _ => None,
        }
    }
}

/// The gift code issued for the pending gift `pending` under `code`.
pub open spec fn gift_from_pending(
    pending: PendingGiftView,
    id: Seq<char>,
    code: Seq<char>,
    now: int,
) -> GiftCodeView {
    GiftCodeView {
        id,
        code,
        remaining_balance: gift_value_of(pending.base_amount_cents),
        purchaser_email: pending.email,
        created_at: now,
    }
}

/// The order that records the purchase of the gift code `code`. Its total is
/// what the buyer was charged, the amount paid; the bonus and the value of
/// the code stand in its content.
pub open spec fn order_from_gift(
    pending: PendingGiftView,
    id: Seq<char>,
    code: Seq<char>,
    now: int,
) -> OrderView {
    OrderView {
        id,
        user_id: None,
        email: pending.email,
        total_cents: pending.base_amount_cents,
        coupon_code: None,
        content: OrderContentView::Gift(
            GiftPurchaseView {
                code,
                base_amount_cents: pending.base_amount_cents,
                bonus_cents: gift_bonus_of(pending.base_amount_cents),
                total_value_cents: gift_value_of(pending.base_amount_cents),
            },
        ),
        created_at: now,
    }
}

/// What `issue_gift_code_with` does: the tables and the outcome that follow
/// from the tables `pre`, the provider order `id`, the status of the capture
/// (`None` where the capture call failed), the time `now`, and the code and
/// ids that were drawn.
pub open spec fn gift_issue_spec(
    pre: StoreView,
    id: Seq<char>,
    status: Option<Seq<char>>,
    now: int,
    code: Seq<char>,
    gift_id: Seq<char>,
    order_id: Seq<char>,
) -> (StoreView, GiftIssueOutcomeView) {
    match status {
        None => (pre, GiftIssueOutcomeView::TransientFailure),
        Some(st) => if !is_settled(st) {
            (pre, GiftIssueOutcomeView::NotSettled)
        } else {
            match lookup::<PendingGift>(pre.pending_gifts, id) {
                None => (pre, GiftIssueOutcomeView::AlreadyProcessed),
                Some(pending) => if !is_issuable(pending.base_amount_cents) {
                    (pre, GiftIssueOutcomeView::InvalidAmount)
                } else if lookup::<GiftCode>(pre.gift_codes, code) is Some {
                    (pre, GiftIssueOutcomeView::CodeTaken)
                } else {
                    let gift = gift_from_pending(pending, gift_id, code, now);
                    let order = order_from_gift(pending, order_id, code, now);
                    (
                        StoreView {
                            gift_codes: pre.gift_codes.push(gift),
                            orders: pre.orders.push(order),
                            pending_gifts: delete::<PendingGift>(pre.pending_gifts, id),
                            ..pre
                        },
                        GiftIssueOutcomeView::Issued(GiftIssueView { gift, order }),
                    )
                },
            }
        },
    }
}

/// What `issue_gift_code` does, whatever code and ids it draws: the tables
/// and the outcome are those of `gift_issue_spec` for some gift code text
/// and some UUID texts, which are the ones the outcome shows where a code
/// was issued.
pub open spec fn gift_issue_post(
    pre: StoreView,
    id: Seq<char>,
    status: Option<Seq<char>>,
    now: int,
    post: StoreView,
    out: GiftIssueOutcomeView,
) -> bool {
    match out {
        GiftIssueOutcomeView::Issued(g) => {
            &&& (post, out) == gift_issue_spec(pre, id, status, now, g.gift.code, g.gift.id, g.order.id)
            &&& is_gift_code_text(g.gift.code)
            &&& is_uuid_text(g.gift.id)
            &&& is_uuid_text(g.order.id)
        },
        _ => exists|code: Seq<char>|
            is_gift_code_text(code) && (post, out) == #[trigger] gift_issue_spec(
                pre,
                id,
                status,
                now,
                code,
                Seq::empty(),
                Seq::empty(),
            ),
    }
}

/// Issues the gift code for the provider order `provider_order_id` under the
/// code `code`, given what the capture call returned (`None` where the call
/// itself failed). `gift_id` and `order_id` become the ids of the gift code
/// and of the order that records the purchase.
///
/// Nothing is changed unless the payment is settled, a pending gift is
/// stored for it, its amount can be issued, and `code` is not in use. Then a
/// gift code worth the amount paid plus the bonus is added, an order over
/// the amount paid records the purchase, and the pending gift is deleted.
pub fn issue_gift_code_with(
    store: &mut Store,
    provider_order_id: &str,
    capture: Option<&CaptureResult>,
    now: i64,
    code: String,
    gift_id: String,
    order_id: String,
) -> (out: GiftIssueOutcome)
    ensures
        (final(store)@, out@) == gift_issue_spec(
            old(store)@,
            provider_order_id@,
            match capture {
                Some(c) => Some(c.status@),
                None => None,
            },
            now as int,
            code@,
            gift_id@,
            order_id@,
        ),
{
    let captured: &CaptureResult = match capture {
        Some(c) => c,
        None => {
            return GiftIssueOutcome::TransientFailure;
        },
    };
    if !settled(captured.status.as_str()) {
        return GiftIssueOutcome::NotSettled;
    }
    let pending: PendingGift = match store.find_pending_gift(provider_order_id) {
        Some(p) => p,
        None => {
            return GiftIssueOutcome::AlreadyProcessed;
        },
    };
    let offer: GiftOffer = match offer_for(pending.base_amount_cents) {
        Ok(offer) => offer,
        Err(_) => {
            return GiftIssueOutcome::InvalidAmount;
        },
    };
    let gift = GiftCode {
        id: gift_id,
        code: code.clone(),
        remaining_balance: offer.total_value_cents,
        purchaser_email: pending.email.clone(),
        created_at: now,
    };
    let order = Order {
        id: order_id,
        user_id: None,
        email: pending.email.clone(),
        total_cents: offer.amount_cents,
        coupon_code: None,
        content: OrderContent::Gift(
            GiftPurchase {
                code,
                base_amount_cents: offer.amount_cents,
                bonus_cents: offer.bonus_cents,
                total_value_cents: offer.total_value_cents,
            },
        ),
        created_at: now,
    };
    let added: bool = store.add_gift_code(gift.clone());
    if !added {
        return GiftIssueOutcome::CodeTaken;
    }
    store.insert_order(order.clone());
    let _deleted: bool = store.delete_pending_gift(provider_order_id);
    GiftIssueOutcome::Issued(GiftIssue { gift, order })
}

/// Issues the gift code for the provider order `provider_order_id`, given
/// what the capture call returned (`None` where the call itself failed),
/// under a fresh code.
pub fn issue_gift_code(
    store: &mut Store,
    provider_order_id: &str,
    capture: Option<&CaptureResult>,
    now: i64,
) -> (out: GiftIssueOutcome)
    ensures
        gift_issue_post(
            old(store)@,
            provider_order_id@,
            match capture {
                Some(c) => Some(c.status@),
                None => None,
            },
            now as int,
            final(store)@,
            out@,
        ),
{
    let code: String = fresh_gift_code();
    let gift_id: String = fresh_id();
    let order_id: String = fresh_id();
    let ghost pre = store@;
    let ghost status = match capture {
        Some(c) => Some(c.status@),
        None => None,
    };
    let out: GiftIssueOutcome = issue_gift_code_with(
        store,
        provider_order_id,
        capture,
        now,
        code,
        gift_id,
        order_id,
    );
    proof {
        if !(out@ is Issued) {
            assert((store@, out@) == gift_issue_spec(
                pre,
                provider_order_id@,
                status,
                now as int,
                code@,
                Seq::empty(),
                Seq::empty(),
            ));
        }
    }
    out
}

} // verus!
