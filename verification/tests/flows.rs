use checkout_backend::admin::sanitize_table;
use checkout_backend::cart::{
    AppliedDiscount, CartItem, OrderSnapshot, ValidationError,
};
use checkout_backend::checkout::{
    complete_checkout, quote, resolve_buyer_email, thank_you_path, thank_you_url,
    CheckoutRequest, Identity,
};
use checkout_backend::discount::{Coupon, DiscountKind, GiftCode};
use checkout_backend::finalize::{
    finalize, handle_webhook, plan_finalization, webhook_precheck, FinalizationOutcome,
    WebhookEvent, WebhookOutcome,
};
use checkout_backend::gateway::{
    find_approval_url, settled, CaptureResult, PayPalOrderLink, PayPalOrderResp,
};
use checkout_backend::gift::{
    complete_gift_purchase, gift_offer, issue_gift_code, issue_gift_code_with, offer_for,
    BuyGiftRequest, GiftIssueOutcome,
};
use checkout_backend::ids::{fresh_gift_code, fresh_id, gift_code_from_uuid, strip_hyphens};
use checkout_backend::orders::{order_details, receipt_amounts, Product};
use checkout_backend::records::{Order, OrderContent, PendingGift, PendingOrder};
use checkout_backend::store::{stale, Store};
use checkout_backend::text::{chars_of, eq_ignore_ascii_case, same_text, trim};

const NOW: i64 = 1_700_000_000;

const DAY: i64 = 86_400;

fn cart_line(product_id: &str, name: &str, unit_amount: i64, quantity: i64) -> CartItem {
    CartItem {
        product_id: product_id.to_string(),
        name: name.to_string(),
        unit_amount,
        quantity,
        currency: "EUR".to_string(),
    }
}

fn cart_4550() -> Vec<CartItem> {
    vec![cart_line("p1", "Soup", 1250, 2), cart_line("p2", "Roast", 2050, 1)]
}

fn stored_coupon(code: &str, percent_off: Option<i64>, amount_off: Option<i64>, uses: i64) -> Coupon {
    Coupon {
        id: format!("coupon-{}", code),
        code: code.to_string(),
        percent_off,
        amount_off,
        remaining_uses: uses,
    }
}

fn stored_gift(code: &str, balance: i64) -> GiftCode {
    GiftCode {
        id: format!("gift-{}", code),
        code: code.to_string(),
        remaining_balance: balance,
        purchaser_email: "giver@example.com".to_string(),
        created_at: NOW,
    }
}

fn provider_order(id: &str, with_approval: bool) -> PayPalOrderResp {
    let mut links = vec![PayPalOrderLink {
        rel: "self".to_string(),
        href: format!("https://pay.example/orders/{}", id),
    }];
    if with_approval {
        links.push(PayPalOrderLink {
            rel: "approve".to_string(),
            href: format!("https://pay.example/approve/{}", id),
        });
        links.push(PayPalOrderLink {
            rel: "approve".to_string(),
            href: "https://pay.example/second".to_string(),
        });
    }
    PayPalOrderResp { id: id.to_string(), links }
}

fn capture(id: &str, status: &str) -> CaptureResult {
    CaptureResult { id: id.to_string(), status: status.to_string() }
}

fn is_uuid_shape(s: &str) -> bool {
    let chars: Vec<char> = s.chars().collect();
    chars.len() == 36
        && chars.iter().enumerate().all(|(i, c)| {
            if i == 8 || i == 13 || i == 18 || i == 23 {
                *c == '-'
            } else {
                c.is_ascii_digit() || ('a'..='f').contains(c)
            }
        })
}

fn checkout(
    store: &mut Store,
    cart: Vec<CartItem>,
    code: Option<&str>,
    provider_id: &str,
) -> String {
    let request = CheckoutRequest {
        cart,
        coupon: code.map(|c| c.to_string()),
        email: Some("guest@example.com".to_string()),
    };
    let q = quote(store, &request.cart, &request.coupon).unwrap();
    let created = provider_order(provider_id, true);
    let response =
        complete_checkout(store, &request, None, &q, Some(&created), "https://shop.example", NOW);
    response.url
}

#[test]
fn find_approval_url_takes_the_first_approve_link() {
    let order = provider_order("PO-1", true);
    assert_eq!(find_approval_url(&order), Some("https://pay.example/approve/PO-1".to_string()));
}

#[test]
fn find_approval_url_without_approve_link_is_none() {
    let order = provider_order("PO-1", false);
    assert_eq!(find_approval_url(&order), None);
    let order = PayPalOrderResp { id: "PO-2".to_string(), links: Vec::new() };
    assert_eq!(find_approval_url(&order), None);
}

#[test]
fn find_approval_url_matches_the_relation_exactly() {
    let order = PayPalOrderResp {
        id: "PO-3".to_string(),
        links: vec![
            PayPalOrderLink { rel: "Approve".to_string(), href: "a".to_string() },
            PayPalOrderLink { rel: "approve ".to_string(), href: "b".to_string() },
            PayPalOrderLink { rel: "approved".to_string(), href: "c".to_string() },
        ],
    };
    assert_eq!(find_approval_url(&order), None);
}

#[test]
fn settled_only_for_the_success_status() {
    assert!(settled("COMPLETED"));
    assert!(!settled("completed"));
    assert!(!settled("PENDING"));
    assert!(!settled("APPROVED"));
    assert!(!settled(""));
    assert!(!settled("COMPLETED "));
}

#[test]
fn quote_prices_cart_with_percent_coupon() {
    let mut store = Store::new();
    store.put_coupon(stored_coupon("SAVE10", Some(10), None, 3));
    let q = quote(&store, &cart_4550(), &Some("SAVE10".to_string())).unwrap();
    assert_eq!(q.subtotal_cents, 4550);
    assert_eq!(q.discount.discount_cents, 455);
    assert_eq!(q.total_cents, 4095);
    assert!(q.discount.applies);
}

#[test]
fn quote_without_code_has_no_discount() {
    let store = Store::new();
    let q = quote(&store, &cart_4550(), &None).unwrap();
    assert_eq!(q.subtotal_cents, 4550);
    assert_eq!(q.discount.discount_cents, 0);
    assert_eq!(q.total_cents, 4550);
    assert!(!q.discount.applies);
}

#[test]
fn quote_with_unknown_code_is_no_error() {
    let store = Store::new();
    let q = quote(&store, &cart_4550(), &Some("NOPE".to_string())).unwrap();
    assert_eq!(q.total_cents, 4550);
    assert!(!q.discount.applies);
}

#[test]
fn quote_floors_the_total_at_zero() {
    let mut store = Store::new();
    store.put_coupon(stored_coupon("BIG", None, Some(10_000), 1));
    let q = quote(&store, &cart_4550(), &Some("BIG".to_string())).unwrap();
    assert_eq!(q.discount.discount_cents, 10_000);
    assert_eq!(q.total_cents, 0);
}

#[test]
fn quote_rejects_a_malformed_cart() {
    let store = Store::new();
    let cart = vec![cart_line("p1", "Soup", -1, 1)];
    assert_eq!(quote(&store, &cart, &None).err(), Some(ValidationError::NegativeCartValue));
    let cart = vec![cart_line("p1", "Soup", i64::MAX, 3)];
    assert_eq!(quote(&store, &cart, &None).err(), Some(ValidationError::AmountTooLarge));
}

#[test]
fn buyer_email_prefers_the_authenticated_identity() {
    let who = Identity { user_id: "u1".to_string(), email: "user@example.com".to_string() };
    let supplied = Some("other@example.com".to_string());
    assert_eq!(resolve_buyer_email(Some(&who), &supplied), "user@example.com");
    assert_eq!(resolve_buyer_email(None, &supplied), "other@example.com");
    assert_eq!(resolve_buyer_email(None, &None), "");
    assert_eq!(resolve_buyer_email(Some(&who), &None), "user@example.com");
}

#[test]
fn thank_you_addresses() {
    assert_eq!(thank_you_url("https://shop.example"), "https://shop.example/thank-you");
    assert_eq!(thank_you_url(""), "/thank-you");
    assert_eq!(thank_you_path(&Some("o-1".to_string())), "/thank-you/o-1");
    assert_eq!(thank_you_path(&None), "/thank-you");
}

#[test]
fn checkout_records_a_pending_order() {
    let mut store = Store::new();
    store.put_coupon(stored_coupon("SAVE10", Some(10), None, 3));
    let who = Identity { user_id: "u1".to_string(), email: "user@example.com".to_string() };
    let request = CheckoutRequest {
        cart: cart_4550(),
        coupon: Some(" save10 ".to_string()),
        email: Some("other@example.com".to_string()),
    };
    let q = quote(&store, &request.cart, &request.coupon).unwrap();
    let created = provider_order("PO-1", true);
    let response = complete_checkout(
        &mut store,
        &request,
        Some(&who),
        &q,
        Some(&created),
        "https://shop.example",
        NOW,
    );
    assert_eq!(response.url, "https://pay.example/approve/PO-1");
    assert_eq!(store.pending_orders.len(), 1);
    let pending = store.find_pending_order("PO-1").unwrap();
    assert_eq!(pending.provider_order_id, "PO-1");
    assert_eq!(pending.user_id, Some("u1".to_string()));
    assert_eq!(pending.email, "user@example.com");
    assert_eq!(pending.amount_cents, 4095);
    assert_eq!(pending.created_at, NOW);
    assert_eq!(pending.snapshot.cart.len(), 2);
    assert_eq!(pending.snapshot.cart[0].product_id, "p1");
    assert_eq!(pending.snapshot.cart[0].unit_amount, 1250);
    assert_eq!(pending.snapshot.cart[0].quantity, 2);
    assert_eq!(pending.snapshot.cart[1].product_id, "p2");
    let discount = pending.snapshot.discount.unwrap();
    assert_eq!(discount.source, Some(DiscountKind::Coupon));
    assert_eq!(discount.code, "SAVE10");
    assert_eq!(discount.discount_cents, 455);
    // Checkout alone takes nothing from the coupon.
    assert_eq!(store.coupons[0].remaining_uses, 3);
}

#[test]
fn checkout_without_provider_order_records_nothing() {
    let mut store = Store::new();
    let request = CheckoutRequest { cart: cart_4550(), coupon: None, email: None };
    let q = quote(&store, &request.cart, &request.coupon).unwrap();
    let response =
        complete_checkout(&mut store, &request, None, &q, None, "https://shop.example", NOW);
    assert_eq!(response.url, "https://shop.example/thank-you");
    assert!(store.pending_orders.is_empty());
    assert!(store.orders.is_empty());
}

#[test]
fn checkout_without_approval_link_falls_back() {
    let mut store = Store::new();
    let request = CheckoutRequest { cart: cart_4550(), coupon: None, email: None };
    let q = quote(&store, &request.cart, &request.coupon).unwrap();
    let created = provider_order("PO-9", false);
    let response = complete_checkout(
        &mut store,
        &request,
        None,
        &q,
        Some(&created),
        "https://shop.example",
        NOW,
    );
    assert_eq!(response.url, "https://shop.example/thank-you");
    assert_eq!(store.pending_orders.len(), 1);
    assert_eq!(store.pending_orders[0].email, "");
    assert_eq!(store.pending_orders[0].user_id, None);
    assert!(store.pending_orders[0].snapshot.discount.is_none());
}

#[test]
fn checkout_replaces_a_pending_order_under_the_same_id() {
    let mut store = Store::new();
    let _ = checkout(&mut store, cart_4550(), None, "PO-1");
    let _ = checkout(&mut store, vec![cart_line("p3", "Tea", 300, 1)], None, "PO-2");
    let _ = checkout(&mut store, vec![cart_line("p4", "Cake", 500, 1)], None, "PO-1");
    assert_eq!(store.pending_orders.len(), 2);
    assert_eq!(store.find_pending_order("PO-1").unwrap().amount_cents, 500);
    assert_eq!(store.find_pending_order("PO-2").unwrap().amount_cents, 300);
}

#[test]
fn scenario_percent_coupon_end_to_end() {
    let mut store = Store::new();
    store.put_coupon(stored_coupon("SAVE10", Some(10), None, 3));
    let url = checkout(&mut store, cart_4550(), Some("SAVE10"), "PO-A");
    assert_eq!(url, "https://pay.example/approve/PO-A");
    assert_eq!(store.find_pending_order("PO-A").unwrap().amount_cents, 4095);

    let out = finalize(&mut store, "PO-A", Some(&capture("PO-A", "COMPLETED")), NOW + 60);
    let f = match out {
        FinalizationOutcome::Finalized(f) => f,
        other => panic!("not finalized: {:?}", other),
    };
    assert_eq!(f.order.total_cents, 4095);
    assert_eq!(f.order.coupon_code, Some("SAVE10".to_string()));
    assert_eq!(f.order.email, "guest@example.com");
    assert_eq!(f.order.created_at, NOW + 60);
    assert_eq!(store.find_coupon("SAVE10").unwrap().remaining_uses, 2);
    assert_eq!(store.orders.len(), 1);
    assert_eq!(store.orders[0].total_cents, 4095);
    assert_eq!(store.orders[0].id, f.order.id);
    assert!(store.find_pending_order("PO-A").is_none());
    assert_eq!(store.order_items.len(), 2);
    assert_eq!(store.order_items[0].order_id, f.order.id);
    assert_eq!(store.order_items[0].product_id, "p1");
    assert_eq!(store.order_items[0].quantity, 2);
    assert_eq!(store.order_items[0].unit_amount, 1250);
    assert_eq!(store.order_items[1].product_id, "p2");
    assert_eq!(store.order_items[1].quantity, 1);
    assert_eq!(store.order_items[1].unit_amount, 2050);
}

#[test]
fn scenario_gift_code_end_to_end() {
    let mut store = Store::new();
    assert!(store.add_gift_code(stored_gift("abc123", 2000)));
    let cart = vec![cart_line("p1", "Soup", 750, 2)];
    let _ = checkout(&mut store, cart, Some("ABC123"), "PO-B");
    let pending = store.find_pending_order("PO-B").unwrap();
    assert_eq!(pending.amount_cents, 0);
    let discount = pending.snapshot.discount.unwrap();
    assert_eq!(discount.discount_cents, 1500);
    assert_eq!(discount.source, Some(DiscountKind::GiftCode));
    assert_eq!(discount.code, "abc123");

    let out = finalize(&mut store, "PO-B", Some(&capture("PO-B", "COMPLETED")), NOW);
    assert!(out.is_success());
    assert!(out.order_id().is_some());
    let left = store.find_gift_code("abc123").unwrap();
    assert_eq!(left.remaining_balance, 500);
    assert_eq!(store.orders[0].total_cents, 0);
    // The rest of the balance can be used again.
    let q = quote(&store, &cart_4550(), &Some("abc123".to_string())).unwrap();
    assert_eq!(q.discount.discount_cents, 500);
    assert_eq!(q.total_cents, 4050);
}

#[test]
fn gift_code_that_is_used_up_stays_with_zero_balance() {
    let mut store = Store::new();
    assert!(store.add_gift_code(stored_gift("abc123", 2000)));
    let _ = checkout(&mut store, cart_4550(), Some("abc123"), "PO-B");
    assert_eq!(store.find_pending_order("PO-B").unwrap().amount_cents, 2550);
    let out = finalize(&mut store, "PO-B", Some(&capture("PO-B", "COMPLETED")), NOW);
    assert!(out.is_success());
    assert_eq!(store.gift_codes.len(), 1);
    assert_eq!(store.gift_codes[0].remaining_balance, 0);
    let q = quote(&store, &cart_4550(), &Some("abc123".to_string())).unwrap();
    assert!(!q.discount.applies);
}

#[test]
fn finalize_uses_what_the_pending_order_recorded() {
    let mut store = Store::new();
    store.put_coupon(stored_coupon("SAVE10", Some(10), None, 3));
    let _ = checkout(&mut store, cart_4550(), Some("SAVE10"), "PO-A");
    // The coupon changes between checkout and capture.
    store.put_coupon(stored_coupon("SAVE10", Some(90), None, 7));
    let out = finalize(&mut store, "PO-A", Some(&capture("PO-A", "COMPLETED")), NOW);
    assert!(out.is_success());
    assert_eq!(store.orders[0].total_cents, 4095);
    assert_eq!(store.find_coupon("SAVE10").unwrap().remaining_uses, 6);
}

#[test]
fn finalize_twice_creates_one_order_and_decrements_once() {
    let mut store = Store::new();
    store.put_coupon(stored_coupon("SAVE10", Some(10), None, 3));
    let _ = checkout(&mut store, cart_4550(), Some("SAVE10"), "PO-A");
    let first = finalize(&mut store, "PO-A", Some(&capture("PO-A", "COMPLETED")), NOW);
    assert!(matches!(first, FinalizationOutcome::Finalized(_)));
    let second = finalize(&mut store, "PO-A", Some(&capture("PO-A", "COMPLETED")), NOW + 5);
    assert!(matches!(second, FinalizationOutcome::AlreadyProcessed));
    assert!(second.is_success());
    assert_eq!(second.order_id(), None);
    assert_eq!(store.orders.len(), 1);
    assert_eq!(store.order_items.len(), 2);
    assert_eq!(store.find_coupon("SAVE10").unwrap().remaining_uses, 2);
    assert!(store.pending_orders.is_empty());
}

#[test]
fn finalize_of_unsettled_payment_changes_nothing() {
    let mut store = Store::new();
    store.put_coupon(stored_coupon("SAVE10", Some(10), None, 3));
    let _ = checkout(&mut store, cart_4550(), Some("SAVE10"), "PO-A");
    for status in ["PENDING", "APPROVED", "VOIDED", "", "completed"] {
        let out = finalize(&mut store, "PO-A", Some(&capture("PO-A", status)), NOW);
        assert!(matches!(out, FinalizationOutcome::NotSettled));
        assert!(!out.is_success());
        assert_eq!(out.order_id(), None);
        assert_eq!(store.pending_orders.len(), 1);
        assert!(store.orders.is_empty());
        assert!(store.order_items.is_empty());
        assert_eq!(store.find_coupon("SAVE10").unwrap().remaining_uses, 3);
    }
    // A later settled callback still finalizes.
    let out = finalize(&mut store, "PO-A", Some(&capture("PO-A", "COMPLETED")), NOW);
    assert!(matches!(out, FinalizationOutcome::Finalized(_)));
}

#[test]
fn finalize_after_failed_capture_changes_nothing() {
    let mut store = Store::new();
    let _ = checkout(&mut store, cart_4550(), None, "PO-A");
    let out = finalize(&mut store, "PO-A", None, NOW);
    assert!(matches!(out, FinalizationOutcome::TransientFailure));
    assert!(!out.is_success());
    assert_eq!(store.pending_orders.len(), 1);
    assert!(store.orders.is_empty());
}

#[test]
fn finalize_without_pending_order_is_already_processed() {
    let mut store = Store::new();
    let _ = checkout(&mut store, cart_4550(), None, "PO-A");
    let out = finalize(&mut store, "PO-X", Some(&capture("PO-X", "COMPLETED")), NOW);
    assert!(matches!(out, FinalizationOutcome::AlreadyProcessed));
    assert_eq!(store.pending_orders.len(), 1);
    assert!(store.orders.is_empty());
}

#[test]
fn finalize_without_discount_touches_no_source() {
    let mut store = Store::new();
    store.put_coupon(stored_coupon("SAVE10", Some(10), None, 3));
    assert!(store.add_gift_code(stored_gift("abc123", 2000)));
    let _ = checkout(&mut store, cart_4550(), None, "PO-A");
    let out = finalize(&mut store, "PO-A", Some(&capture("PO-A", "COMPLETED")), NOW);
    let f = match out {
        FinalizationOutcome::Finalized(f) => f,
        other => panic!("not finalized: {:?}", other),
    };
    assert_eq!(f.order.coupon_code, None);
    assert_eq!(f.order.total_cents, 4550);
    assert_eq!(store.coupons[0].remaining_uses, 3);
    assert_eq!(store.gift_codes[0].remaining_balance, 2000);
}

#[test]
fn finalize_decrements_only_the_source_that_was_used() {
    let mut store = Store::new();
    store.put_coupon(stored_coupon("TWIN", Some(10), None, 3));
    assert!(store.add_gift_code(stored_gift("twin", 2000)));
    let _ = checkout(&mut store, cart_4550(), Some("twin"), "PO-A");
    let out = finalize(&mut store, "PO-A", Some(&capture("PO-A", "COMPLETED")), NOW);
    assert!(out.is_success());
    assert_eq!(store.gift_codes[0].remaining_balance, 0);
    assert_eq!(store.coupons[0].remaining_uses, 3);
}

#[test]
fn plan_finalization_gives_fresh_ids() {
    let pending = PendingOrder {
        provider_order_id: "PO-1".to_string(),
        user_id: Some("u1".to_string()),
        email: "user@example.com".to_string(),
        amount_cents: 4095,
        snapshot: OrderSnapshot {
            cart: cart_4550(),
            discount: Some(AppliedDiscount {
                source: Some(DiscountKind::Coupon),
                code: "SAVE10".to_string(),
                discount_cents: 455,
            }),
        },
        created_at: NOW,
    };
    let f = plan_finalization(&Store::new(), &pending, NOW + 1);
    assert!(is_uuid_shape(&f.order.id));
    assert_eq!(f.order.user_id, Some("u1".to_string()));
    assert_eq!(f.order.email, "user@example.com");
    assert_eq!(f.order.total_cents, 4095);
    assert_eq!(f.order.coupon_code, Some("SAVE10".to_string()));
    assert_eq!(f.order.created_at, NOW + 1);
    assert!(matches!(f.order.content, OrderContent::Cart(_)));
    let settlement = f.settlement.as_ref().unwrap();
    assert_eq!(settlement.source, Some(DiscountKind::Coupon));
    assert_eq!(settlement.code, "SAVE10");
    assert_eq!(settlement.discount_cents, 455);
    assert_eq!(f.items.len(), 2);
    for item in &f.items {
        assert!(is_uuid_shape(&item.id));
        assert_eq!(item.order_id, f.order.id);
        assert_ne!(item.id, f.order.id);
    }
    assert_ne!(f.items[0].id, f.items[1].id);
    let again = plan_finalization(&Store::new(), &pending, NOW + 1);
    assert_ne!(again.order.id, f.order.id);
}

#[test]
fn webhook_for_unsettled_event_is_ignored() {
    let mut store = Store::new();
    let _ = checkout(&mut store, cart_4550(), None, "PO-A");
    let event = WebhookEvent { id: "PO-A".to_string(), status: "PENDING".to_string() };
    assert!(matches!(webhook_precheck(&store, &event), Some(WebhookOutcome::Ignored)));
    let out = handle_webhook(&mut store, &event, Some(&capture("PO-A", "COMPLETED")), NOW);
    assert!(matches!(out, WebhookOutcome::Ignored));
    assert_eq!(store.pending_orders.len(), 1);
    assert!(store.orders.is_empty());
}

#[test]
fn webhook_finalizes_like_the_return() {
    let mut store = Store::new();
    store.put_coupon(stored_coupon("SAVE10", Some(10), None, 3));
    let _ = checkout(&mut store, cart_4550(), Some("SAVE10"), "PO-A");
    let event = WebhookEvent { id: "PO-A".to_string(), status: "COMPLETED".to_string() };
    assert!(webhook_precheck(&store, &event).is_none());
    let out = handle_webhook(&mut store, &event, Some(&capture("PO-A", "COMPLETED")), NOW);
    match out {
        WebhookOutcome::Processed(f) => assert_eq!(f.order.total_cents, 4095),
        other => panic!("not processed: {:?}", other),
    }
    assert_eq!(store.orders.len(), 1);
    assert_eq!(store.find_coupon("SAVE10").unwrap().remaining_uses, 2);
    // The payer's return arrives afterwards.
    let out = finalize(&mut store, "PO-A", Some(&capture("PO-A", "COMPLETED")), NOW);
    assert!(matches!(out, FinalizationOutcome::AlreadyProcessed));
    // And the webhook is delivered once more.
    let out = handle_webhook(&mut store, &event, Some(&capture("PO-A", "COMPLETED")), NOW);
    assert!(matches!(out, WebhookOutcome::AlreadyProcessed));
    assert_eq!(store.orders.len(), 1);
    assert_eq!(store.find_coupon("SAVE10").unwrap().remaining_uses, 2);
}

#[test]
fn webhook_reports_failure_when_capture_fails_or_is_unsettled() {
    let mut store = Store::new();
    let _ = checkout(&mut store, cart_4550(), None, "PO-A");
    let event = WebhookEvent { id: "PO-A".to_string(), status: "COMPLETED".to_string() };
    let out = handle_webhook(&mut store, &event, None, NOW);
    assert!(matches!(out, WebhookOutcome::Failed));
    let out = handle_webhook(&mut store, &event, Some(&capture("PO-A", "PENDING")), NOW);
    assert!(matches!(out, WebhookOutcome::Failed));
    assert_eq!(store.pending_orders.len(), 1);
    assert!(store.orders.is_empty());
}

#[test]
fn webhook_for_an_existing_order_id_is_already_processed() {
    let mut store = Store::new();
    store.insert_order(Order {
        id: "PO-A".to_string(),
        user_id: None,
        email: "guest@example.com".to_string(),
        total_cents: 100,
        coupon_code: None,
        content: OrderContent::Cart(OrderSnapshot { cart: Vec::new(), discount: None }),
        created_at: NOW,
    });
    let _ = checkout(&mut store, cart_4550(), None, "PO-A");
    let event = WebhookEvent { id: "PO-A".to_string(), status: "COMPLETED".to_string() };
    assert!(matches!(webhook_precheck(&store, &event), Some(WebhookOutcome::AlreadyProcessed)));
    let out = handle_webhook(&mut store, &event, Some(&capture("PO-A", "COMPLETED")), NOW);
    assert!(matches!(out, WebhookOutcome::AlreadyProcessed));
    assert_eq!(store.orders.len(), 1);
    assert_eq!(store.pending_orders.len(), 1);
}

#[test]
fn gift_offer_amounts() {
    let offer = gift_offer(50).unwrap();
    assert_eq!(offer.amount_cents, 5000);
    assert_eq!(offer.bonus_cents, 500);
    assert_eq!(offer.total_value_cents, 5500);
    let offer = gift_offer(0).unwrap();
    assert_eq!(offer.total_value_cents, 0);
    let offer = offer_for(1235).unwrap();
    assert_eq!(offer.bonus_cents, 124);
    assert_eq!(offer.total_value_cents, 1359);
}

#[test]
fn gift_offer_rejects_bad_amounts() {
    assert_eq!(gift_offer(-1), Err(ValidationError::NegativeGiftAmount));
    assert_eq!(gift_offer(i64::MIN), Err(ValidationError::NegativeGiftAmount));
    assert_eq!(gift_offer(i64::MAX), Err(ValidationError::AmountTooLarge));
    assert_eq!(gift_offer(i64::MAX / 100), Err(ValidationError::AmountTooLarge));
    assert_eq!(offer_for(-1), Err(ValidationError::NegativeGiftAmount));
    assert_eq!(offer_for(i64::MAX), Err(ValidationError::AmountTooLarge));
}

#[test]
fn gift_purchase_records_a_pending_gift() {
    let mut store = Store::new();
    let request = BuyGiftRequest { amount_eur: 50, email: Some("gift@example.com".to_string()) };
    let offer = gift_offer(request.amount_eur).unwrap();
    let created = provider_order("PG-1", true);
    let response = complete_gift_purchase(
        &mut store,
        &request,
        None,
        &offer,
        Some(&created),
        "https://shop.example",
        NOW,
    );
    assert_eq!(response.url, "https://pay.example/approve/PG-1");
    let pending = store.find_pending_gift("PG-1").unwrap();
    assert_eq!(pending.email, "gift@example.com");
    assert_eq!(pending.base_amount_cents, 5000);
    assert_eq!(pending.created_at, NOW);
    let response = complete_gift_purchase(
        &mut store,
        &request,
        None,
        &offer,
        None,
        "https://shop.example",
        NOW,
    );
    assert_eq!(response.url, "https://shop.example/thank-you");
    assert_eq!(store.pending_gifts.len(), 1);
}

#[test]
fn scenario_gift_purchase_end_to_end() {
    let mut store = Store::new();
    store.put_pending_gift(PendingGift {
        provider_order_id: "PG-1".to_string(),
        email: "gift@example.com".to_string(),
        base_amount_cents: 5000,
        created_at: NOW,
    });
    let out = issue_gift_code(&mut store, "PG-1", Some(&capture("PG-1", "COMPLETED")), NOW + 9);
    let issue = match out {
        GiftIssueOutcome::Issued(issue) => issue,
        other => panic!("not issued: {:?}", other),
    };
    assert_eq!(issue.gift.remaining_balance, 5500);
    assert_eq!(issue.gift.purchaser_email, "gift@example.com");
    assert_eq!(issue.gift.code.chars().count(), 32);
    assert!(issue.gift.code.chars().all(|c| c.is_ascii_digit() || ('a'..='f').contains(&c)));
    assert!(is_uuid_shape(&issue.gift.id));
    assert!(is_uuid_shape(&issue.order.id));
    assert_eq!(issue.order.total_cents, 5000);
    assert_eq!(issue.order.email, "gift@example.com");
    assert_eq!(issue.order.coupon_code, None);
    match &issue.order.content {
        OrderContent::Gift(g) => {
            assert_eq!(g.code, issue.gift.code);
            assert_eq!(g.base_amount_cents, 5000);
            assert_eq!(g.bonus_cents, 500);
            assert_eq!(g.total_value_cents, 5500);
        }
        other => panic!("not a gift purchase: {:?}", other),
    }
    assert_eq!(store.gift_codes.len(), 1);
    assert_eq!(store.gift_codes[0].remaining_balance, 5500);
    assert_eq!(store.orders.len(), 1);
    assert_eq!(store.orders[0].total_cents, 5000);
    assert!(store.pending_gifts.is_empty());
    // The issued code can be redeemed.
    let q = quote(&store, &cart_4550(), &Some(issue.gift.code.to_uppercase())).unwrap();
    assert_eq!(q.discount.discount_cents, 4550);
    assert_eq!(q.total_cents, 0);
}

#[test]
fn gift_issue_twice_issues_one_code() {
    let mut store = Store::new();
    store.put_pending_gift(PendingGift {
        provider_order_id: "PG-1".to_string(),
        email: "gift@example.com".to_string(),
        base_amount_cents: 5000,
        created_at: NOW,
    });
    let first = issue_gift_code(&mut store, "PG-1", Some(&capture("PG-1", "COMPLETED")), NOW);
    assert!(matches!(first, GiftIssueOutcome::Issued(_)));
    assert!(first.order_id().is_some());
    let second = issue_gift_code(&mut store, "PG-1", Some(&capture("PG-1", "COMPLETED")), NOW);
    assert!(matches!(second, GiftIssueOutcome::AlreadyProcessed));
    assert_eq!(second.order_id(), None);
    assert_eq!(store.gift_codes.len(), 1);
    assert_eq!(store.orders.len(), 1);
}

#[test]
fn gift_issue_needs_a_settled_payment() {
    let mut store = Store::new();
    store.put_pending_gift(PendingGift {
        provider_order_id: "PG-1".to_string(),
        email: "gift@example.com".to_string(),
        base_amount_cents: 5000,
        created_at: NOW,
    });
    let out = issue_gift_code(&mut store, "PG-1", None, NOW);
    assert!(matches!(out, GiftIssueOutcome::TransientFailure));
    let out = issue_gift_code(&mut store, "PG-1", Some(&capture("PG-1", "PENDING")), NOW);
    assert!(matches!(out, GiftIssueOutcome::NotSettled));
    assert!(store.gift_codes.is_empty());
    assert!(store.orders.is_empty());
    assert_eq!(store.pending_gifts.len(), 1);
}

#[test]
fn gift_issue_rejects_an_amount_that_cannot_be_issued() {
    let mut store = Store::new();
    store.put_pending_gift(PendingGift {
        provider_order_id: "PG-1".to_string(),
        email: "gift@example.com".to_string(),
        base_amount_cents: -5000,
        created_at: NOW,
    });
    store.put_pending_gift(PendingGift {
        provider_order_id: "PG-2".to_string(),
        email: "gift@example.com".to_string(),
        base_amount_cents: i64::MAX,
        created_at: NOW,
    });
    for id in ["PG-1", "PG-2"] {
        let out = issue_gift_code(&mut store, id, Some(&capture(id, "COMPLETED")), NOW);
        assert!(matches!(out, GiftIssueOutcome::InvalidAmount));
    }
    assert!(store.gift_codes.is_empty());
    assert_eq!(store.pending_gifts.len(), 2);
}

#[test]
fn gift_issue_with_a_code_that_is_taken_changes_nothing() {
    let mut store = Store::new();
    assert!(store.add_gift_code(stored_gift("ABCDEF", 100)));
    store.put_pending_gift(PendingGift {
        provider_order_id: "PG-1".to_string(),
        email: "gift@example.com".to_string(),
        base_amount_cents: 5000,
        created_at: NOW,
    });
    let out = issue_gift_code_with(
        &mut store,
        "PG-1",
        Some(&capture("PG-1", "COMPLETED")),
        NOW,
        "abcdef".to_string(),
        "g-1".to_string(),
        "o-1".to_string(),
    );
    assert!(matches!(out, GiftIssueOutcome::CodeTaken));
    assert_eq!(store.gift_codes.len(), 1);
    assert_eq!(store.pending_gifts.len(), 1);
    assert!(store.orders.is_empty());
    let out = issue_gift_code_with(
        &mut store,
        "PG-1",
        Some(&capture("PG-1", "COMPLETED")),
        NOW,
        "abcdeg".to_string(),
        "g-1".to_string(),
        "o-1".to_string(),
    );
    match out {
        GiftIssueOutcome::Issued(issue) => {
            assert_eq!(issue.gift.id, "g-1");
            assert_eq!(issue.gift.code, "abcdeg");
            assert_eq!(issue.order.id, "o-1");
        }
        other => panic!("not issued: {:?}", other),
    }
    assert_eq!(store.gift_codes.len(), 2);
}

#[test]
fn stale_is_strictly_older_than_a_day() {
    assert!(!stale(NOW, NOW));
    assert!(!stale(NOW - DAY, NOW));
    assert!(stale(NOW - DAY - 1, NOW));
    assert!(!stale(NOW + 10, NOW));
    assert!(stale(i64::MIN, i64::MAX));
    assert!(!stale(i64::MAX, i64::MIN));
}

#[test]
fn sweep_removes_only_stale_pending_records() {
    let mut store = Store::new();
    store.put_coupon(stored_coupon("SAVE10", Some(10), None, 3));
    let _ = checkout(&mut store, cart_4550(), Some("SAVE10"), "PO-OLD");
    let _ = checkout(&mut store, cart_4550(), None, "PO-NEW");
    store.pending_orders[0].created_at = NOW - DAY - 1;
    store.pending_orders[1].created_at = NOW - DAY;
    store.put_pending_gift(PendingGift {
        provider_order_id: "PG-OLD".to_string(),
        email: "gift@example.com".to_string(),
        base_amount_cents: 5000,
        created_at: NOW - 2 * DAY,
    });
    store.put_pending_gift(PendingGift {
        provider_order_id: "PG-NEW".to_string(),
        email: "gift@example.com".to_string(),
        base_amount_cents: 5000,
        created_at: NOW - 10,
    });
    let report = store.sweep(NOW);
    assert_eq!(report.pending_orders_deleted, 1);
    assert_eq!(report.pending_gifts_deleted, 1);
    assert!(store.find_pending_order("PO-OLD").is_none());
    assert!(store.find_pending_order("PO-NEW").is_some());
    assert!(store.find_pending_gift("PG-OLD").is_none());
    assert!(store.find_pending_gift("PG-NEW").is_some());
    assert_eq!(store.coupons[0].remaining_uses, 3);
    let report = store.sweep(NOW);
    assert_eq!(report.pending_orders_deleted, 0);
    assert_eq!(report.pending_gifts_deleted, 0);
}

#[test]
fn finalize_after_sweep_is_already_processed() {
    let mut store = Store::new();
    store.put_coupon(stored_coupon("SAVE10", Some(10), None, 3));
    let _ = checkout(&mut store, cart_4550(), Some("SAVE10"), "PO-OLD");
    let _ = store.sweep(NOW + DAY + 1);
    let out = finalize(&mut store, "PO-OLD", Some(&capture("PO-OLD", "COMPLETED")), NOW + DAY + 2);
    assert!(matches!(out, FinalizationOutcome::AlreadyProcessed));
    assert!(store.orders.is_empty());
    assert_eq!(store.find_coupon("SAVE10").unwrap().remaining_uses, 3);
}

#[test]
fn fresh_ids_have_the_uuid_shape() {
    let a = fresh_id();
    let b = fresh_id();
    assert!(is_uuid_shape(&a));
    assert!(is_uuid_shape(&b));
    assert_ne!(a, b);
    assert_eq!(a.chars().nth(14), Some('4'));
}

#[test]
fn fresh_gift_codes_are_hex_without_hyphens() {
    let a = fresh_gift_code();
    let b = fresh_gift_code();
    assert_eq!(a.len(), 32);
    assert!(a.chars().all(|c| c.is_ascii_digit() || ('a'..='f').contains(&c)));
    assert_ne!(a, b);
}

#[test]
fn strip_hyphens_removes_every_hyphen() {
    assert_eq!(
        gift_code_from_uuid("123e4567-e89b-42d3-a456-426614174000"),
        "123e4567e89b42d3a456426614174000"
    );
    assert_eq!(strip_hyphens("--a--b-"), "ab");
    assert_eq!(strip_hyphens(""), "");
    assert_eq!(strip_hyphens("plain"), "plain");
    assert_eq!(strip_hyphens("\u{2013}-x"), "\u{2013}x");
}

#[test]
fn sanitize_table_keeps_letters_digits_and_underscore() {
    assert_eq!(sanitize_table("orders"), "orders");
    assert_eq!(sanitize_table("order_items"), "order_items");
    assert_eq!(sanitize_table("users; DROP TABLE users--"), "usersDROPTABLEusers");
    assert_eq!(sanitize_table("a\"b'c d(e)"), "abcde");
    assert_eq!(sanitize_table("Tab1e_Z9"), "Tab1e_Z9");
    assert_eq!(sanitize_table("tëst"), "tst");
    assert_eq!(sanitize_table(""), "");
    assert_eq!(sanitize_table("@[`{/:"), "");
}

#[test]
fn text_helpers() {
    assert_eq!(chars_of("aé€"), vec!['a', 'é', '€']);
    assert!(same_text("abc", "abc"));
    assert!(!same_text("abc", "abd"));
    assert!(!same_text("abc", "ab"));
    assert!(same_text("", ""));
    assert!(eq_ignore_ascii_case("AbC-9", "aBc-9"));
    assert!(!eq_ignore_ascii_case("abc", "abcd"));
    assert!(!eq_ignore_ascii_case("@", "`"));
    assert!(!eq_ignore_ascii_case("[", "{"));
    assert!(!eq_ignore_ascii_case("é", "É"));
}

#[test]
fn order_details_show_recorded_prices_and_current_names() {
    let mut store = Store::new();
    store.put_coupon(stored_coupon("SAVE10", Some(10), None, 3));
    let _ = checkout(&mut store, cart_4550(), Some("SAVE10"), "PO-A");
    let _ = checkout(&mut store, vec![cart_line("p9", "Tea", 300, 1)], None, "PO-B");
    let first = finalize(&mut store, "PO-A", Some(&capture("PO-A", "COMPLETED")), NOW);
    let _ = finalize(&mut store, "PO-B", Some(&capture("PO-B", "COMPLETED")), NOW);
    let id = first.order_id().unwrap();
    let products = vec![Product {
        id: "p1".to_string(),
        name: "Soup of the day".to_string(),
        unit_amount: 9999,
        currency: "EUR".to_string(),
        image_url: None,
        description: None,
        category: None,
        allergens: None,
        additives: None,
        spice_level: None,
        serving_size: None,
        dietary_tags: None,
        ingredients: None,
    }];
    let details = order_details(&store, &id, &products).unwrap();
    assert_eq!(details.id, id);
    assert_eq!(details.email, "guest@example.com");
    assert_eq!(details.total_cents, 4095);
    assert_eq!(details.coupon_code, Some("SAVE10".to_string()));
    assert_eq!(details.discount_cents, 455);
    assert_eq!(details.created_at, NOW);
    assert_eq!(details.items.len(), 2);
    assert_eq!(details.items[0].product_id, "p1");
    assert_eq!(details.items[0].name, "Soup of the day");
    assert_eq!(details.items[0].unit_amount, 1250);
    assert_eq!(details.items[0].quantity, 2);
    assert_eq!(details.items[1].product_id, "p2");
    assert_eq!(details.items[1].name, "Product Item");
    assert!(order_details(&store, "missing", &products).is_none());
}

#[test]
fn receipt_amounts_of_an_order() {
    let mut store = Store::new();
    store.put_coupon(stored_coupon("SAVE10", Some(10), None, 3));
    let _ = checkout(&mut store, cart_4550(), Some("SAVE10"), "PO-A");
    let out = finalize(&mut store, "PO-A", Some(&capture("PO-A", "COMPLETED")), NOW);
    let f = match out {
        FinalizationOutcome::Finalized(f) => f,
        other => panic!("not finalized: {:?}", other),
    };
    let amounts = receipt_amounts(&f.order).unwrap();
    assert_eq!(amounts.subtotal_cents, 4550);
    assert_eq!(amounts.discount_cents, 455);
    assert_eq!(amounts.total_cents, 4095);
}

#[test]
fn no_receipt_without_an_address() {
    let order = Order {
        id: "o-1".to_string(),
        user_id: None,
        email: String::new(),
        total_cents: 100,
        coupon_code: None,
        content: OrderContent::Cart(OrderSnapshot { cart: cart_4550(), discount: None }),
        created_at: NOW,
    };
    assert_eq!(receipt_amounts(&order), None);
}

#[test]
fn trim_removes_white_space_at_both_ends() {
    assert_eq!(trim("  save10  "), "save10");
    assert_eq!(trim("\t\n a b \r\n"), "a b");
    assert_eq!(trim("plain"), "plain");
    assert_eq!(trim(""), "");
    assert_eq!(trim("   "), "");
    assert_eq!(trim(" x"), "x");
    assert_eq!(trim("x "), "x");
    assert_eq!(trim("\u{a0}x\u{3000}"), "x");
    assert_eq!(trim("\u{200b}x\u{200b}"), "\u{200b}x\u{200b}");
}

#[test]
fn trim_agrees_with_the_standard_library() {
    for text in ["", " ", "a", " a", "a ", " a b ", "\n\ta\u{2003}", "é ", "\u{feff}a", "a\u{85}"] {
        assert_eq!(trim(text), text.trim());
    }
}

fn pending_with_unrecorded_source(store: &mut Store, id: &str, code: &str, amount: i64) {
    store.put_pending_order(PendingOrder {
        provider_order_id: id.to_string(),
        user_id: None,
        email: "guest@example.com".to_string(),
        amount_cents: 4550 - amount,
        snapshot: OrderSnapshot {
            cart: cart_4550(),
            discount: Some(AppliedDiscount {
                source: None,
                code: code.to_string(),
                discount_cents: amount,
            }),
        },
        created_at: NOW,
    });
}

fn finalized(out: FinalizationOutcome) -> checkout_backend::finalize::Finalization {
    match out {
        FinalizationOutcome::Finalized(f) => f,
        other => panic!("not finalized: {:?}", other),
    }
}

#[test]
fn unrecorded_source_is_settled_on_the_coupon_it_names() {
    let mut store = Store::new();
    store.put_coupon(stored_coupon("SAVE10", Some(10), None, 3));
    pending_with_unrecorded_source(&mut store, "PO-L", "save10", 455);
    let f = finalized(finalize(&mut store, "PO-L", Some(&capture("PO-L", "COMPLETED")), NOW));
    assert_eq!(f.order.coupon_code, Some("save10".to_string()));
    assert_eq!(f.order.total_cents, 4095);
    let settlement = f.settlement.unwrap();
    assert_eq!(settlement.source, Some(DiscountKind::Coupon));
    assert_eq!(settlement.code, "SAVE10");
    assert_eq!(settlement.discount_cents, 455);
    assert_eq!(store.find_coupon("SAVE10").unwrap().remaining_uses, 2);
}

#[test]
fn unrecorded_source_is_settled_on_the_gift_code_first() {
    let mut store = Store::new();
    store.put_coupon(stored_coupon("TWIN", Some(10), None, 3));
    assert!(store.add_gift_code(stored_gift("twin", 2000)));
    pending_with_unrecorded_source(&mut store, "PO-L", "Twin", 1500);
    let f = finalized(finalize(&mut store, "PO-L", Some(&capture("PO-L", "COMPLETED")), NOW));
    let settlement = f.settlement.unwrap();
    assert_eq!(settlement.source, Some(DiscountKind::GiftCode));
    assert_eq!(settlement.code, "twin");
    assert_eq!(settlement.discount_cents, 1500);
    assert_eq!(store.gift_codes[0].remaining_balance, 500);
    assert_eq!(store.coupons[0].remaining_uses, 3);
}

#[test]
fn unrecorded_source_that_names_nothing_takes_nothing() {
    let mut store = Store::new();
    store.put_coupon(stored_coupon("SPENT", Some(10), None, 0));
    assert!(store.add_gift_code(stored_gift("empty", 0)));
    for (id, code) in [("PO-1", "SPENT"), ("PO-2", "empty"), ("PO-3", "unknown"), ("PO-4", "")] {
        pending_with_unrecorded_source(&mut store, id, code, 455);
        let f = finalized(finalize(&mut store, id, Some(&capture(id, "COMPLETED")), NOW));
        assert!(f.settlement.is_none());
        assert_eq!(f.order.coupon_code, Some(code.to_string()));
    }
    assert_eq!(store.coupons[0].remaining_uses, 0);
    assert_eq!(store.gift_codes[0].remaining_balance, 0);
    assert_eq!(store.orders.len(), 4);
}

#[test]
fn finalization_names_the_discount_it_took() {
    let mut store = Store::new();
    assert!(store.add_gift_code(stored_gift("abc123", 2000)));
    let _ = checkout(&mut store, cart_4550(), Some("ABC123"), "PO-G");
    let _ = checkout(&mut store, cart_4550(), None, "PO-N");
    let f = finalized(finalize(&mut store, "PO-G", Some(&capture("PO-G", "COMPLETED")), NOW));
    let settlement = f.settlement.unwrap();
    assert_eq!(settlement.source, Some(DiscountKind::GiftCode));
    assert_eq!(settlement.code, "abc123");
    assert_eq!(settlement.discount_cents, 2000);
    let f = finalized(finalize(&mut store, "PO-N", Some(&capture("PO-N", "COMPLETED")), NOW));
    assert!(f.settlement.is_none());
}
