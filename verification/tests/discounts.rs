use checkout_backend::cart::{subtotal, CartItem, ValidationError};
use checkout_backend::coupons::{
    apply, apply_canonical, validate_qr, validate_qr_canonical, ApplyCouponRequest,
    ValidateQRRequest,
};
use checkout_backend::discount::{
    canonical_code, percent_allowed, Coupon, DiscountKind, DiscountSource, GiftCode,
};
use checkout_backend::money::{gift_bonus, gift_value, percent_discount, total};
use checkout_backend::resolver::{
    discount_from, evaluate, evaluate_canonical, lookup_source, resolve_discount, select_source,
};
use checkout_backend::store::Store;

fn line(product_id: &str, unit_amount: i64, quantity: i64) -> CartItem {
    CartItem {
        product_id: product_id.to_string(),
        name: format!("Dish {}", product_id),
        unit_amount,
        quantity,
        currency: "EUR".to_string(),
    }
}

fn coupon(code: &str, percent_off: Option<i64>, amount_off: Option<i64>, uses: i64) -> Coupon {
    Coupon {
        id: format!("coupon-{}", code),
        code: code.to_string(),
        percent_off,
        amount_off,
        remaining_uses: uses,
    }
}

fn gift(code: &str, balance: i64) -> GiftCode {
    GiftCode {
        id: format!("gift-{}", code),
        code: code.to_string(),
        remaining_balance: balance,
        purchaser_email: "buyer@example.com".to_string(),
        created_at: 1_700_000_000,
    }
}

#[test]
fn total_is_subtotal_less_discount() {
    assert_eq!(total(4550, 455), 4095);
    assert_eq!(total(1000, 0), 1000);
    assert_eq!(total(0, 0), 0);
}

#[test]
fn total_is_never_negative() {
    assert_eq!(total(1500, 2000), 0);
    assert_eq!(total(0, 1), 0);
    assert_eq!(total(1500, 1500), 0);
    assert_eq!(total(-5, 0), 0);
}

#[test]
fn total_handles_the_largest_amounts() {
    assert_eq!(total(i64::MAX, 0), i64::MAX);
    assert_eq!(total(i64::MAX, i64::MAX), 0);
    assert_eq!(total(i64::MIN, i64::MAX), 0);
}

#[test]
fn percent_discount_rounds_half_up() {
    assert_eq!(percent_discount(10, 4550), 455);
    assert_eq!(percent_discount(15, 30), 5);
    assert_eq!(percent_discount(10, 4), 0);
    assert_eq!(percent_discount(10, 5), 1);
    assert_eq!(percent_discount(10, 14), 1);
    assert_eq!(percent_discount(10, 15), 2);
    assert_eq!(percent_discount(33, 100), 33);
    assert_eq!(percent_discount(33, 150), 50);
    assert_eq!(percent_discount(1, 49), 0);
    assert_eq!(percent_discount(1, 50), 1);
}

#[test]
fn percent_discount_of_zero_or_full() {
    assert_eq!(percent_discount(0, 4550), 0);
    assert_eq!(percent_discount(100, 4550), 4550);
    assert_eq!(percent_discount(50, 0), 0);
}

#[test]
fn percent_discount_is_capped_at_the_largest_amount() {
    assert_eq!(percent_discount(200, i64::MAX), i64::MAX);
    assert_eq!(percent_discount(100, i64::MAX), i64::MAX);
    assert_eq!(percent_discount(i64::MAX, i64::MAX), i64::MAX);
}

#[test]
fn gift_bonus_is_a_tenth_rounded_half_up() {
    assert_eq!(gift_bonus(5000), 500);
    assert_eq!(gift_bonus(0), 0);
    assert_eq!(gift_bonus(4), 0);
    assert_eq!(gift_bonus(5), 1);
    assert_eq!(gift_bonus(1234), 123);
    assert_eq!(gift_bonus(1235), 124);
}

#[test]
fn gift_value_adds_the_bonus() {
    assert_eq!(gift_value(5000), Some(5500));
    assert_eq!(gift_value(0), Some(0));
    assert_eq!(gift_value(100), Some(110));
}

#[test]
fn gift_value_that_does_not_fit_is_none() {
    assert_eq!(gift_value(i64::MAX), None);
}

#[test]
fn subtotal_sums_price_times_quantity() {
    let cart = vec![line("a", 1250, 2), line("b", 2050, 1)];
    assert_eq!(subtotal(&cart), Ok(4550));
}

#[test]
fn subtotal_of_an_empty_cart_is_zero() {
    let cart: Vec<CartItem> = Vec::new();
    assert_eq!(subtotal(&cart), Ok(0));
}

#[test]
fn subtotal_accepts_zero_quantity_and_zero_price() {
    let cart = vec![line("a", 1250, 0), line("b", 0, 3)];
    assert_eq!(subtotal(&cart), Ok(0));
}

#[test]
fn subtotal_rejects_a_negative_quantity() {
    let cart = vec![line("a", 1250, 2), line("b", 2050, -1)];
    assert_eq!(subtotal(&cart), Err(ValidationError::NegativeCartValue));
}

#[test]
fn subtotal_rejects_a_negative_price() {
    let cart = vec![line("a", -1, 2)];
    assert_eq!(subtotal(&cart), Err(ValidationError::NegativeCartValue));
}

#[test]
fn subtotal_rejects_a_sum_that_does_not_fit() {
    let cart = vec![line("a", i64::MAX, 1), line("b", 1, 1)];
    assert_eq!(subtotal(&cart), Err(ValidationError::AmountTooLarge));
    let cart = vec![line("a", i64::MAX, 2)];
    assert_eq!(subtotal(&cart), Err(ValidationError::AmountTooLarge));
}

#[test]
fn negative_line_wins_over_a_sum_that_does_not_fit() {
    let cart = vec![line("a", i64::MAX, 2), line("b", -1, 1)];
    assert_eq!(subtotal(&cart), Err(ValidationError::NegativeCartValue));
}

#[test]
fn subtotal_accepts_the_largest_sum() {
    let cart = vec![line("a", i64::MAX - 1, 1), line("b", 1, 1)];
    assert_eq!(subtotal(&cart), Ok(i64::MAX));
}

#[test]
fn coupon_fixed_amount_takes_priority_over_percentage() {
    let c = coupon("BOTH", Some(50), Some(300), 1);
    assert_eq!(c.discount_for(4550), 300);
    let c = coupon("PCT", Some(50), Some(0), 1);
    assert_eq!(c.discount_for(4550), 2275);
    let c = coupon("PCT", Some(50), None, 1);
    assert_eq!(c.discount_for(4550), 2275);
    let c = coupon("AMT", None, Some(300), 1);
    assert_eq!(c.discount_for(4550), 300);
}

#[test]
fn coupon_without_positive_discount_is_not_live() {
    assert!(!coupon("NONE", None, None, 5).is_live());
    assert!(!coupon("ZERO", Some(0), Some(0), 5).is_live());
    assert!(!coupon("NEG", Some(-10), Some(-5), 5).is_live());
    assert!(coupon("PCT", Some(10), None, 5).is_live());
    assert!(coupon("AMT", None, Some(1), 5).is_live());
    assert_eq!(coupon("NONE", None, None, 5).discount_for(1000), 0);
}

#[test]
fn coupon_without_uses_is_not_live() {
    assert!(!coupon("SPENT", Some(10), None, 0).is_live());
    assert!(!coupon("SPENT", Some(10), None, -1).is_live());
    assert!(coupon("LAST", Some(10), None, 1).is_live());
}

#[test]
fn coupon_consume_floors_at_zero() {
    let mut c = coupon("SAVE10", Some(10), None, 2);
    c.consume();
    assert_eq!(c.remaining_uses, 1);
    c.consume();
    assert_eq!(c.remaining_uses, 0);
    c.consume();
    assert_eq!(c.remaining_uses, 0);
    let mut c = coupon("ODD", Some(10), None, -7);
    c.consume();
    assert_eq!(c.remaining_uses, 0);
    let mut c = coupon("LOW", Some(10), None, i64::MIN);
    c.consume();
    assert_eq!(c.remaining_uses, 0);
}

#[test]
fn coupon_new_stores_the_canonical_code() {
    let c = Coupon::new("1".to_string(), "  save10 ", Some(10), None, 3).unwrap();
    assert_eq!(c.code, "SAVE10");
    assert_eq!(c.remaining_uses, 3);
    assert_eq!(c.percent_off, Some(10));
    assert_eq!(c.amount_off, None);
    let c = Coupon::new("2".to_string(), "x", None, Some(5), -4).unwrap();
    assert_eq!(c.code, "X");
    assert_eq!(c.remaining_uses, 0);
}

#[test]
fn gift_discount_is_capped_at_the_subtotal() {
    let g = gift("abc123", 2000);
    assert_eq!(g.discount_for(1500), 1500);
    assert_eq!(g.discount_for(2000), 2000);
    assert_eq!(g.discount_for(2500), 2000);
    assert_eq!(g.discount_for(0), 0);
}

#[test]
fn gift_redeem_floors_at_zero() {
    let mut g = gift("abc123", 2000);
    g.redeem(1500);
    assert_eq!(g.remaining_balance, 500);
    g.redeem(500);
    assert_eq!(g.remaining_balance, 0);
    g.redeem(1);
    assert_eq!(g.remaining_balance, 0);
    let mut g = gift("abc123", 100);
    g.redeem(i64::MAX);
    assert_eq!(g.remaining_balance, 0);
}

#[test]
fn gift_redeem_stays_within_the_amount_type() {
    let mut g = gift("abc123", i64::MAX);
    g.redeem(-1);
    assert_eq!(g.remaining_balance, i64::MAX);
    let mut g = gift("abc123", 10);
    g.redeem(0);
    assert_eq!(g.remaining_balance, 10);
}

#[test]
fn resolve_prefers_a_live_gift_code() {
    let g = gift("Abc123", 2000);
    let c = coupon("ABC123", Some(10), None, 3);
    let r = resolve_discount(Some(g), Some(c), 1500);
    assert!(r.applies);
    assert_eq!(r.source, Some(DiscountKind::GiftCode));
    assert_eq!(r.discount_cents, 1500);
    assert_eq!(r.canonical_code, Some("Abc123".to_string()));
}

#[test]
fn resolve_falls_back_to_the_coupon_when_the_gift_is_spent() {
    let g = gift("abc123", 0);
    let c = coupon("ABC123", Some(10), None, 3);
    let r = resolve_discount(Some(g), Some(c), 1500);
    assert!(r.applies);
    assert_eq!(r.source, Some(DiscountKind::Coupon));
    assert_eq!(r.discount_cents, 150);
    assert_eq!(r.canonical_code, Some("ABC123".to_string()));
}

#[test]
fn resolve_of_nothing_does_not_apply() {
    let r = resolve_discount(None, None, 1500);
    assert!(!r.applies);
    assert_eq!(r.source, None);
    assert_eq!(r.discount_cents, 0);
    assert_eq!(r.canonical_code, None);
    let g = gift("abc123", 0);
    let c = coupon("ABC123", Some(10), None, 0);
    let r = resolve_discount(Some(g), Some(c), 1500);
    assert!(!r.applies);
    assert_eq!(r.discount_cents, 0);
}

#[test]
fn evaluate_finds_a_coupon_in_any_letter_case() {
    let mut store = Store::new();
    store.put_coupon(coupon("SAVE10", Some(10), None, 3));
    for code in ["SAVE10", "save10", "Save10", "  save10  "] {
        let r = evaluate(&store, code, 4550);
        assert!(r.applies);
        assert_eq!(r.source, Some(DiscountKind::Coupon));
        assert_eq!(r.discount_cents, 455);
        assert_eq!(r.canonical_code, Some("SAVE10".to_string()));
    }
}

#[test]
fn evaluate_does_not_find_a_coupon_stored_in_lower_case() {
    let mut store = Store::new();
    store.put_coupon(coupon("save10", Some(10), None, 3));
    let r = evaluate(&store, "save10", 4550);
    assert!(!r.applies);
}

#[test]
fn evaluate_finds_a_gift_code_in_any_letter_case() {
    let mut store = Store::new();
    assert!(store.add_gift_code(gift("abc123", 2000)));
    for code in ["abc123", "ABC123", "aBc123", " abc123\n"] {
        let r = evaluate(&store, code, 1500);
        assert!(r.applies);
        assert_eq!(r.source, Some(DiscountKind::GiftCode));
        assert_eq!(r.discount_cents, 1500);
        assert_eq!(r.canonical_code, Some("abc123".to_string()));
    }
}

#[test]
fn evaluate_of_an_empty_or_blank_code_is_no_discount() {
    let mut store = Store::new();
    store.put_coupon(coupon("", Some(10), None, 3));
    assert!(store.add_gift_code(gift("", 2000)));
    for code in ["", " ", "\t\n  "] {
        let r = evaluate(&store, code, 4550);
        assert!(!r.applies);
        assert_eq!(r.discount_cents, 0);
        assert_eq!(r.source, None);
        assert_eq!(r.canonical_code, None);
    }
}

#[test]
fn evaluate_of_an_unknown_code_is_no_discount() {
    let mut store = Store::new();
    store.put_coupon(coupon("SAVE10", Some(10), None, 3));
    let r = evaluate(&store, "SAVE20", 4550);
    assert!(!r.applies);
    assert_eq!(r.discount_cents, 0);
}

#[test]
fn evaluate_treats_a_spent_coupon_as_not_found() {
    let mut store = Store::new();
    store.put_coupon(coupon("SPENT", Some(10), None, 0));
    store.put_coupon(coupon("EMPTY", None, None, 5));
    store.put_coupon(coupon("ZERO", Some(0), Some(0), 5));
    for code in ["SPENT", "EMPTY", "ZERO"] {
        let r = evaluate(&store, code, 4550);
        assert!(!r.applies);
        assert_eq!(r.discount_cents, 0);
        assert_eq!(r.canonical_code, None);
    }
}

#[test]
fn evaluate_does_not_change_the_tables() {
    let mut store = Store::new();
    store.put_coupon(coupon("SAVE10", Some(10), None, 3));
    assert!(store.add_gift_code(gift("abc123", 2000)));
    let _ = evaluate(&store, "SAVE10", 4550);
    let _ = evaluate(&store, "abc123", 4550);
    assert_eq!(store.coupons[0].remaining_uses, 3);
    assert_eq!(store.gift_codes[0].remaining_balance, 2000);
}

#[test]
fn evaluate_canonical_uses_the_given_upper_case_form() {
    let mut store = Store::new();
    store.put_coupon(coupon("SAVE10", Some(10), None, 3));
    let r = evaluate_canonical(&store, "save10", "SAVE10", 4550);
    assert!(r.applies);
    assert_eq!(r.discount_cents, 455);
    let r = evaluate_canonical(&store, "save10", "save10", 4550);
    assert!(!r.applies);
    let r = evaluate_canonical(&store, "", "SAVE10", 4550);
    assert!(!r.applies);
}

#[test]
fn gift_lookup_folds_only_ascii_letters() {
    let mut store = Store::new();
    assert!(store.add_gift_code(gift("äbc", 2000)));
    assert!(evaluate(&store, "äBC", 1500).applies);
    assert!(!evaluate(&store, "ÄBC", 1500).applies);
}

#[test]
fn apply_reports_a_gift_code_as_an_amount() {
    let mut store = Store::new();
    assert!(store.add_gift_code(gift("abc123", 2000)));
    let request = ApplyCouponRequest {
        code: " ABC123 ".to_string(),
        cart: Some(vec![line("a", 750, 2)]),
    };
    let response = apply(&store, &request).unwrap();
    assert!(response.valid);
    assert_eq!(response.amount_off, Some(1500));
    assert_eq!(response.percent_off, None);
}

#[test]
fn apply_reports_a_coupon_as_it_is_stored() {
    let mut store = Store::new();
    store.put_coupon(coupon("SAVE10", Some(10), None, 3));
    store.put_coupon(coupon("BOTH", Some(20), Some(300), 3));
    let request = ApplyCouponRequest { code: "save10".to_string(), cart: None };
    let response = apply(&store, &request).unwrap();
    assert!(response.valid);
    assert_eq!(response.amount_off, None);
    assert_eq!(response.percent_off, Some(10));
    let request = ApplyCouponRequest { code: "both".to_string(), cart: None };
    let response = apply(&store, &request).unwrap();
    assert!(response.valid);
    assert_eq!(response.amount_off, Some(300));
    assert_eq!(response.percent_off, Some(20));
}

#[test]
fn apply_reports_an_unknown_or_spent_code_as_invalid() {
    let mut store = Store::new();
    store.put_coupon(coupon("SPENT", Some(10), None, 0));
    for code in ["SPENT", "NOPE", ""] {
        let request = ApplyCouponRequest { code: code.to_string(), cart: None };
        let response = apply(&store, &request).unwrap();
        assert!(!response.valid);
        assert_eq!(response.amount_off, None);
        assert_eq!(response.percent_off, None);
    }
}

#[test]
fn apply_rejects_a_malformed_cart() {
    let store = Store::new();
    let request = ApplyCouponRequest {
        code: "SAVE10".to_string(),
        cart: Some(vec![line("a", 100, -2)]),
    };
    assert_eq!(apply(&store, &request), Err(ValidationError::NegativeCartValue));
    let request = ApplyCouponRequest {
        code: "SAVE10".to_string(),
        cart: Some(vec![line("a", i64::MAX, 2)]),
    };
    assert_eq!(apply(&store, &request), Err(ValidationError::AmountTooLarge));
}

#[test]
fn apply_canonical_matches_apply() {
    let mut store = Store::new();
    store.put_coupon(coupon("SAVE10", Some(10), None, 3));
    let response = apply_canonical(&store, "save10", "SAVE10", 0);
    assert!(response.valid);
    assert_eq!(response.percent_off, Some(10));
    let response = apply_canonical(&store, "save10", "Save10", 0);
    assert!(!response.valid);
}

#[test]
fn validate_qr_finds_a_live_gift_code() {
    let mut store = Store::new();
    assert!(store.add_gift_code(gift("abc123", 2000)));
    let request = ValidateQRRequest { code: " ABC123 ".to_string() };
    let response = validate_qr(&store, &request).unwrap();
    assert_eq!(response.id, "gift-abc123");
    assert_eq!(response.code, "abc123");
    assert_eq!(response.balance, 2000);
    assert_eq!(response.customer_email, "buyer@example.com");
}

#[test]
fn validate_qr_finds_a_coupon_with_uses_left() {
    let mut store = Store::new();
    store.put_coupon(coupon("SAVE10", Some(10), Some(300), 3));
    store.put_coupon(coupon("PCT", Some(25), None, 1));
    store.put_coupon(coupon("BARE", None, None, 1));
    let response = validate_qr(&store, &ValidateQRRequest { code: "save10".to_string() }).unwrap();
    assert_eq!(response.id, "coupon-SAVE10");
    assert_eq!(response.code, "SAVE10");
    assert_eq!(response.balance, 300);
    assert_eq!(response.customer_email, "manager@restaurant.local");
    let response = validate_qr(&store, &ValidateQRRequest { code: "pct".to_string() }).unwrap();
    assert_eq!(response.balance, 25);
    let response = validate_qr(&store, &ValidateQRRequest { code: "bare".to_string() }).unwrap();
    assert_eq!(response.balance, 0);
}

#[test]
fn validate_qr_of_a_spent_or_unknown_code_is_none() {
    let mut store = Store::new();
    assert!(store.add_gift_code(gift("abc123", 0)));
    store.put_coupon(coupon("SPENT", Some(10), None, 0));
    for code in ["abc123", "SPENT", "nothing"] {
        assert!(validate_qr(&store, &ValidateQRRequest { code: code.to_string() }).is_none());
    }
}

#[test]
fn validate_qr_lowers_the_code_before_raising_it() {
    // The capital sharp s lowers to the small one, which raises to "SS".
    let mut store = Store::new();
    store.put_coupon(coupon("SS", Some(10), None, 1));
    let response = validate_qr(&store, &ValidateQRRequest { code: "\u{1E9E}".to_string() });
    assert_eq!(response.unwrap().code, "SS");
    assert!(validate_qr_canonical(&store, "\u{1E9E}", "\u{1E9E}").is_none());
}

#[test]
fn validate_qr_prefers_the_gift_code() {
    let mut store = Store::new();
    assert!(store.add_gift_code(gift("TWIN", 700)));
    store.put_coupon(coupon("TWIN", Some(10), None, 1));
    let response = validate_qr_canonical(&store, "twin", "TWIN").unwrap();
    assert_eq!(response.balance, 700);
    assert_eq!(response.id, "gift-TWIN");
}

#[test]
fn lookup_source_tries_gift_codes_before_coupons() {
    let mut store = Store::new();
    store.put_coupon(coupon("TWIN", Some(10), None, 3));
    assert!(store.add_gift_code(gift("twin", 2000)));
    match lookup_source(&store, "TWIN", "TWIN") {
        Some(DiscountSource::GiftCode(g)) => assert_eq!(g.code, "twin"),
        other => panic!("not the gift code: {:?}", other),
    }
    store.gift_codes[0].remaining_balance = 0;
    match lookup_source(&store, "twin", "TWIN") {
        Some(DiscountSource::Coupon(c)) => assert_eq!(c.code, "TWIN"),
        other => panic!("not the coupon: {:?}", other),
    }
    store.coupons[0].remaining_uses = 0;
    assert!(lookup_source(&store, "twin", "TWIN").is_none());
    assert!(lookup_source(&store, "", "").is_none());
}

#[test]
fn select_source_skips_what_cannot_be_applied() {
    assert!(select_source(None, None).is_none());
    assert!(select_source(Some(gift("g", 0)), None).is_none());
    assert!(select_source(None, Some(coupon("C", None, None, 3))).is_none());
    assert!(matches!(
        select_source(Some(gift("g", 1)), Some(coupon("C", Some(5), None, 3))),
        Some(DiscountSource::GiftCode(_))
    ));
    assert!(matches!(
        select_source(Some(gift("g", -1)), Some(coupon("C", Some(5), None, 3))),
        Some(DiscountSource::Coupon(_))
    ));
}

#[test]
fn discount_source_kind_code_and_discount() {
    let source = DiscountSource::GiftCode(gift("abc123", 2000));
    assert_eq!(source.kind(), DiscountKind::GiftCode);
    assert_eq!(source.code(), "abc123");
    assert_eq!(source.discount_for(1500), 1500);
    let source = DiscountSource::Coupon(coupon("SAVE10", Some(10), None, 3));
    assert_eq!(source.kind(), DiscountKind::Coupon);
    assert_eq!(source.code(), "SAVE10");
    assert_eq!(source.discount_for(4550), 455);
    let r = discount_from(&Some(source), 4550);
    assert!(r.applies);
    assert_eq!(r.discount_cents, 455);
    assert_eq!(r.source, Some(DiscountKind::Coupon));
    let r = discount_from(&None, 4550);
    assert!(!r.applies);
    assert_eq!(r.discount_cents, 0);
}

#[test]
fn coupon_percentage_must_lie_between_0_and_100() {
    for percent in [Some(0), Some(1), Some(100), None] {
        assert!(percent_allowed(percent));
        assert!(Coupon::new("1".to_string(), "c", percent, None, 1).is_some());
        assert!(Coupon::with_code("1".to_string(), "C".to_string(), percent, Some(5), 1).is_some());
    }
    for percent in [Some(-1), Some(101), Some(i64::MAX), Some(i64::MIN)] {
        assert!(!percent_allowed(percent));
        assert!(Coupon::new("1".to_string(), "c", percent, None, 1).is_none());
        assert!(Coupon::with_code("1".to_string(), "C".to_string(), percent, Some(5), 1).is_none());
    }
}

#[test]
fn coupon_with_code_keeps_the_code_as_given() {
    let c = Coupon::with_code("7".to_string(), " mixed ".to_string(), Some(100), Some(-3), -1)
        .unwrap();
    assert_eq!(c.id, "7");
    assert_eq!(c.code, " mixed ");
    assert_eq!(c.percent_off, Some(100));
    assert_eq!(c.amount_off, Some(-3));
    assert_eq!(c.remaining_uses, 0);
}

#[test]
fn canonical_code_trims_and_raises() {
    assert_eq!(canonical_code("  save10 "), "SAVE10");
    assert_eq!(canonical_code("SAVE10"), "SAVE10");
    assert_eq!(canonical_code(" \t"), "");
    assert_eq!(canonical_code("stra\u{df}e"), "STRASSE");
}
