use checkout_backend::cart::OrderSnapshot;
use checkout_backend::discount::DiscountKind;
use checkout_backend::json::{member_int, member_int_or, member_text, member_text_or};
use checkout_backend::records::OrderContent;
use checkout_backend::snapshot::{
    content_from_json, decode_content, decode_snapshot, discount_from_json, kind_from_name,
    kind_name, line_from_json, lines_from_json, pending_order_from_row, snapshot_from_json,
};

fn json(text: &str) -> serde_json::Value {
    serde_json::from_str(text).unwrap()
}

const STORED: &str = r#"{
    "cart": [
        {"product_id": "p1", "name": "Soup", "unit_amount": 1250, "quantity": 2, "currency": "EUR"},
        {"product_id": "p2", "name": "Roast", "unit_amount": 2050, "quantity": 1, "currency": "EUR"}
    ],
    "coupon_code": "SAVE10",
    "discount_cents": 455,
    "discount_source": "coupon"
}"#;

fn assert_empty(s: &OrderSnapshot) {
    assert!(s.cart.is_empty());
    assert!(s.discount.is_none());
}

#[test]
fn member_text_reads_strings_only() {
    let doc = json(r#"{"a": "x", "b": 5, "c": null, "d": ["x"], "e": {"f": "g"}, "h": ""}"#);
    assert_eq!(member_text(&doc, "a"), Some("x".to_string()));
    assert_eq!(member_text(&doc, "h"), Some(String::new()));
    assert_eq!(member_text(&doc, "b"), None);
    assert_eq!(member_text(&doc, "c"), None);
    assert_eq!(member_text(&doc, "d"), None);
    assert_eq!(member_text(&doc, "e"), None);
    assert_eq!(member_text(&doc, "f"), None);
    assert_eq!(member_text(&doc, "missing"), None);
    assert_eq!(member_text(&doc, "A"), None);
    assert_eq!(member_text_or(&doc, "a", "dflt"), "x");
    assert_eq!(member_text_or(&doc, "b", "dflt"), "dflt");
}

#[test]
fn member_text_of_a_value_that_is_no_object() {
    for text in ["[1, 2]", "\"a\"", "5", "null", "true"] {
        assert_eq!(member_text(&json(text), "a"), None);
        assert_eq!(member_int(&json(text), "a"), None);
    }
}

#[test]
fn member_int_reads_integers_that_fit() {
    let doc = json(
        r#"{"a": 5, "b": -7, "c": 5.0, "d": "5", "e": 9223372036854775807,
            "f": 9223372036854775808, "g": -9223372036854775808, "h": 1.5, "i": true, "z": 0}"#,
    );
    assert_eq!(member_int(&doc, "a"), Some(5));
    assert_eq!(member_int(&doc, "b"), Some(-7));
    assert_eq!(member_int(&doc, "c"), None);
    assert_eq!(member_int(&doc, "d"), None);
    assert_eq!(member_int(&doc, "e"), Some(i64::MAX));
    assert_eq!(member_int(&doc, "f"), None);
    assert_eq!(member_int(&doc, "g"), Some(i64::MIN));
    assert_eq!(member_int(&doc, "h"), None);
    assert_eq!(member_int(&doc, "i"), None);
    assert_eq!(member_int(&doc, "z"), Some(0));
    assert_eq!(member_int(&doc, "missing"), None);
    assert_eq!(member_int_or(&doc, "a", 1), 5);
    assert_eq!(member_int_or(&doc, "d", 1), 1);
    assert_eq!(member_int_or(&doc, "missing", -3), -3);
}

#[test]
fn kind_names_round_trip() {
    assert_eq!(kind_name(DiscountKind::Coupon), "coupon");
    assert_eq!(kind_name(DiscountKind::GiftCode), "gift_code");
    assert_eq!(kind_from_name(&Some("coupon".to_string())), Some(DiscountKind::Coupon));
    assert_eq!(kind_from_name(&Some("gift_code".to_string())), Some(DiscountKind::GiftCode));
    assert_eq!(kind_from_name(&Some("Coupon".to_string())), None);
    assert_eq!(kind_from_name(&Some(String::new())), None);
    assert_eq!(kind_from_name(&None), None);
    for kind in [DiscountKind::Coupon, DiscountKind::GiftCode] {
        assert_eq!(kind_from_name(&Some(kind_name(kind))), Some(kind));
    }
}

#[test]
fn line_from_json_reads_every_member() {
    let line = line_from_json(&json(
        r#"{"product_id": "p1", "name": "Soup", "unit_amount": 1250, "quantity": 2, "currency": "CHF"}"#,
    ));
    assert_eq!(line.product_id, "p1");
    assert_eq!(line.name, "Soup");
    assert_eq!(line.unit_amount, 1250);
    assert_eq!(line.quantity, 2);
    assert_eq!(line.currency, "CHF");
}

#[test]
fn line_from_json_fills_in_defaults() {
    for text in ["{}", "[]", "null", r#"{"product_id": 7, "quantity": "2", "unit_amount": 1.5}"#] {
        let line = line_from_json(&json(text));
        assert_eq!(line.product_id, "");
        assert_eq!(line.name, "Product");
        assert_eq!(line.unit_amount, 0);
        assert_eq!(line.quantity, 1);
        assert_eq!(line.currency, "EUR");
    }
}

#[test]
fn decode_snapshot_reads_cart_and_discount() {
    let s = decode_snapshot(STORED);
    assert_eq!(s.cart.len(), 2);
    assert_eq!(s.cart[0].product_id, "p1");
    assert_eq!(s.cart[0].name, "Soup");
    assert_eq!(s.cart[0].unit_amount, 1250);
    assert_eq!(s.cart[0].quantity, 2);
    assert_eq!(s.cart[1].product_id, "p2");
    assert_eq!(s.cart[1].unit_amount, 2050);
    assert_eq!(s.cart[1].quantity, 1);
    let d = s.discount.unwrap();
    assert_eq!(d.source, Some(DiscountKind::Coupon));
    assert_eq!(d.code, "SAVE10");
    assert_eq!(d.discount_cents, 455);
}

#[test]
fn decode_snapshot_of_text_that_is_no_json_is_empty() {
    for text in ["", "not json", "{", "{\"cart\": [", "{} trailing", "{'cart': []}"] {
        assert_empty(&decode_snapshot(text));
    }
}

#[test]
fn decode_snapshot_of_other_documents_is_empty() {
    for text in ["{}", "[]", "null", "5", "\"cart\"", r#"{"cart": {}}"#, r#"{"cart": "p1"}"#] {
        assert_empty(&decode_snapshot(text));
    }
}

#[test]
fn decode_snapshot_keeps_the_order_of_lines() {
    let s = decode_snapshot(r#"{"cart": [{"product_id": "c"}, 7, {"product_id": "a"}, {}]}"#);
    let ids: Vec<&str> = s.cart.iter().map(|l| l.product_id.as_str()).collect();
    assert_eq!(ids, vec!["c", "", "a", ""]);
    assert!(s.discount.is_none());
}

#[test]
fn discount_is_read_with_its_source() {
    let d = discount_from_json(&json(
        r#"{"coupon_code": "abc", "discount_cents": 1500, "discount_source": "gift_code"}"#,
    ))
    .unwrap();
    assert_eq!(d.source, Some(DiscountKind::GiftCode));
    assert_eq!(d.code, "abc");
    assert_eq!(d.discount_cents, 1500);
    let d = discount_from_json(&json(r#"{"coupon_code": "abc", "discount_source": "coupon"}"#))
        .unwrap();
    assert_eq!(d.source, Some(DiscountKind::Coupon));
    assert_eq!(d.discount_cents, 0);
}

#[test]
fn discount_without_a_source_keeps_code_and_amount() {
    for text in [
        r#"{"coupon_code": "abc", "discount_cents": 1500}"#,
        r#"{"coupon_code": "abc", "discount_cents": 1500, "discount_source": "voucher"}"#,
        r#"{"coupon_code": "abc", "discount_cents": 1500, "discount_source": null}"#,
        r#"{"cart": [], "coupon_code": "abc", "discount_cents": 1500}"#,
    ] {
        let d = discount_from_json(&json(text)).unwrap();
        assert_eq!(d.source, None);
        assert_eq!(d.code, "abc");
        assert_eq!(d.discount_cents, 1500);
    }
}

#[test]
fn discount_needs_a_code() {
    for text in [
        r#"{"discount_cents": 1500, "discount_source": "coupon"}"#,
        r#"{"coupon_code": null, "discount_cents": 1500, "discount_source": "coupon"}"#,
        r#"{"coupon_code": 7, "discount_cents": 1500}"#,
        "{}",
    ] {
        assert!(discount_from_json(&json(text)).is_none());
    }
}

#[test]
fn snapshot_from_json_matches_decode() {
    let s = snapshot_from_json(&json(STORED));
    assert_eq!(s.cart.len(), 2);
    assert_eq!(s.discount.unwrap().code, "SAVE10");
    assert_eq!(lines_from_json(&json(STORED)).len(), 2);
    assert!(lines_from_json(&json("{}")).is_empty());
}

#[test]
fn decode_content_tells_gift_purchases_from_carts() {
    let text = r#"{"type": "gift_coupon", "code": "abcdef", "base_amount_cents": 5000,
                   "bonus_cents": 500, "total_value_cents": 5500}"#;
    match decode_content(text) {
        OrderContent::Gift(g) => {
            assert_eq!(g.code, "abcdef");
            assert_eq!(g.base_amount_cents, 5000);
            assert_eq!(g.bonus_cents, 500);
            assert_eq!(g.total_value_cents, 5500);
        }
        other => panic!("not a gift purchase: {:?}", other),
    }
    match decode_content(r#"{"type": "gift_coupon"}"#) {
        OrderContent::Gift(g) => {
            assert_eq!(g.code, "");
            assert_eq!(g.total_value_cents, 0);
        }
        other => panic!("not a gift purchase: {:?}", other),
    }
    match decode_content(STORED) {
        OrderContent::Cart(s) => assert_eq!(s.cart.len(), 2),
        other => panic!("not a cart: {:?}", other),
    }
    match content_from_json(&json(r#"{"type": "other", "cart": [{}]}"#)) {
        OrderContent::Cart(s) => assert_eq!(s.cart.len(), 1),
        other => panic!("not a cart: {:?}", other),
    }
    match decode_content("nonsense") {
        OrderContent::Cart(s) => assert_empty(&s),
        other => panic!("not a cart: {:?}", other),
    }
}

#[test]
fn pending_order_from_row_decodes_the_snapshot() {
    let pending = pending_order_from_row(
        "PO-1".to_string(),
        Some("u1".to_string()),
        "user@example.com".to_string(),
        4095,
        STORED,
        1_700_000_000,
    );
    assert_eq!(pending.provider_order_id, "PO-1");
    assert_eq!(pending.user_id, Some("u1".to_string()));
    assert_eq!(pending.email, "user@example.com");
    assert_eq!(pending.amount_cents, 4095);
    assert_eq!(pending.created_at, 1_700_000_000);
    assert_eq!(pending.snapshot.cart.len(), 2);
    assert_eq!(pending.snapshot.discount.unwrap().discount_cents, 455);
}
