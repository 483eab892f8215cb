//! The stored form of what an order holds: a JSON document.
//!
//! Reading is total. A text that is no JSON document reads as an empty cart
//! without a discount, and a member that is missing or of the wrong kind
//! reads as its default. A document that names a code but not the kind of
//! source it came from records the discount without a source.

use crate::cart::{
    AppliedDiscount, AppliedDiscountView, CartItem, CartItemView, OrderSnapshot,
    OrderSnapshotView, cart_view,
};
use crate::discount::DiscountKind;
use crate::json::{
    int_or, json_as_array, json_document, json_get, json_parse, json_view, json_views,
    list_member, member_int_or, member_text, member_text_or, text_member, text_or, JsonView,
};
use crate::records::{
    GiftPurchase, GiftPurchaseView, OrderContent, OrderContentView, PendingOrder,
    PendingOrderView,
};
use crate::text::{opt_text, same_text};
use vstd::prelude::*;

verus! {

/// The kind of discount source that a stored name stands for.
pub open spec fn kind_named(name: Option<Seq<char>>) -> Option<DiscountKind> {
    if name == Some("coupon"@) {
        Some(DiscountKind::Coupon)
    } else if name == Some("gift_code"@) {
        Some(DiscountKind::GiftCode)
    } else {
        None
    }
}

/// The cart line that a document stands for. A line without a product reads
/// as the empty product id, one without a quantity as one unit, one without
/// a price as free.
pub open spec fn line_of(doc: JsonView) -> CartItemView {
    CartItemView {
        product_id: text_or(doc, "product_id"@, ""@),
        name: text_or(doc, "name"@, "Product"@),
        unit_amount: int_or(doc, "unit_amount"@, 0),
        quantity: int_or(doc, "quantity"@, 1),
        currency: text_or(doc, "currency"@, "EUR"@),
    }
}

/// The cart lines of a document: those of its member `cart`, where that is
/// an array.
pub open spec fn lines_of(doc: JsonView) -> Seq<CartItemView> {
    match list_member(doc, "cart"@) {
        Some(items) => items.map_values(|d: JsonView| line_of(d)),
        None => Seq::empty(),
    }
}

/// The discount a document records: one is recorded where the document names
/// a code. Where it does not name the source as well, the discount is
/// recorded without one.
pub open spec fn discount_in(doc: JsonView) -> Option<AppliedDiscountView> {
    match text_member(doc, "coupon_code"@) {
        Some(code) => Some(
            AppliedDiscountView {
                source: kind_named(text_member(doc, "discount_source"@)),
                code,
                discount_cents: int_or(doc, "discount_cents"@, 0),
            },
        ),
        None => None,
    }
}

/// The snapshot that a document stands for.
pub open spec fn snapshot_of(doc: JsonView) -> OrderSnapshotView {
    OrderSnapshotView { cart: lines_of(doc), discount: discount_in(doc) }
}

/// The snapshot without lines and without a discount.
pub open spec fn empty_snapshot() -> OrderSnapshotView {
    OrderSnapshotView { cart: Seq::empty(), discount: None }
}

/// The snapshot that a stored text stands for.
pub open spec fn snapshot_of_text(text: Seq<char>) -> OrderSnapshotView {
    match json_document(text) {
        Some(doc) => snapshot_of(doc),
        None => empty_snapshot(),
    }
}

/// The gift purchase that a document stands for.
pub open spec fn gift_purchase_of(doc: JsonView) -> GiftPurchaseView {
    GiftPurchaseView {
        code: text_or(doc, "code"@, ""@),
        base_amount_cents: int_or(doc, "base_amount_cents"@, 0),
        bonus_cents: int_or(doc, "bonus_cents"@, 0),
        total_value_cents: int_or(doc, "total_value_cents"@, 0),
    }
}

/// What a document says an order holds: a gift purchase where the document
/// is marked as one, else a cart.
pub open spec fn content_of(doc: JsonView) -> OrderContentView {
    if text_member(doc, "type"@) == Some("gift_coupon"@) {
        OrderContentView::Gift(gift_purchase_of(doc))
    } else {
        OrderContentView::Cart(snapshot_of(doc))
    }
}

/// What a stored text says an order holds.
pub open spec fn content_of_text(text: Seq<char>) -> OrderContentView {
    match json_document(text) {
        Some(doc) => content_of(doc),
        None => OrderContentView::Cart(empty_snapshot()),
    }
}

/// The name a kind of discount source is stored under.
pub fn kind_name(kind: DiscountKind) -> (name: String)
    ensures
        kind_named(Some(name@)) == Some(kind),
{
    proof {
        reveal_strlit("coupon");
        reveal_strlit("gift_code");
        assert("coupon"@.len() == 6);
        assert("gift_code"@.len() == 9);
    }
    match kind {
        DiscountKind::Coupon => "coupon".to_owned(),
        DiscountKind::GiftCode => "gift_code".to_owned(),
    }
}

/// The kind of discount source that a stored name stands for.
pub fn kind_from_name(name: &Option<String>) -> (kind: Option<DiscountKind>)
    ensures
        kind == kind_named(opt_text(*name)),
{
    match name {
        Some(n) => {
            if same_text(n.as_str(), "coupon") {
                Some(DiscountKind::Coupon)
            } else if same_text(n.as_str(), "gift_code") {
                Some(DiscountKind::GiftCode)
            } else {
                None
            }
        },
        None => None,
    }
}

/// The cart line that the JSON value `value` stands for.
pub fn line_from_json(value: &serde_json::Value) -> (line: CartItem)
    ensures
        line@ == line_of(json_view(*value)),
{
    CartItem {
        product_id: member_text_or(value, "product_id", ""),
        name: member_text_or(value, "name", "Product"),
        unit_amount: member_int_or(value, "unit_amount", 0),
        quantity: member_int_or(value, "quantity", 1),
        currency: member_text_or(value, "currency", "EUR"),
    }
}

/// The cart lines of the JSON value `value`.
pub fn lines_from_json(value: &serde_json::Value) -> (cart: Vec<CartItem>)
    ensures
        cart_view(cart@) == lines_of(json_view(*value)),
{
    let mut cart: Vec<CartItem> = Vec::new();
    let items: &Vec<serde_json::Value> = match json_get(value, "cart") {
        Some(member) => match json_as_array(member) {
            Some(items) => items,
            None => {
                assert(cart_view(cart@) =~= Seq::<CartItemView>::empty());
                return cart;
            },
        },
        None => {
            assert(cart_view(cart@) =~= Seq::<CartItemView>::empty());
            return cart;
        },
    };
    let ghost docs = json_views(items@);
    let ghost read = |d: JsonView| line_of(d);
    let mut i: usize = 0;
    assert(cart_view(cart@) =~= docs.take(0).map_values(read));
    while i < items.len()
        invariant
            i <= items.len(),
            docs == json_views(items@),
            read == (|d: JsonView| line_of(d)),
            cart_view(cart@) == docs.take(i as int).map_values(read),
        decreases items.len() - i,
    {
        let line: CartItem = line_from_json(&items[i]);
        proof {
            assert(docs[i as int] == json_view(items@[i as int]));
            assert(docs.take(i + 1) =~= docs.take(i as int).push(docs[i as int]));
            assert(docs.take(i as int).push(docs[i as int]).map_values(read) =~= docs.take(
                i as int,
            ).map_values(read).push(read(docs[i as int])));
            assert(cart_view(cart@.push(line)) =~= cart_view(cart@).push(line@));
        }
        cart.push(line);
        i += 1;
    }
    proof {
        assert(docs.take(items.len() as int) =~= docs);
    }
    cart
}

/// The discount that the JSON value `value` records.
pub fn discount_from_json(value: &serde_json::Value) -> (d: Option<AppliedDiscount>)
    ensures
        (match d {
            Some(a) => Some(a@),
            None => None,
        }) == discount_in(json_view(*value)),
{
    match member_text(value, "coupon_code") {
        Some(code) => Some(
            AppliedDiscount {
                source: kind_from_name(&member_text(value, "discount_source")),
                code,
                discount_cents: member_int_or(value, "discount_cents", 0),
            },
        ),
        None => None,
    }
}

/// The snapshot that the JSON value `value` stands for.
pub fn snapshot_from_json(value: &serde_json::Value) -> (s: OrderSnapshot)
    ensures
        s@ == snapshot_of(json_view(*value)),
{
    OrderSnapshot { cart: lines_from_json(value), discount: discount_from_json(value) }
}

/// The snapshot that the stored text `text` stands for.
pub fn decode_snapshot(text: &str) -> (s: OrderSnapshot)
    ensures
        s@ == snapshot_of_text(text@),
{
    match json_parse(text) {
        Some(value) => snapshot_from_json(&value),
        None => {
            let s = OrderSnapshot { cart: Vec::new(), discount: None };
            assert(cart_view(s.cart@) =~= Seq::<CartItemView>::empty());
            s
        },
    }
}

/// What the JSON value `value` says an order holds.
pub fn content_from_json(value: &serde_json::Value) -> (c: OrderContent)
    ensures
        c@ == content_of(json_view(*value)),
{
    let marked: bool = match member_text(value, "type") {
        Some(t) => same_text(t.as_str(), "gift_coupon"),
        None => false,
    };
    if marked {
        OrderContent::Gift(
            GiftPurchase {
                code: member_text_or(value, "code", ""),
                base_amount_cents: member_int_or(value, "base_amount_cents", 0),
                bonus_cents: member_int_or(value, "bonus_cents", 0),
                total_value_cents: member_int_or(value, "total_value_cents", 0),
            },
        )
    } else {
        OrderContent::Cart(snapshot_from_json(value))
    }
}

/// What the stored text `text` says an order holds.
pub fn decode_content(text: &str) -> (c: OrderContent)
    ensures
        c@ == content_of_text(text@),
{
    match json_parse(text) {
        Some(value) => content_from_json(&value),
        None => {
            let s = OrderSnapshot { cart: Vec::new(), discount: None };
            assert(cart_view(s.cart@) =~= Seq::<CartItemView>::empty());
            OrderContent::Cart(s)
        },
    }
}

/// The pending order that a stored row stands for.
pub fn pending_order_from_row(
    provider_order_id: String,
    user_id: Option<String>,
    email: String,
    amount_cents: i64,
    items_json: &str,
    created_at: i64,
) -> (pending: PendingOrder)
    ensures
        pending@ == (PendingOrderView {
            provider_order_id: provider_order_id@,
            user_id: opt_text(user_id),
            email: email@,
            amount_cents: amount_cents as int,
            snapshot: snapshot_of_text(items_json@),
            created_at: created_at as int,
        }),
{
    PendingOrder {
        provider_order_id,
        user_id,
        email,
        amount_cents,
        snapshot: decode_snapshot(items_json),
        created_at,
    }
}

} // verus!
