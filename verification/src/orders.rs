//! The view of an order that the confirmation page shows.

use crate::cart::{cart_is_valid, cart_sum, subtotal};
use crate::money::{order_total, total};
use crate::records::{
    Order, OrderContent, OrderContentView, OrderItemRecord, OrderItemRecordView, OrderView,
};
use crate::store::{Store, StoreView};
use crate::table::{find_row, lookup, rows_view, Row};
use crate::text::{clone_opt, opt_text, same_text};
use vstd::prelude::*;

verus! {

/// A product of the catalog.
#[derive(Debug)]
pub struct Product {
    pub id: String,
    pub name: String,
    pub unit_amount: i64,
    pub currency: String,
    pub image_url: Option<String>,
    pub description: Option<String>,
    pub category: Option<String>,
    pub allergens: Option<String>,
    pub additives: Option<String>,
    pub spice_level: Option<String>,
    pub serving_size: Option<String>,
    pub dietary_tags: Option<String>,
    pub ingredients: Option<String>,
}

/// What the checkout flow reads of a `Product`.
pub ghost struct ProductView {
    pub id: Seq<char>,
    pub name: Seq<char>,
    pub unit_amount: int,
    pub currency: Seq<char>,
}

impl View for Product {
    type V = ProductView;

    open spec fn view(&self) -> ProductView {
        ProductView {
            id: self.id@,
            name: self.name@,
            unit_amount: self.unit_amount as int,
            currency: self.currency@,
        }
    }
}

impl Clone for Product {
    fn clone(&self) -> (r: Self)
        ensures
            r == *self,
    {
        Product {
            id: self.id.clone(),
            name: self.name.clone(),
            unit_amount: self.unit_amount,
            currency: self.currency.clone(),
            image_url: clone_opt(&self.image_url),
            description: clone_opt(&self.description),
            category: clone_opt(&self.category),
            allergens: clone_opt(&self.allergens),
            additives: clone_opt(&self.additives),
            spice_level: clone_opt(&self.spice_level),
            serving_size: clone_opt(&self.serving_size),
            dietary_tags: clone_opt(&self.dietary_tags),
            ingredients: clone_opt(&self.ingredients),
        }
    }
}

impl Row for Product {
    open spec fn has_key(row: ProductView, key: Seq<char>) -> bool {
        row.id == key
    }

    fn matches_key(&self, key: &str) -> (yes: bool) {
        same_text(self.id.as_str(), key)
    }

    fn duplicate(&self) -> (r: Self) {
        self.clone()
    }
}

/// One line of an order as the confirmation page shows it.
#[derive(Debug)]
pub struct OrderItem {
    pub product_id: String,
    pub quantity: i64,
    pub unit_amount: i64,
    pub name: String,
}

/// The mathematical content of an `OrderItem`.
pub ghost struct OrderItemView {
    pub product_id: Seq<char>,
    pub quantity: int,
    pub unit_amount: int,
    pub name: Seq<char>,
}

impl View for OrderItem {
    type V = OrderItemView;

    open spec fn view(&self) -> OrderItemView {
        OrderItemView {
            product_id: self.product_id@,
            quantity: self.quantity as int,
            unit_amount: self.unit_amount as int,
            name: self.name@,
        }
    }
}

/// An order as the confirmation page shows it.
#[derive(Debug)]
pub struct OrderDetails {
    pub id: String,
    pub email: String,
    pub total_cents: i64,
    pub coupon_code: Option<String>,
    pub discount_cents: i64,
    pub items: Vec<OrderItem>,
    pub created_at: i64,
}

/// The mathematical content of an `OrderDetails`.
pub ghost struct OrderDetailsView {
    pub id: Seq<char>,
    pub email: Seq<char>,
    pub total_cents: int,
    pub coupon_code: Option<Seq<char>>,
    pub discount_cents: int,
    pub items: Seq<OrderItemView>,
    pub created_at: int,
}

impl View for OrderDetails {
    type V = OrderDetailsView;

    open spec fn view(&self) -> OrderDetailsView {
        OrderDetailsView {
            id: self.id@,
            email: self.email@,
            total_cents: self.total_cents as int,
            coupon_code: opt_text(self.coupon_code),
            discount_cents: self.discount_cents as int,
            items: rows_view(self.items@),
            created_at: self.created_at as int,
        }
    }
}

/// The name shown for a product that is no longer in the catalog.
pub open spec fn unknown_product_name() -> Seq<char> {
    "Product Item"@
}

/// The discount an order recorded; zero where it recorded none.
pub open spec fn recorded_discount(content: OrderContentView) -> int {
    match content {
        OrderContentView::Cart(snapshot) => match snapshot.discount {
            Some(d) => d.discount_cents,
            None => 0,
        },
        OrderContentView::Gift(_) => 0,
    }
}

/// An order item as the confirmation page shows it: the quantity and price
/// that were recorded at purchase time, under the product's current name.
pub open spec fn shown_item(item: OrderItemRecordView, products: Seq<ProductView>)
    -> OrderItemView {
    OrderItemView {
        product_id: item.product_id,
        quantity: item.quantity,
        unit_amount: item.unit_amount,
        name: match lookup::<Product>(products, item.product_id) {
            Some(p) => p.name,
            None => unknown_product_name(),
        },
    }
}

/// The items of the order `order_id`, as the confirmation page shows them.
pub open spec fn shown_items(
    items: Seq<OrderItemRecordView>,
    order_id: Seq<char>,
    products: Seq<ProductView>,
) -> Seq<OrderItemView> {
    items.filter(|item: OrderItemRecordView| item.order_id == order_id).map_values(
        |item: OrderItemRecordView| shown_item(item, products),
    )
}

/// The order `order` with the items `items`, as the confirmation page shows
/// it.
pub open spec fn details_of(
    order: OrderView,
    items: Seq<OrderItemRecordView>,
    products: Seq<ProductView>,
) -> OrderDetailsView {
    OrderDetailsView {
        id: order.id,
        email: order.email,
        total_cents: order.total_cents,
        coupon_code: order.coupon_code,
        discount_cents: recorded_discount(order.content),
        items: shown_items(items, order.id, products),
        created_at: order.created_at,
    }
}

/// The order with the id `id`, as the confirmation page shows it, if there
/// is one.
pub open spec fn details_spec(store: StoreView, id: Seq<char>, products: Seq<ProductView>)
    -> Option<OrderDetailsView> {
    match lookup::<Order>(store.orders, id) {
        Some(order) => Some(details_of(order, store.order_items, products)),
        None => None,
    }
}

/// The view of optional order details.
pub open spec fn opt_details_view(d: Option<OrderDetails>) -> Option<OrderDetailsView> {
    match d {
        Some(v) => Some(v@),
        None => None,
    }
}

/// An order item as the confirmation page shows it.
pub fn show_item(item: &OrderItemRecord, products: &Vec<Product>) -> (shown: OrderItem)
    ensures
        shown@ == shown_item(item@, rows_view(products@)),
{
    let name: String = match find_row(products, item.product_id.as_str()) {
        Some(p) => p.name,
        None => "Product Item".to_owned(),
    };
    OrderItem {
        product_id: item.product_id.clone(),
        quantity: item.quantity,
        unit_amount: item.unit_amount,
        name,
    }
}

/// The discount an order recorded; zero where it recorded none.
pub fn discount_recorded(order: &Order) -> (d: i64)
    ensures
        d == recorded_discount(order@.content),
{
    match &order.content {
        OrderContent::Cart(snapshot) => match &snapshot.discount {
            Some(d) => d.discount_cents,
            None => 0,
        },
        OrderContent::Gift(_) => 0,
    }
}

/// The order with the id `id`, as the confirmation page shows it. `None`
/// says that there is no such order.
pub fn order_details(store: &Store, id: &str, products: &Vec<Product>) -> (r: Option<OrderDetails>)
    ensures
        opt_details_view(r) == details_spec(store@, id@, rows_view(products@)),
{
    let order: Order = match store.find_order(id) {
        Some(o) => o,
        None => {
            return None;
        },
    };
    let ghost rows = store@.order_items;
    let ghost catalog = rows_view(products@);
    let ghost of_order = |item: OrderItemRecordView| item.order_id == order@.id;
    let ghost show = |item: OrderItemRecordView| shown_item(item, catalog);
    let mut items: Vec<OrderItem> = Vec::new();
    let mut i: usize = 0;
    proof {
        reveal(Seq::filter);
        assert(rows.take(0) =~= Seq::<OrderItemRecordView>::empty());
        assert(rows_view(items@) =~= rows.take(0).filter(of_order).map_values(show));
    }
    while i < store.order_items.len()
        invariant
            i <= store.order_items.len(),
            rows == store@.order_items,
            catalog == rows_view(products@),
            of_order == (|item: OrderItemRecordView| item.order_id == order@.id),
            show == (|item: OrderItemRecordView| shown_item(item, catalog)),
            rows_view(items@) == rows.take(i as int).filter(of_order).map_values(show),
        decreases store.order_items.len() - i,
    {
        let ghost before = rows.take(i as int).filter(of_order);
        proof {
            assert(rows.take(i + 1) =~= rows.take(i as int).push(rows[i as int]));
            rows.take(i as int).lemma_filter_push(rows[i as int], of_order);
        }
        if same_text(store.order_items[i].order_id.as_str(), order.id.as_str()) {
            let shown: OrderItem = show_item(&store.order_items[i], products);
            proof {
                assert(before.push(rows[i as int]).map_values(show) =~= before.map_values(
                    show,
                ).push(show(rows[i as int])));
                assert(rows_view(items@.push(shown)) =~= rows_view(items@).push(shown@));
            }
            items.push(shown);
        }
        i += 1;
    }
    proof {
        assert(rows.take(store.order_items.len() as int) =~= rows);
    }
    let discount_cents: i64 = discount_recorded(&order);
    Some(
        OrderDetails {
            id: order.id,
            email: order.email,
            total_cents: order.total_cents,
            coupon_code: order.coupon_code,
            discount_cents,
            items,
            created_at: order.created_at,
        },
    )
}

/// The amounts a receipt shows: what the cart came to, what the discount
/// took off, and what was charged.
#[derive(Clone, Copy, Debug, PartialEq, Eq, Structural)]
pub struct ReceiptAmounts {
    pub subtotal_cents: i64,
    pub discount_cents: i64,
    pub total_cents: i64,
}

/// Whether a receipt is due for an order: it has an address to go to, and
/// its cart can be summed.
pub open spec fn receipt_due(order: OrderView) -> bool {
    &&& order.email.len() > 0
    &&& order.content is Cart
    &&& cart_is_valid(order.content->Cart_0.cart)
    &&& cart_sum(order.content->Cart_0.cart) <= i64::MAX
}

/// The amounts of the receipt of an order, where one is due. The discount
/// shown is the difference between the cart's subtotal and what was charged,
/// never less than zero.
pub fn receipt_amounts(order: &Order) -> (r: Option<ReceiptAmounts>)
    ensures
        r is Some <==> receipt_due(order@) && cart_sum(order@.content->Cart_0.cart)
            - order.total_cents <= i64::MAX,
        r matches Some(amounts) ==> {
            &&& amounts.subtotal_cents == cart_sum(order@.content->Cart_0.cart)
            &&& amounts.discount_cents == order_total(
                amounts.subtotal_cents as int,
                order.total_cents as int,
            )
            &&& amounts.total_cents == order.total_cents
        },
{
    if order.email.as_str().is_empty() {
        return None;
    }
    let subtotal_cents: i64 = match &order.content {
        OrderContent::Cart(snapshot) => match subtotal(&snapshot.cart) {
            Ok(s) => s,
            Err(_) => {
                return None;
            },
        },
        OrderContent::Gift(_) => {
            return None;
        },
    };
    if subtotal_cents as i128 - order.total_cents as i128 > i64::MAX as i128 {
        return None;
    }
    let discount_cents: i64 = total(subtotal_cents, order.total_cents);
    Some(ReceiptAmounts { subtotal_cents, discount_cents, total_cents: order.total_cents })
}

} // verus!
