//! Cart lines, the cart subtotal, and the snapshot of a cart that travels
//! with a pending order.

use crate::discount::DiscountKind;
use vstd::prelude::*;

verus! {

/// One line of a cart. `unit_amount` is the price of one unit at the time the
/// cart was submitted.
#[derive(Debug)]
pub struct CartItem {
    pub product_id: String,
    pub name: String,
    pub unit_amount: i64,
    pub quantity: i64,
    pub currency: String,
}

/// The mathematical content of a `CartItem`.
pub ghost struct CartItemView {
    pub product_id: Seq<char>,
    pub name: Seq<char>,
    pub unit_amount: int,
    pub quantity: int,
    pub currency: Seq<char>,
}

impl View for CartItem {
    type V = CartItemView;

    open spec fn view(&self) -> CartItemView {
        CartItemView {
            product_id: self.product_id@,
            name: self.name@,
            unit_amount: self.unit_amount as int,
            quantity: self.quantity as int,
            currency: self.currency@,
        }
    }
}

impl Clone for CartItem {
    fn clone(&self) -> (r: Self)
        ensures
            r == *self,
    {
        CartItem {
            product_id: self.product_id.clone(),
            name: self.name.clone(),
            unit_amount: self.unit_amount,
            quantity: self.quantity,
            currency: self.currency.clone(),
        }
    }
}

impl CartItemView {
    /// A line is acceptable when neither its price nor its quantity is
    /// negative.
    pub open spec fn is_valid(self) -> bool {
        self.unit_amount >= 0 && self.quantity >= 0
    }

    /// Price times quantity.
    pub open spec fn line_total(self) -> int {
        self.unit_amount * self.quantity
    }
}

/// The views of the lines of a cart.
pub open spec fn cart_view(cart: Seq<CartItem>) -> Seq<CartItemView> {
    cart.map_values(|item: CartItem| item@)
}

/// Whether every line of the cart is acceptable.
pub open spec fn cart_is_valid(cart: Seq<CartItemView>) -> bool {
    forall|i: int| 0 <= i < cart.len() ==> (#[trigger] cart[i]).is_valid()
}

/// The sum of the line totals of a cart.
pub open spec fn cart_sum(cart: Seq<CartItemView>) -> int
    decreases cart.len(),
{
    if cart.len() == 0 {
        0
    } else {
        cart_sum(cart.drop_last()) + cart.last().line_total()
    }
}

/// Why a cart, or an amount, is rejected.
#[derive(Clone, Copy, Debug, PartialEq, Eq, Structural)]
pub enum ValidationError {
    /// A cart line has a negative price or a negative quantity.
    NegativeCartValue,
    /// The amount does not fit the amount type.
    AmountTooLarge,
    /// A gift purchase for a negative amount.
    NegativeGiftAmount,
}

/// The sum of a valid cart is not negative and grows with every line.
pub proof fn lemma_cart_sum_monotonic(cart: Seq<CartItemView>, n: int)
    requires
        cart_is_valid(cart),
        0 <= n <= cart.len(),
    ensures
        0 <= cart_sum(cart.take(n)) <= cart_sum(cart),
    decreases cart.len() - n,
{
    lemma_cart_sum_nonnegative(cart.take(n));
    if n < cart.len() {
        lemma_cart_sum_monotonic(cart, n + 1);
        let next = cart.take(n + 1);
        assert(next.drop_last() =~= cart.take(n));
        assert(next.last() == cart[n]);
        assert(cart[n].is_valid());
        assert(cart[n].unit_amount * cart[n].quantity >= 0) by (nonlinear_arith)
            requires
                cart[n].unit_amount >= 0,
                cart[n].quantity >= 0,
        ;
    } else {
        assert(cart.take(n) =~= cart);
    }
}

/// The sum of a valid cart is not negative.
pub proof fn lemma_cart_sum_nonnegative(cart: Seq<CartItemView>)
    requires
        cart_is_valid(cart),
    ensures
        0 <= cart_sum(cart),
    decreases cart.len(),
{
    if cart.len() > 0 {
        let rest = cart.drop_last();
        assert forall|i: int| 0 <= i < rest.len() implies (#[trigger] rest[i]).is_valid() by {
            assert(rest[i] == cart[i]);
        }
        lemma_cart_sum_nonnegative(rest);
        let last = cart.last();
        assert(last.is_valid());
        assert(last.unit_amount * last.quantity >= 0) by (nonlinear_arith)
            requires
                last.unit_amount >= 0,
                last.quantity >= 0,
        ;
    }
}

/// Price times quantity of one line, or `None` where that does not fit the
/// amount type.
pub fn line_total(line: &CartItem) -> (r: Option<i64>)
    ensures
        r is Some <==> i64::MIN <= line@.line_total() <= i64::MAX,
        r matches Some(t) ==> t == line@.line_total(),
{
    line.unit_amount.checked_mul(line.quantity)
}

/// Whether every line of the cart is acceptable.
pub fn cart_valid(cart: &Vec<CartItem>) -> (ok: bool)
    ensures
        ok == cart_is_valid(cart_view(cart@)),
{
    let mut i: usize = 0;
    while i < cart.len()
        invariant
            i <= cart.len(),
            forall|j: int| 0 <= j < i ==> (#[trigger] cart_view(cart@)[j]).is_valid(),
        decreases cart.len() - i,
    {
        if cart[i].unit_amount < 0 || cart[i].quantity < 0 {
            assert(!cart_view(cart@)[i as int].is_valid());
            return false;
        }
        i += 1;
    }
    true
}

/// The subtotal of a cart: the sum over its lines of price times quantity.
///
/// A cart with a negative price or quantity is rejected, and so is one whose
/// subtotal does not fit the amount type.
pub fn subtotal(cart: &Vec<CartItem>) -> (r: Result<i64, ValidationError>)
    ensures
        match r {
            Ok(s) => cart_is_valid(cart_view(cart@)) && s == cart_sum(cart_view(cart@)) && s
                >= 0,
            Err(ValidationError::NegativeCartValue) => !cart_is_valid(cart_view(cart@)),
            Err(ValidationError::AmountTooLarge) => cart_is_valid(cart_view(cart@)) && cart_sum(
                cart_view(cart@),
            ) > i64::MAX,
            Err(ValidationError::NegativeGiftAmount) => false,
        },
{
    if !cart_valid(cart) {
        return Err(ValidationError::NegativeCartValue);
    }
    let ghost lines = cart_view(cart@);
    let mut sum: i64 = 0;
    let mut i: usize = 0;
    proof {
        assert(lines.take(0) =~= Seq::<CartItemView>::empty());
    }
    while i < cart.len()
        invariant
            i <= cart.len(),
            lines == cart_view(cart@),
            cart_is_valid(lines),
            sum == cart_sum(lines.take(i as int)),
            sum >= 0,
        decreases cart.len() - i,
    {
        let unit: i128 = cart[i].unit_amount as i128;
        let quantity: i128 = cart[i].quantity as i128;
        proof {
            assert(lines[i as int].is_valid());
            assert(0 <= unit * quantity <= 0x7fff_ffff_ffff_ffff * 0x7fff_ffff_ffff_ffff)
                by (nonlinear_arith)
                requires
                    0 <= unit <= 0x7fff_ffff_ffff_ffff,
                    0 <= quantity <= 0x7fff_ffff_ffff_ffff,
            ;
            let next = lines.take(i + 1);
            assert(next.drop_last() =~= lines.take(i as int));
            assert(next.last() == lines[i as int]);
            lemma_cart_sum_monotonic(lines, i + 1);
        }
        let next_sum: i128 = sum as i128 + unit * quantity;
        if next_sum > i64::MAX as i128 {
            return Err(ValidationError::AmountTooLarge);
        }
        sum = next_sum as i64;
        i += 1;
    }
    proof {
        assert(lines.take(cart.len() as int) =~= lines);
    }
    Ok(sum)
}

/// The discount that was applied when a cart was checked out: where it came
/// from, under which code, and how much it took off. A record that does not
/// say where the discount came from has no `source`; the source is then
/// looked up when the discount is settled.
#[derive(Debug)]
pub struct AppliedDiscount {
    pub source: Option<DiscountKind>,
    pub code: String,
    pub discount_cents: i64,
}

/// The mathematical content of an `AppliedDiscount`.
pub ghost struct AppliedDiscountView {
    pub source: Option<DiscountKind>,
    pub code: Seq<char>,
    pub discount_cents: int,
}

impl View for AppliedDiscount {
    type V = AppliedDiscountView;

    open spec fn view(&self) -> AppliedDiscountView {
        AppliedDiscountView {
            source: self.source,
            code: self.code@,
            discount_cents: self.discount_cents as int,
        }
    }
}

impl Clone for AppliedDiscount {
    fn clone(&self) -> (r: Self)
        ensures
            r == *self,
    {
        AppliedDiscount {
            source: self.source,
            code: self.code.clone(),
            discount_cents: self.discount_cents,
        }
    }
}

/// The view of an optional applied discount.
pub open spec fn opt_discount_view(d: Option<AppliedDiscount>) -> Option<AppliedDiscountView> {
    match d {
        Some(a) => Some(a@),
        None => None,
    }
}

/// What a pending order remembers of the checkout: the cart lines as they
/// were priced, and the discount that was applied.
#[derive(Debug)]
pub struct OrderSnapshot {
    pub cart: Vec<CartItem>,
    pub discount: Option<AppliedDiscount>,
}

/// The mathematical content of an `OrderSnapshot`.
pub ghost struct OrderSnapshotView {
    pub cart: Seq<CartItemView>,
    pub discount: Option<AppliedDiscountView>,
}

impl View for OrderSnapshot {
    type V = OrderSnapshotView;

    open spec fn view(&self) -> OrderSnapshotView {
        OrderSnapshotView { cart: cart_view(self.cart@), discount: opt_discount_view(self.discount) }
    }
}

/// A copy of the cart, line for line.
pub fn clone_cart(cart: &Vec<CartItem>) -> (r: Vec<CartItem>)
    ensures
        r@ == cart@,
{
    let mut r: Vec<CartItem> = Vec::new();
    let mut i: usize = 0;
    while i < cart.len()
        invariant
            i <= cart.len(),
            r@ == cart@.take(i as int),
        decreases cart.len() - i,
    {
        r.push(cart[i].clone());
        i += 1;
    }
    r
}

/// A copy of an optional applied discount.
pub fn clone_discount(d: &Option<AppliedDiscount>) -> (r: Option<AppliedDiscount>)
    ensures
        r == *d,
{
    match d {
        Some(a) => Some(a.clone()),
        None => None,
    }
}

impl Clone for OrderSnapshot {
    fn clone(&self) -> (r: Self)
        ensures
            r@ == self@,
            r.cart@ == self.cart@,
            r.discount == self.discount,
    {
        OrderSnapshot { cart: clone_cart(&self.cart), discount: clone_discount(&self.discount) }
    }
}

} // verus!
