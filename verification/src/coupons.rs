//! Code validation for the cart page and for scanned codes. Neither changes
//! the tables.

use crate::cart::{cart_is_valid, cart_sum, cart_view, subtotal, CartItem, ValidationError};
use crate::discount::{
    opt_int, Coupon, CouponView, DiscountSource, DiscountSourceView, GiftCode,
};
use crate::resolver::{lookup_source, source_spec};
use crate::store::{Store, StoreView};
use crate::table::lookup;
use crate::text::{lowercase, to_lower, to_upper, trim, trimmed, uppercase};
use vstd::prelude::*;

verus! {

/// A code to validate, with the cart it would be applied to.
#[derive(Debug)]
pub struct ApplyCouponRequest {
    pub code: String,
    pub cart: Option<Vec<CartItem>>,
}

/// Whether the code is valid, and what it grants.
#[derive(Clone, Copy, Debug, PartialEq, Eq, Structural)]
pub struct ApplyCouponResponse {
    pub valid: bool,
    pub amount_off: Option<i64>,
    pub percent_off: Option<i64>,
}

/// The mathematical content of an `ApplyCouponResponse`.
pub ghost struct ApplyCouponResponseView {
    pub valid: bool,
    pub amount_off: Option<int>,
    pub percent_off: Option<int>,
}

impl View for ApplyCouponResponse {
    type V = ApplyCouponResponseView;

    open spec fn view(&self) -> ApplyCouponResponseView {
        ApplyCouponResponseView {
            valid: self.valid,
            amount_off: opt_int(self.amount_off),
            percent_off: opt_int(self.percent_off),
        }
    }
}

/// A scanned code to validate.
#[derive(Debug)]
pub struct ValidateQRRequest {
    pub code: String,
}

/// What a scanned code stands for.
#[derive(Debug)]
pub struct ValidateQRResponse {
    pub id: String,
    pub code: String,
    pub balance: i64,
    pub customer_email: String,
}

/// The mathematical content of a `ValidateQRResponse`.
pub ghost struct ValidateQRResponseView {
    pub id: Seq<char>,
    pub code: Seq<char>,
    pub balance: int,
    pub customer_email: Seq<char>,
}

impl View for ValidateQRResponse {
    type V = ValidateQRResponseView;

    open spec fn view(&self) -> ValidateQRResponseView {
        ValidateQRResponseView {
            id: self.id@,
            code: self.code@,
            balance: self.balance as int,
            customer_email: self.customer_email@,
        }
    }
}

/// The subtotal of an optional cart; no cart counts as an empty one.
pub open spec fn optional_cart_sum(cart: Option<Vec<CartItem>>) -> int {
    match cart {
        Some(lines) => cart_sum(cart_view(lines@)),
        None => 0,
    }
}

/// Whether an optional cart is acceptable; no cart counts as an empty one.
pub open spec fn optional_cart_valid(cart: Option<Vec<CartItem>>) -> bool {
    match cart {
        Some(lines) => cart_is_valid(cart_view(lines@)),
        None => true,
    }
}

/// The answer that says the code is not valid.
pub open spec fn invalid_code() -> ApplyCouponResponseView {
    ApplyCouponResponseView { valid: false, amount_off: None, percent_off: None }
}

/// What the cart page is told about `code` for a cart of `subtotal`, where
/// `upper` is the code in upper case: the code is valid exactly when it
/// names a source that can be applied. A gift code grants the amount it would
/// take off; a coupon shows the amount and the percentage it is stored with.
pub open spec fn apply_spec(store: StoreView, code: Seq<char>, upper: Seq<char>, subtotal: int)
    -> ApplyCouponResponseView {
    match source_spec(store, code, upper) {
        None => invalid_code(),
        Some(DiscountSourceView::GiftCode(gift)) => ApplyCouponResponseView {
            valid: true,
            amount_off: Some(gift.discount_for(subtotal)),
            percent_off: None,
        },
        Some(DiscountSourceView::Coupon(coupon)) => ApplyCouponResponseView {
            valid: true,
            amount_off: coupon.amount_off,
            percent_off: coupon.percent_off,
        },
    }
}

/// What the cart page is told about `code` for a cart of `subtotal_cents`,
/// where `code_upper` is the code in upper case.
pub fn apply_canonical(store: &Store, code: &str, code_upper: &str, subtotal_cents: i64) -> (r:
    ApplyCouponResponse)
    requires
        subtotal_cents >= 0,
    ensures
        r@ == apply_spec(store@, code@, code_upper@, subtotal_cents as int),
{
    match lookup_source(store, code, code_upper) {
        None => ApplyCouponResponse { valid: false, amount_off: None, percent_off: None },
        Some(DiscountSource::GiftCode(gift)) => ApplyCouponResponse {
            valid: true,
            amount_off: Some(gift.discount_for(subtotal_cents)),
            percent_off: None,
        },
        Some(DiscountSource::Coupon(coupon)) => ApplyCouponResponse {
            valid: true,
            amount_off: coupon.amount_off,
            percent_off: coupon.percent_off,
        },
    }
}

/// Validates a code for the cart page, with the same resolution as a
/// checkout, and without changing the tables.
///
/// The cart is priced first; a cart with a negative price or quantity, or
/// with a subtotal that does not fit, is rejected.
pub fn apply(store: &Store, request: &ApplyCouponRequest) -> (r: Result<
    ApplyCouponResponse,
    ValidationError,
>)
    ensures
        match r {
            Ok(response) => {
                &&& optional_cart_valid(request.cart)
                &&& optional_cart_sum(request.cart) <= i64::MAX
                &&& response@ == apply_spec(
                    store@,
                    trimmed(request.code@),
                    uppercase(trimmed(request.code@)),
                    optional_cart_sum(request.cart),
                )
            },
            Err(ValidationError::NegativeCartValue) => !optional_cart_valid(request.cart),
            Err(ValidationError::AmountTooLarge) => optional_cart_valid(request.cart)
                && optional_cart_sum(request.cart) > i64::MAX,
            Err(ValidationError::NegativeGiftAmount) => false,
        },
{
    let subtotal_cents: i64 = match &request.cart {
        Some(lines) => match subtotal(lines) {
            Ok(s) => s,
            Err(e) => {
                return Err(e);
            },
        },
        None => 0,
    };
    let code: String = trim(request.code.as_str());
    let upper: String = to_upper(code.as_str());
    Ok(apply_canonical(store, code.as_str(), upper.as_str(), subtotal_cents))
}

/// The larger of the amount and the percentage a coupon is stored with, an
/// unset one counting as zero.
pub open spec fn coupon_face_value(coupon: CouponView) -> int {
    let amount = match coupon.amount_off {
        Some(a) => a,
        None => 0,
    };
    let percent = match coupon.percent_off {
        Some(p) => p,
        None => 0,
    };
    if amount >= percent {
        amount
    } else {
        percent
    }
}

/// The contact shown for a coupon, which has no purchaser.
pub open spec fn coupon_contact() -> Seq<char> {
    "manager@restaurant.local"@
}

/// What the scanned `code` stands for, where `upper` is the code in upper
/// case: a gift code that still carries value, else a coupon with uses left,
/// else nothing.
pub open spec fn qr_spec(store: StoreView, code: Seq<char>, upper: Seq<char>) -> Option<
    ValidateQRResponseView,
> {
    let gift = lookup::<GiftCode>(store.gift_codes, code);
    let coupon = lookup::<Coupon>(store.coupons, upper);
    if gift is Some && gift->0.is_live() {
        Some(
            ValidateQRResponseView {
                id: gift->0.id,
                code: gift->0.code,
                balance: gift->0.remaining_balance,
                customer_email: gift->0.purchaser_email,
            },
        )
    } else if coupon is Some && coupon->0.remaining_uses > 0 {
        Some(
            ValidateQRResponseView {
                id: coupon->0.id,
                code: coupon->0.code,
                balance: coupon_face_value(coupon->0),
                customer_email: coupon_contact(),
            },
        )
    } else {
        None
    }
}

/// The view of an optional scan answer.
pub open spec fn opt_qr_view(r: Option<ValidateQRResponse>) -> Option<ValidateQRResponseView> {
    match r {
        Some(v) => Some(v@),
        None => None,
    }
}

/// The larger of the amount and the percentage a coupon is stored with.
pub fn face_value(coupon: &Coupon) -> (v: i64)
    ensures
        v == coupon_face_value(coupon@),
{
    let amount: i64 = match coupon.amount_off {
        Some(a) => a,
        None => 0,
    };
    let percent: i64 = match coupon.percent_off {
        Some(p) => p,
        None => 0,
    };
    if amount >= percent {
        amount
    } else {
        percent
    }
}

/// What the scanned `code` stands for, where `code_upper` is the code in
/// upper case. `None` says that the code is not known or is spent.
pub fn validate_qr_canonical(store: &Store, code: &str, code_upper: &str) -> (r: Option<
    ValidateQRResponse,
>)
    ensures
        opt_qr_view(r) == qr_spec(store@, code@, code_upper@),
{
    match store.find_gift_code(code) {
        Some(gift) => {
            if gift.is_live() {
                return Some(
                    ValidateQRResponse {
                        id: gift.id,
                        code: gift.code,
                        balance: gift.remaining_balance,
                        customer_email: gift.purchaser_email,
                    },
                );
            }
        },
        None => {},
    }
    match store.find_coupon(code_upper) {
        Some(coupon) => {
            if coupon.remaining_uses > 0 {
                let balance: i64 = face_value(&coupon);
                return Some(
                    ValidateQRResponse {
                        id: coupon.id,
                        code: coupon.code,
                        balance,
                        customer_email: "manager@restaurant.local".to_owned(),
                    },
                );
            }
        },
        None => {},
    }
    None
}

/// What a scanned code stands for. The code is trimmed; it is tried as a
/// gift code as it stands, and as a coupon in upper case.
pub fn validate_qr(store: &Store, request: &ValidateQRRequest) -> (r: Option<ValidateQRResponse>)
    ensures
        opt_qr_view(r) == qr_spec(
            store@,
            trimmed(request.code@),
            uppercase(lowercase(trimmed(request.code@))),
        ),
{
    let code: String = trim(request.code.as_str());
    let lower: String = to_lower(code.as_str());
    let upper: String = to_upper(lower.as_str());
    validate_qr_canonical(store, code.as_str(), upper.as_str())
}

} // verus!
