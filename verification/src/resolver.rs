//! The discount resolver: which discount source a code names, and what it
//! takes off a cart.
//!
//! A code is tried as a gift code first, without regard to ASCII letter case,
//! and then, in upper case, as a coupon. A source that is found but spent
//! counts as not found.

use crate::discount::{
    Coupon, CouponView, DiscountKind, DiscountSource, DiscountSourceView, GiftCode,
    GiftCodeView,
};
use crate::store::{Store, StoreView};
use crate::table::{lookup, opt_view};
use crate::text::{clone_opt, opt_text, to_upper, trim, trimmed, uppercase};
use vstd::prelude::*;

verus! {

/// What a code is worth on a cart.
#[derive(Debug)]
pub struct DiscountResult {
    /// Whether a discount applies.
    pub applies: bool,
    /// Where the discount comes from, when one applies.
    pub source: Option<DiscountKind>,
    /// How much is taken off; zero when none applies.
    pub discount_cents: i64,
    /// The code under which the source is stored, when one applies.
    pub canonical_code: Option<String>,
}

/// The mathematical content of a `DiscountResult`.
pub ghost struct DiscountResultView {
    pub applies: bool,
    pub source: Option<DiscountKind>,
    pub discount_cents: int,
    pub canonical_code: Option<Seq<char>>,
}

impl View for DiscountResult {
    type V = DiscountResultView;

    open spec fn view(&self) -> DiscountResultView {
        DiscountResultView {
            applies: self.applies,
            source: self.source,
            discount_cents: self.discount_cents as int,
            canonical_code: opt_text(self.canonical_code),
        }
    }
}

impl Clone for DiscountResult {
    fn clone(&self) -> (r: Self)
        ensures
            r == *self,
    {
        DiscountResult {
            applies: self.applies,
            source: self.source,
            discount_cents: self.discount_cents,
            canonical_code: clone_opt(&self.canonical_code),
        }
    }
}

/// The result that says no discount applies.
pub open spec fn no_discount() -> DiscountResultView {
    DiscountResultView { applies: false, source: None, discount_cents: 0, canonical_code: None }
}

/// The result that says `amount` is taken off by the source stored under
/// `code`.
pub open spec fn discount_of(source: DiscountKind, amount: int, code: Seq<char>)
    -> DiscountResultView {
    DiscountResultView {
        applies: true,
        source: Some(source),
        discount_cents: amount,
        canonical_code: Some(code),
    }
}

/// The source that the rows found for a code stand for: the gift code if it
/// still carries value, else the coupon if it can be applied, else none.
pub open spec fn source_of(gift: Option<GiftCodeView>, coupon: Option<CouponView>) -> Option<
    DiscountSourceView,
> {
    if gift is Some && gift->0.is_live() {
        Some(DiscountSourceView::GiftCode(gift->0))
    } else if coupon is Some && coupon->0.is_live() {
        Some(DiscountSourceView::Coupon(coupon->0))
    } else {
        None
    }
}

/// The source that `code` names, given the tables, where `upper` is the code
/// in upper case. An empty code names none.
pub open spec fn source_spec(store: StoreView, code: Seq<char>, upper: Seq<char>) -> Option<
    DiscountSourceView,
> {
    if code.len() == 0 {
        None
    } else {
        source_of(
            lookup::<GiftCode>(store.gift_codes, code),
            lookup::<Coupon>(store.coupons, upper),
        )
    }
}

/// What a source is worth on a cart of `subtotal`.
pub open spec fn worth(source: Option<DiscountSourceView>, subtotal: int) -> DiscountResultView {
    match source {
        Some(s) => discount_of(s.kind(), s.discount_for(subtotal), s.code()),
        None => no_discount(),
    }
}

/// What the rows found for a code are worth on a cart of `subtotal`: the
/// gift code if it still carries value, else the coupon if it can be applied,
/// else nothing.
pub open spec fn resolve(gift: Option<GiftCodeView>, coupon: Option<CouponView>, subtotal: int)
    -> DiscountResultView {
    worth(source_of(gift, coupon), subtotal)
}

/// What `code` is worth on a cart of `subtotal`, given the tables, where
/// `upper` is the code in upper case. An empty code is worth nothing.
pub open spec fn evaluate_spec(store: StoreView, code: Seq<char>, upper: Seq<char>, subtotal: int)
    -> DiscountResultView {
    worth(source_spec(store, code, upper), subtotal)
}

/// The result that says no discount applies.
pub fn not_applicable() -> (r: DiscountResult)
    ensures
        r@ == no_discount(),
{
    DiscountResult { applies: false, source: None, discount_cents: 0, canonical_code: None }
}

/// The source that the rows found for a code stand for.
///
/// `gift` is the gift code found for the code, `coupon` the coupon found for
/// the code in upper case.
pub fn select_source(gift: Option<GiftCode>, coupon: Option<Coupon>) -> (source: Option<
    DiscountSource,
>)
    ensures
        opt_view(source) == source_of(opt_view(gift), opt_view(coupon)),
{
    match gift {
        Some(g) => {
            if g.is_live() {
                return Some(DiscountSource::GiftCode(g));
            }
        },
        None => {},
    }
    match coupon {
        Some(c) => {
            if c.is_live() {
                return Some(DiscountSource::Coupon(c));
            }
        },
        None => {},
    }
    None
}

/// What a source is worth on a cart of `subtotal_cents`.
pub fn discount_from(source: &Option<DiscountSource>, subtotal_cents: i64) -> (r: DiscountResult)
    requires
        subtotal_cents >= 0,
    ensures
        r@ == worth(opt_view(*source), subtotal_cents as int),
        (source matches Some(s) ==> s@.is_live()) ==> r.discount_cents >= 0,
{
    match source {
        Some(s) => DiscountResult {
            applies: true,
            source: Some(s.kind()),
            discount_cents: s.discount_for(subtotal_cents),
            canonical_code: Some(s.code()),
        },
        None => not_applicable(),
    }
}

/// What the rows found for a code are worth on a cart of `subtotal_cents`.
///
/// `gift` is the gift code found for the code, `coupon` the coupon found for
/// the code in upper case.
pub fn resolve_discount(gift: Option<GiftCode>, coupon: Option<Coupon>, subtotal_cents: i64) -> (r:
    DiscountResult)
    requires
        subtotal_cents >= 0,
    ensures
        r@ == resolve(opt_view(gift), opt_view(coupon), subtotal_cents as int),
        r.discount_cents >= 0,
{
    let source: Option<DiscountSource> = select_source(gift, coupon);
    discount_from(&source, subtotal_cents)
}

/// The source that `code` names, where `code_upper` is the code in upper
/// case: one ordered lookup, first among the gift codes, then among the
/// coupons.
pub fn lookup_source(store: &Store, code: &str, code_upper: &str) -> (source: Option<
    DiscountSource,
>)
    ensures
        opt_view(source) == source_spec(store@, code@, code_upper@),
{
    if code.is_empty() {
        return None;
    }
    let gift: Option<GiftCode> = store.find_gift_code(code);
    let coupon: Option<Coupon> = store.find_coupon(code_upper);
    select_source(gift, coupon)
}

/// What `code` is worth on a cart of `subtotal_cents`, where `code_upper` is
/// the code in upper case.
pub fn evaluate_canonical(store: &Store, code: &str, code_upper: &str, subtotal_cents: i64) -> (r:
    DiscountResult)
    requires
        subtotal_cents >= 0,
    ensures
        r@ == evaluate_spec(store@, code@, code_upper@, subtotal_cents as int),
        r.discount_cents >= 0,
{
    let source: Option<DiscountSource> = lookup_source(store, code, code_upper);
    discount_from(&source, subtotal_cents)
}

/// What the code `raw_code` is worth on a cart of `subtotal_cents`.
///
/// The code is trimmed first; an empty or blank code is worth nothing, which
/// is no error. The tables are not changed.
pub fn evaluate(store: &Store, raw_code: &str, subtotal_cents: i64) -> (r: DiscountResult)
    requires
        subtotal_cents >= 0,
    ensures
        r@ == evaluate_spec(
            store@,
            trimmed(raw_code@),
            uppercase(trimmed(raw_code@)),
            subtotal_cents as int,
        ),
        r.discount_cents >= 0,
{
    let code: String = trim(raw_code);
    let upper: String = to_upper(code.as_str());
    evaluate_canonical(store, code.as_str(), upper.as_str(), subtotal_cents)
}

} // verus!
