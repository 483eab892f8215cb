//! Discount sources and the rules that turn one into a discount: coupons
//! (a fixed amount or a percentage, with a use count) and gift codes (a
//! stored balance).

use crate::money::{min_amount, percent_discount, percent_of_capped};
use crate::text::{to_upper, trim, trimmed, uppercase};
use vstd::prelude::*;

verus! {

/// Which kind of source a discount comes from.
#[derive(Clone, Copy, Debug, PartialEq, Eq, Structural)]
pub enum DiscountKind {
    GiftCode,
    Coupon,
}

/// A stored-value code. Its balance only ever goes down.
#[derive(Debug)]
pub struct GiftCode {
    pub id: String,
    pub code: String,
    pub remaining_balance: i64,
    pub purchaser_email: String,
    pub created_at: i64,
}

/// The mathematical content of a `GiftCode`.
pub ghost struct GiftCodeView {
    pub id: Seq<char>,
    pub code: Seq<char>,
    pub remaining_balance: int,
    pub purchaser_email: Seq<char>,
    pub created_at: int,
}

impl View for GiftCode {
    type V = GiftCodeView;

    open spec fn view(&self) -> GiftCodeView {
        GiftCodeView {
            id: self.id@,
            code: self.code@,
            remaining_balance: self.remaining_balance as int,
            purchaser_email: self.purchaser_email@,
            created_at: self.created_at as int,
        }
    }
}

impl GiftCodeView {
    /// A gift code is valid when its balance is not negative.
    pub open spec fn wf(self) -> bool {
        self.remaining_balance >= 0
    }

    /// Whether the code still carries value.
    pub open spec fn is_live(self) -> bool {
        self.remaining_balance > 0
    }

    /// What the code takes off a cart of `subtotal`: its balance, capped at
    /// the subtotal.
    pub open spec fn discount_for(self, subtotal: int) -> int {
        min_amount(self.remaining_balance, subtotal)
    }

    /// The balance left after `amount` is redeemed, floored at zero.
    pub open spec fn balance_after(self, amount: int) -> int {
        redeemed_balance(self.remaining_balance, amount)
    }

    /// The code after `amount` is redeemed.
    pub open spec fn redeemed(self, amount: int) -> GiftCodeView {
        GiftCodeView { remaining_balance: self.balance_after(amount), ..self }
    }
}

/// `max(balance - amount, 0)`, kept within the amount type.
pub open spec fn redeemed_balance(balance: int, amount: int) -> int {
    if balance - amount < 0 {
        0
    } else if balance - amount > i64::MAX {
        i64::MAX as int
    } else {
        balance - amount
    }
}

/// `max(uses - 1, 0)`.
pub open spec fn uses_after(uses: int) -> int {
    if uses - 1 < 0 {
        0
    } else {
        uses - 1
    }
}

impl Clone for GiftCode {
    fn clone(&self) -> (r: Self)
        ensures
            r == *self,
    {
        GiftCode {
            id: self.id.clone(),
            code: self.code.clone(),
            remaining_balance: self.remaining_balance,
            purchaser_email: self.purchaser_email.clone(),
            created_at: self.created_at,
        }
    }
}

impl GiftCode {
    /// Whether the code still carries value.
    pub fn is_live(&self) -> (live: bool)
        ensures
            live == self@.is_live(),
    {
        self.remaining_balance > 0
    }

    /// What the code takes off a cart of `subtotal_cents`.
    pub fn discount_for(&self, subtotal_cents: i64) -> (d: i64)
        ensures
            d == self@.discount_for(subtotal_cents as int),
    {
        if self.remaining_balance <= subtotal_cents {
            self.remaining_balance
        } else {
            subtotal_cents
        }
    }

    /// Takes `amount_cents` off the balance, never going below zero.
    pub fn redeem(&mut self, amount_cents: i64)
        ensures
            final(self)@ == old(self)@.redeemed(amount_cents as int),
            old(self)@.wf() ==> final(self)@.wf(),
            amount_cents >= 0 ==> final(self).remaining_balance <= old(self).remaining_balance
                || old(self).remaining_balance < 0,
    {
        let left: i128 = self.remaining_balance as i128 - amount_cents as i128;
        if left < 0 {
            self.remaining_balance = 0;
        } else if left > i64::MAX as i128 {
            self.remaining_balance = i64::MAX;
        } else {
            self.remaining_balance = left as i64;
        }
    }
}

/// A coupon: a fixed amount or a percentage off, a limited number of times.
#[derive(Debug)]
pub struct Coupon {
    pub id: String,
    pub code: String,
    pub percent_off: Option<i64>,
    pub amount_off: Option<i64>,
    pub remaining_uses: i64,
}

/// The mathematical content of a `Coupon`.
pub ghost struct CouponView {
    pub id: Seq<char>,
    pub code: Seq<char>,
    pub percent_off: Option<int>,
    pub amount_off: Option<int>,
    pub remaining_uses: int,
}

/// An optional amount as an optional integer.
pub open spec fn opt_int(x: Option<i64>) -> Option<int> {
    match x {
        Some(v) => Some(v as int),
        None => None,
    }
}

/// Whether an optional quantity is set to a positive value.
pub open spec fn is_positive(x: Option<int>) -> bool {
    x matches Some(v) && v > 0
}

impl View for Coupon {
    type V = CouponView;

    open spec fn view(&self) -> CouponView {
        CouponView {
            id: self.id@,
            code: self.code@,
            percent_off: opt_int(self.percent_off),
            amount_off: opt_int(self.amount_off),
            remaining_uses: self.remaining_uses as int,
        }
    }
}

/// Whether a percentage, where one is set, lies between 0 and 100.
pub open spec fn percent_in_range(percent: Option<int>) -> bool {
    percent matches Some(p) ==> 0 <= p <= 100
}

impl CouponView {
    /// A coupon is valid when its use count is not negative and its
    /// percentage, where one is set, lies between 0 and 100.
    pub open spec fn wf(self) -> bool {
        &&& self.remaining_uses >= 0
        &&& percent_in_range(self.percent_off)
    }

    /// Whether the coupon grants anything: a fixed amount or a percentage
    /// that is set and positive.
    pub open spec fn has_discount(self) -> bool {
        is_positive(self.amount_off) || is_positive(self.percent_off)
    }

    /// Whether the coupon can be applied: uses are left and it grants
    /// something.
    pub open spec fn is_live(self) -> bool {
        self.remaining_uses > 0 && self.has_discount()
    }

    /// What the coupon takes off a cart of `subtotal`: the fixed amount when
    /// one is set and positive, else the percentage of the subtotal, else
    /// nothing. Exactly one of the two kinds is used.
    pub open spec fn discount_for(self, subtotal: int) -> int {
        if is_positive(self.amount_off) {
            self.amount_off->0
        } else if is_positive(self.percent_off) {
            percent_of_capped(self.percent_off->0, subtotal)
        } else {
            0
        }
    }

    /// The coupon after one use.
    pub open spec fn used(self) -> CouponView {
        CouponView { remaining_uses: uses_after(self.remaining_uses), ..self }
    }
}

impl Clone for Coupon {
    fn clone(&self) -> (r: Self)
        ensures
            r == *self,
    {
        Coupon {
            id: self.id.clone(),
            code: self.code.clone(),
            percent_off: self.percent_off,
            amount_off: self.amount_off,
            remaining_uses: self.remaining_uses,
        }
    }
}

/// Whether an optional quantity is set to a positive value.
pub fn positive(x: Option<i64>) -> (p: bool)
    ensures
        p == is_positive(opt_int(x)),
{
    match x {
        Some(v) => v > 0,
        None => false,
    }
}

/// `max(uses, 0)`.
pub open spec fn uses_floor(uses: int) -> int {
    if uses < 0 {
        0
    } else {
        uses
    }
}

/// The canonical form of a coupon code: the code trimmed and in upper case.
pub fn canonical_code(raw_code: &str) -> (code: String)
    ensures
        code@ == uppercase(trimmed(raw_code@)),
{
    to_upper(trim(raw_code).as_str())
}

/// Whether a percentage, where one is set, lies between 0 and 100.
pub fn percent_allowed(percent: Option<i64>) -> (ok: bool)
    ensures
        ok == percent_in_range(opt_int(percent)),
{
    match percent {
        Some(p) => 0 <= p && p <= 100,
        None => true,
    }
}

impl Coupon {
    /// A valid coupon stored under exactly `code`, or `None` where the
    /// percentage is set and does not lie between 0 and 100. A negative use
    /// count counts as zero.
    pub fn with_code(
        id: String,
        code: String,
        percent_off: Option<i64>,
        amount_off: Option<i64>,
        remaining_uses: i64,
    ) -> (r: Option<Coupon>)
        ensures
            r is Some <==> percent_in_range(opt_int(percent_off)),
            r matches Some(c) ==> c@ == (CouponView {
                id: id@,
                code: code@,
                percent_off: opt_int(percent_off),
                amount_off: opt_int(amount_off),
                remaining_uses: uses_floor(remaining_uses as int),
            }) && c@.wf(),
    {
        if !percent_allowed(percent_off) {
            return None;
        }
        let uses: i64 = if remaining_uses < 0 {
            0
        } else {
            remaining_uses
        };
        Some(Coupon { id, code, percent_off, amount_off, remaining_uses: uses })
    }

    /// A valid coupon for the code `raw_code`, stored under its canonical
    /// form, or `None` where the percentage is set and does not lie between
    /// 0 and 100. A negative use count counts as zero.
    pub fn new(
        id: String,
        raw_code: &str,
        percent_off: Option<i64>,
        amount_off: Option<i64>,
        remaining_uses: i64,
    ) -> (r: Option<Coupon>)
        ensures
            r is Some <==> percent_in_range(opt_int(percent_off)),
            r matches Some(c) ==> c@ == (CouponView {
                id: id@,
                code: uppercase(trimmed(raw_code@)),
                percent_off: opt_int(percent_off),
                amount_off: opt_int(amount_off),
                remaining_uses: uses_floor(remaining_uses as int),
            }) && c@.wf(),
    {
        Coupon::with_code(id, canonical_code(raw_code), percent_off, amount_off, remaining_uses)
    }

    /// Whether the coupon can be applied.
    pub fn is_live(&self) -> (live: bool)
        ensures
            live == self@.is_live(),
    {
        self.remaining_uses > 0 && (positive(self.amount_off) || positive(self.percent_off))
    }

    /// What the coupon takes off a cart of `subtotal_cents`.
    pub fn discount_for(&self, subtotal_cents: i64) -> (d: i64)
        requires
            subtotal_cents >= 0,
        ensures
            d == self@.discount_for(subtotal_cents as int),
            d >= 0,
    {
        match self.amount_off {
            Some(amount) if amount > 0 => { return amount; },
            _ => {},
        }
        match self.percent_off {
            Some(percent) if percent > 0 => percent_discount(percent, subtotal_cents),
            _ => 0,
        }
    }

    /// Counts one use, never going below zero.
    pub fn consume(&mut self)
        ensures
            final(self)@ == old(self)@.used(),
            old(self)@.wf() ==> final(self)@.wf(),
            final(self).remaining_uses <= old(self).remaining_uses || old(self).remaining_uses
                < 0,
    {
        if self.remaining_uses >= 1 {
            self.remaining_uses = self.remaining_uses - 1;
        } else {
            self.remaining_uses = 0;
        }
    }
}

/// A source of discounts: a gift code or a coupon.
#[derive(Debug)]
pub enum DiscountSource {
    GiftCode(GiftCode),
    Coupon(Coupon),
}

/// The mathematical content of a `DiscountSource`.
pub ghost enum DiscountSourceView {
    GiftCode(GiftCodeView),
    Coupon(CouponView),
}

impl View for DiscountSource {
    type V = DiscountSourceView;

    open spec fn view(&self) -> DiscountSourceView {
        match self {
            DiscountSource::GiftCode(g) => DiscountSourceView::GiftCode(g@),
            DiscountSource::Coupon(c) => DiscountSourceView::Coupon(c@),
        }
    }
}

impl DiscountSourceView {
    /// Which kind of source this is.
    pub open spec fn kind(self) -> DiscountKind {
        match self {
            DiscountSourceView::GiftCode(_) => DiscountKind::GiftCode,
            DiscountSourceView::Coupon(_) => DiscountKind::Coupon,
        }
    }

    /// The code the source is stored under.
    pub open spec fn code(self) -> Seq<char> {
        match self {
            DiscountSourceView::GiftCode(g) => g.code,
            DiscountSourceView::Coupon(c) => c.code,
        }
    }

    /// Whether the source can be applied.
    pub open spec fn is_live(self) -> bool {
        match self {
            DiscountSourceView::GiftCode(g) => g.is_live(),
            DiscountSourceView::Coupon(c) => c.is_live(),
        }
    }

    /// What the source takes off a cart of `subtotal`.
    pub open spec fn discount_for(self, subtotal: int) -> int {
        match self {
            DiscountSourceView::GiftCode(g) => g.discount_for(subtotal),
            DiscountSourceView::Coupon(c) => c.discount_for(subtotal),
        }
    }
}

impl DiscountSource {
    /// Which kind of source this is.
    pub fn kind(&self) -> (k: DiscountKind)
        ensures
            k == self@.kind(),
    {
        match self {
            DiscountSource::GiftCode(_) => DiscountKind::GiftCode,
            DiscountSource::Coupon(_) => DiscountKind::Coupon,
        }
    }

    /// The code the source is stored under.
    pub fn code(&self) -> (code: String)
        ensures
            code@ == self@.code(),
    {
        match self {
            DiscountSource::GiftCode(g) => g.code.clone(),
            DiscountSource::Coupon(c) => c.code.clone(),
        }
    }

    /// What the source takes off a cart of `subtotal_cents`.
    pub fn discount_for(&self, subtotal_cents: i64) -> (d: i64)
        requires
            subtotal_cents >= 0,
        ensures
            d == self@.discount_for(subtotal_cents as int),
            self@.is_live() ==> d >= 0,
    {
        match self {
            DiscountSource::GiftCode(g) => g.discount_for(subtotal_cents),
            DiscountSource::Coupon(c) => c.discount_for(subtotal_cents),
        }
    }
}

} // verus!
