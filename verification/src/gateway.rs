//! What the payment provider hands back: a created order with its links, and
//! the result of a capture.

use crate::amount::{amount_text, format_amount};
use crate::table::{find_first, lemma_first_index_is};
use crate::text::{opt_text, same_text};
use vstd::prelude::*;
use vstd::string::StringExecFns;

verus! {

/// One link of a provider order: a relation name and the address it points to.
#[derive(Debug)]
pub struct PayPalOrderLink {
    pub rel: String,
    pub href: String,
}

/// The mathematical content of a `PayPalOrderLink`.
pub ghost struct PayPalOrderLinkView {
    pub rel: Seq<char>,
    pub href: Seq<char>,
}

impl View for PayPalOrderLink {
    type V = PayPalOrderLinkView;

    open spec fn view(&self) -> PayPalOrderLinkView {
        PayPalOrderLinkView { rel: self.rel@, href: self.href@ }
    }
}

/// An order as the provider created it: its id and its links.
#[derive(Debug)]
pub struct PayPalOrderResp {
    pub id: String,
    pub links: Vec<PayPalOrderLink>,
}

/// The mathematical content of a `PayPalOrderResp`.
pub ghost struct PayPalOrderRespView {
    pub id: Seq<char>,
    pub links: Seq<PayPalOrderLinkView>,
}

/// The views of a list of links.
pub open spec fn links_view(links: Seq<PayPalOrderLink>) -> Seq<PayPalOrderLinkView> {
    links.map_values(|l: PayPalOrderLink| l@)
}

impl View for PayPalOrderResp {
    type V = PayPalOrderRespView;

    open spec fn view(&self) -> PayPalOrderRespView {
        PayPalOrderRespView { id: self.id@, links: links_view(self.links@) }
    }
}

/// Whether a link is the one the payer is sent to for approval.
pub open spec fn is_approval_link(link: PayPalOrderLinkView) -> bool {
    link.rel == "approve"@
}

/// The address of the first approval link, if there is one.
pub open spec fn approval_url(links: Seq<PayPalOrderLinkView>) -> Option<Seq<char>> {
    match find_first(links, |l: PayPalOrderLinkView| is_approval_link(l)) {
        Some(link) => Some(link.href),
        None => None,
    }
}

/// The address the payer is sent to for approval: that of the first link
/// whose relation is `approve`.
pub fn find_approval_url(order: &PayPalOrderResp) -> (url: Option<String>)
    ensures
        opt_text(url) == approval_url(order@.links),
{
    let ghost links = order@.links;
    let ghost pred = |l: PayPalOrderLinkView| is_approval_link(l);
    let mut i: usize = 0;
    while i < order.links.len()
        invariant
            i <= order.links.len(),
            links == order@.links,
            pred == (|l: PayPalOrderLinkView| is_approval_link(l)),
            forall|j: int| 0 <= j < i ==> !pred(#[trigger] links[j]),
        decreases order.links.len() - i,
    {
        if same_text(order.links[i].rel.as_str(), "approve") {
            proof {
                assert(pred(links[i as int]));
                lemma_first_index_is(links, pred, i as int);
            }
            return Some(order.links[i].href.clone());
        }
        i += 1;
    }
    proof {
        lemma_first_index_is(links, pred, links.len() as int);
    }
    None
}

/// What the provider answers to a capture: the order id and its settlement
/// status.
#[derive(Debug)]
pub struct CaptureResult {
    pub id: String,
    pub status: String,
}

/// Whether a settlement status is the one that says the funds were captured.
pub open spec fn is_settled(status: Seq<char>) -> bool {
    status == "COMPLETED"@
}

/// Whether a settlement status is the one that says the funds were captured.
/// Every other status counts as not yet settled.
pub fn settled(status: &str) -> (yes: bool)
    ensures
        yes == is_settled(status@),
{
    same_text(status, "COMPLETED")
}

/// What the payment provider is asked for: an order over an amount, with
/// the addresses the payer comes back to.
#[derive(Debug)]
pub struct OrderRequest {
    pub intent: String,
    pub currency_code: String,
    pub value: String,
    pub description: Option<String>,
    pub return_url: String,
    pub cancel_url: String,
}

/// The mathematical content of an `OrderRequest`.
pub ghost struct OrderRequestView {
    pub intent: Seq<char>,
    pub currency_code: Seq<char>,
    pub value: Seq<char>,
    pub description: Option<Seq<char>>,
    pub return_url: Seq<char>,
    pub cancel_url: Seq<char>,
}

impl View for OrderRequest {
    type V = OrderRequestView;

    open spec fn view(&self) -> OrderRequestView {
        OrderRequestView {
            intent: self.intent@,
            currency_code: self.currency_code@,
            value: self.value@,
            description: opt_text(self.description),
            return_url: self.return_url@,
            cancel_url: self.cancel_url@,
        }
    }
}

/// The request for an order over `cents`, to be captured in euros, with the
/// callback paths appended to the address of the shop.
pub open spec fn request_for(
    app_url: Seq<char>,
    cents: nat,
    return_path: Seq<char>,
    cancel_path: Seq<char>,
    description: Option<Seq<char>>,
) -> OrderRequestView {
    OrderRequestView {
        intent: "CAPTURE"@,
        currency_code: "EUR"@,
        value: amount_text(cents),
        description,
        return_url: app_url + return_path,
        cancel_url: app_url + cancel_path,
    }
}

/// The request for an order over `amount_cents`, or `None` for a negative
/// amount, which cannot be asked for.
pub fn order_request(
    app_url: &str,
    amount_cents: i64,
    return_path: &str,
    cancel_path: &str,
    description: Option<String>,
) -> (r: Option<OrderRequest>)
    ensures
        r is Some <==> amount_cents >= 0,
        r matches Some(request) ==> request@ == request_for(
            app_url@,
            amount_cents as nat,
            return_path@,
            cancel_path@,
            opt_text(description),
        ),
{
    let value: String = match format_amount(amount_cents) {
        Some(v) => v,
        None => {
            return None;
        },
    };
    let mut return_url: String = app_url.to_owned();
    return_url.append(return_path);
    let mut cancel_url: String = app_url.to_owned();
    cancel_url.append(cancel_path);
    Some(
        OrderRequest {
            intent: "CAPTURE".to_owned(),
            currency_code: "EUR".to_owned(),
            value,
            description,
            return_url,
            cancel_url,
        },
    )
}

} // verus!
