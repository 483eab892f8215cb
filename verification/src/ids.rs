//! Fresh identifiers for orders, order items and gift codes.

use crate::text::chars_of;
use vstd::prelude::*;

verus! {

/// Whether `c` is a decimal digit or one of the letters `a` to `f`.
pub open spec fn is_lower_hex(c: char) -> bool {
    0x30 <= c as int <= 0x39 || 0x61 <= c as int <= 0x66
}

/// The canonical text of a UUID: thirty-six characters, hyphens at positions
/// 8, 13, 18 and 23, lower-case hexadecimal digits everywhere else.
pub open spec fn is_uuid_text(s: Seq<char>) -> bool {
    &&& s.len() == 36
    &&& forall|i: int|
        0 <= i < 36 ==> if i == 8 || i == 13 || i == 18 || i == 23 {
            #[trigger] s[i] == '-'
        } else {
            is_lower_hex(s[i])
        }
}

/// The text of a gift code: thirty-two lower-case hexadecimal digits.
pub open spec fn is_gift_code_text(s: Seq<char>) -> bool {
    &&& s.len() == 32
    &&& forall|i: int| 0 <= i < 32 ==> is_lower_hex(#[trigger] s[i])
}

/// `s` without its hyphens.
pub open spec fn without_hyphens(s: Seq<char>) -> Seq<char> {
    s.filter(|c: char| c != '-')
}

/// `uuid::Uuid::new_v4` followed by `to_string`: a random UUID in its
/// canonical lower-case hyphenated form. Nothing is claimed of which UUID
/// comes back, only of its shape. The call does not return where the
/// operating system's source of randomness fails.
#[verifier::external_body]
pub(crate) fn new_uuid() -> (id: String)
    ensures
        is_uuid_text(id@),
{
    uuid::Uuid::new_v4().to_string()
}

/// A fresh identifier for an order or an order item.
pub fn fresh_id() -> (id: String)
    ensures
        is_uuid_text(id@),
{
    new_uuid()
}

/// `s` without its hyphens.
pub fn strip_hyphens(s: &str) -> (r: String)
    ensures
        r@ == without_hyphens(s@),
{
    let chars: Vec<char> = chars_of(s);
    let ghost keep = |c: char| c != '-';
    let mut r = String::new();
    let mut i: usize = 0;
    proof {
        assert(chars@.take(0) =~= Seq::<char>::empty());
    }
    while i < chars.len()
        invariant
            i <= chars.len(),
            chars@ == s@,
            keep == (|c: char| c != '-'),
            r@ == chars@.take(i as int).filter(keep),
        decreases chars.len() - i,
    {
        let c: char = chars[i];
        proof {
            assert(chars@.take(i + 1) =~= chars@.take(i as int).push(c));
            chars@.take(i as int).lemma_filter_push(c, keep);
        }
        if c != '-' {
            r.push(c);
        }
        i += 1;
    }
    proof {
        assert(chars@.take(chars.len() as int) =~= chars@);
    }
    r
}

/// Filtering keeps a sequence whose every element passes.
proof fn lemma_filter_keeps_all(s: Seq<char>, keep: spec_fn(char) -> bool)
    requires
        forall|i: int| 0 <= i < s.len() ==> keep(#[trigger] s[i]),
    ensures
        s.filter(keep) == s,
    decreases s.len(),
{
    reveal(Seq::filter);
    if s.len() > 0 {
        let rest = s.drop_last();
        assert forall|i: int| 0 <= i < rest.len() implies keep(#[trigger] rest[i]) by {
            assert(rest[i] == s[i]);
        }
        lemma_filter_keeps_all(rest, keep);
        assert(keep(s.last()));
        assert(rest.push(s.last()) =~= s);
    } else {
        assert(s.filter(keep) =~= s);
    }
}

/// A canonical UUID text without its hyphens is a gift code text.
pub proof fn lemma_uuid_without_hyphens(s: Seq<char>)
    requires
        is_uuid_text(s),
    ensures
        is_gift_code_text(without_hyphens(s)),
{
    let keep = |c: char| c != '-';
    let hyphen = seq!['-'];
    let a = s.subrange(0, 8);
    let b = s.subrange(9, 13);
    let c = s.subrange(14, 18);
    let d = s.subrange(19, 23);
    let e = s.subrange(24, 36);
    assert(s =~= a + hyphen + b + hyphen + c + hyphen + d + hyphen + e);
    assert forall|i: int| 0 <= i < a.len() implies keep(#[trigger] a[i]) by {
        assert(is_lower_hex(s[i]));
    }
    assert forall|i: int| 0 <= i < b.len() implies keep(#[trigger] b[i]) by {
        assert(is_lower_hex(s[i + 9]));
    }
    assert forall|i: int| 0 <= i < c.len() implies keep(#[trigger] c[i]) by {
        assert(is_lower_hex(s[i + 14]));
    }
    assert forall|i: int| 0 <= i < d.len() implies keep(#[trigger] d[i]) by {
        assert(is_lower_hex(s[i + 19]));
    }
    assert forall|i: int| 0 <= i < e.len() implies keep(#[trigger] e[i]) by {
        assert(is_lower_hex(s[i + 24]));
    }
    lemma_filter_keeps_all(a, keep);
    lemma_filter_keeps_all(b, keep);
    lemma_filter_keeps_all(c, keep);
    lemma_filter_keeps_all(d, keep);
    lemma_filter_keeps_all(e, keep);
    assert(hyphen.filter(keep) =~= Seq::<char>::empty()) by {
        reveal_with_fuel(Seq::filter, 2);
        assert(hyphen.drop_last() =~= Seq::<char>::empty());
    }
    Seq::filter_distributes_over_add(a, hyphen, keep);
    Seq::filter_distributes_over_add(a + hyphen, b, keep);
    Seq::filter_distributes_over_add(a + hyphen + b, hyphen, keep);
    Seq::filter_distributes_over_add(a + hyphen + b + hyphen, c, keep);
    Seq::filter_distributes_over_add(a + hyphen + b + hyphen + c, hyphen, keep);
    Seq::filter_distributes_over_add(a + hyphen + b + hyphen + c + hyphen, d, keep);
    Seq::filter_distributes_over_add(a + hyphen + b + hyphen + c + hyphen + d, hyphen, keep);
    Seq::filter_distributes_over_add(
        a + hyphen + b + hyphen + c + hyphen + d + hyphen,
        e,
        keep,
    );
    let out = without_hyphens(s);
    assert(out =~= a + b + c + d + e);
    assert forall|i: int| 0 <= i < 32 implies is_lower_hex(#[trigger] out[i]) by {
        if i < 8 {
            assert(out[i] == s[i]);
        } else if i < 12 {
            assert(out[i] == s[i + 1]);
        } else if i < 16 {
            assert(out[i] == s[i + 2]);
        } else if i < 20 {
            assert(out[i] == s[i + 3]);
        } else {
            assert(out[i] == s[i + 4]);
        }
    }
}

/// The gift code made from a UUID text: the text without its hyphens.
pub fn gift_code_from_uuid(uuid_text: &str) -> (code: String)
    ensures
        code@ == without_hyphens(uuid_text@),
        is_uuid_text(uuid_text@) ==> is_gift_code_text(code@),
{
    proof {
        if is_uuid_text(uuid_text@) {
            lemma_uuid_without_hyphens(uuid_text@);
        }
    }
    strip_hyphens(uuid_text)
}

/// A fresh gift code: opaque and unguessable, thirty-two hexadecimal digits.
pub fn fresh_gift_code() -> (code: String)
    ensures
        is_gift_code_text(code@),
{
    let id: String = new_uuid();
    gift_code_from_uuid(id.as_str())
}

} // verus!
