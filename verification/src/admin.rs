//! Helpers for the administrative table browser.

use crate::text::chars_of;
use vstd::prelude::*;

verus! {

/// Whether `c` may stand in a table or column name: an ASCII letter, an
/// ASCII digit, or the underscore.
pub open spec fn is_name_char(c: char) -> bool {
    ||| 0x30 <= c as int <= 0x39
    ||| 0x41 <= c as int <= 0x5a
    ||| 0x61 <= c as int <= 0x7a
    ||| c == '_'
}

/// Whether `c` may stand in a table or column name.
pub fn name_char(c: char) -> (ok: bool)
    ensures
        ok == is_name_char(c),
{
    let code: u32 = c as u32;
    (0x30 <= code && code <= 0x39) || (0x41 <= code && code <= 0x5a) || (0x61 <= code && code
        <= 0x7a) || c == '_'
}

/// The name `input` with every character dropped that may not stand in a
/// table or column name, so that the result can be spliced into a statement.
pub fn sanitize_table(input: &str) -> (name: String)
    ensures
        name@ == input@.filter(|c: char| is_name_char(c)),
        forall|i: int| 0 <= i < name@.len() ==> is_name_char(#[trigger] name@[i]),
{
    let chars: Vec<char> = chars_of(input);
    let ghost keep = |c: char| is_name_char(c);
    let mut name = String::new();
    let mut i: usize = 0;
    proof {
        reveal(Seq::filter);
        assert(chars@.take(0) =~= Seq::<char>::empty());
    }
    while i < chars.len()
        invariant
            i <= chars.len(),
            chars@ == input@,
            keep == (|c: char| is_name_char(c)),
            name@ == chars@.take(i as int).filter(keep),
        decreases chars.len() - i,
    {
        let c: char = chars[i];
        proof {
            assert(chars@.take(i + 1) =~= chars@.take(i as int).push(c));
            chars@.take(i as int).lemma_filter_push(c, keep);
        }
        if name_char(c) {
            name.push(c);
        }
        i += 1;
    }
    proof {
        assert(chars@.take(chars.len() as int) =~= chars@);
        assert forall|j: int| 0 <= j < name@.len() implies is_name_char(#[trigger] name@[j]) by {
            input@.lemma_filter_pred(keep, j);
        }
    }
    name
}

} // verus!
