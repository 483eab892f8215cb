//! Rows of a table as a sequence: first-match lookup, the model of a keyed
//! `SELECT` that returns at most one row.

use vstd::prelude::*;

verus! {

/// The index of the first row of `rows` that satisfies `pred`, or
/// `rows.len()` where none does.
pub open spec fn first_index<T>(rows: Seq<T>, pred: spec_fn(T) -> bool) -> int
    decreases rows.len(),
{
    if rows.len() == 0 {
        0
    } else if pred(rows[0]) {
        0
    } else {
        1 + first_index(rows.drop_first(), pred)
    }
}

/// The first row of `rows` that satisfies `pred`, if any.
pub open spec fn find_first<T>(rows: Seq<T>, pred: spec_fn(T) -> bool) -> Option<T> {
    let i = first_index(rows, pred);
    if i < rows.len() {
        Some(rows[i])
    } else {
        None
    }
}

/// `first_index` lies within `0..=len`, points at a matching row when it is
/// an index, and no earlier row matches.
pub proof fn lemma_first_index<T>(rows: Seq<T>, pred: spec_fn(T) -> bool)
    ensures
        0 <= first_index(rows, pred) <= rows.len(),
        first_index(rows, pred) < rows.len() ==> pred(rows[first_index(rows, pred)]),
        forall|j: int| 0 <= j < first_index(rows, pred) ==> !pred(#[trigger] rows[j]),
    decreases rows.len(),
{
    if rows.len() > 0 && !pred(rows[0]) {
        let rest = rows.drop_first();
        lemma_first_index(rest, pred);
        assert forall|j: int| 0 <= j < first_index(rows, pred) implies !pred(
            #[trigger] rows[j],
        ) by {
            if j > 0 {
                assert(rows[j] == rest[j - 1]);
            }
        }
    }
}

/// An index with a matching row (or the length) before which no row matches
/// is the `first_index`.
pub proof fn lemma_first_index_is<T>(rows: Seq<T>, pred: spec_fn(T) -> bool, i: int)
    requires
        0 <= i <= rows.len(),
        i < rows.len() ==> pred(rows[i]),
        forall|j: int| 0 <= j < i ==> !pred(#[trigger] rows[j]),
    ensures
        first_index(rows, pred) == i,
{
    lemma_first_index(rows, pred);
    let f = first_index(rows, pred);
    if f < i {
        assert(!pred(rows[f]));
    } else if f > i {
        assert(!pred(rows[i]));
    }
}

/// No row matches exactly when `find_first` finds none.
pub proof fn lemma_find_first_none<T>(rows: Seq<T>, pred: spec_fn(T) -> bool)
    ensures
        find_first(rows, pred) is None <==> forall|j: int|
            0 <= j < rows.len() ==> !pred(#[trigger] rows[j]),
{
    lemma_first_index(rows, pred);
    if find_first(rows, pred) is Some {
        assert(pred(rows[first_index(rows, pred)]));
    }
}

/// A row of a keyed table.
pub trait Row: View + Sized {
    /// Whether a row with the content `row` answers to `key`.
    spec fn has_key(row: Self::V, key: Seq<char>) -> bool;

    /// Whether this row answers to `key`.
    fn matches_key(&self, key: &str) -> (yes: bool)
        ensures
            yes == Self::has_key(self@, key@),
    ;

    /// A copy of this row.
    fn duplicate(&self) -> (r: Self)
        ensures
            r@ == self@,
    ;
}

/// The contents of the rows of a table.
pub open spec fn rows_view<T: View>(rows: Seq<T>) -> Seq<T::V> {
    rows.map_values(|r: T| r@)
}

/// The content of an optional row.
pub open spec fn opt_view<T: View>(row: Option<T>) -> Option<T::V> {
    match row {
        Some(r) => Some(r@),
        None => None,
    }
}

/// The rows that answer to `key`.
pub open spec fn with_key<T: Row>(key: Seq<char>) -> spec_fn(T::V) -> bool {
    |row: T::V| T::has_key(row, key)
}

/// The rows that do not answer to `key`.
pub open spec fn without_key<T: Row>(key: Seq<char>) -> spec_fn(T::V) -> bool {
    |row: T::V| !T::has_key(row, key)
}

/// The first row that answers to `key`, if any.
pub open spec fn lookup<T: Row>(rows: Seq<T::V>, key: Seq<char>) -> Option<T::V> {
    find_first(rows, with_key::<T>(key))
}

/// The table without the rows that answer to `key`.
pub open spec fn delete<T: Row>(rows: Seq<T::V>, key: Seq<char>) -> Seq<T::V> {
    rows.filter(without_key::<T>(key))
}

/// After a delete by `key`, a lookup by `key` finds nothing.
pub proof fn lemma_lookup_after_delete<T: Row>(rows: Seq<T::V>, key: Seq<char>)
    ensures
        lookup::<T>(delete::<T>(rows, key), key) is None,
{
    let kept = delete::<T>(rows, key);
    assert forall|j: int| 0 <= j < kept.len() implies !with_key::<T>(key)(#[trigger] kept[j]) by {
        rows.lemma_filter_pred(without_key::<T>(key), j);
    }
    lemma_find_first_none(kept, with_key::<T>(key));
}

/// After a row was put under the key it answers to, a lookup by that key
/// finds it: the rows that answered to the key before are gone and the new
/// row stands last.
pub proof fn lemma_lookup_after_put<T: Row>(rows: Seq<T::V>, key: Seq<char>, row: T::V)
    requires
        T::has_key(row, key),
    ensures
        lookup::<T>(delete::<T>(rows, key).push(row), key) == Some(row),
{
    let kept = delete::<T>(rows, key);
    let after = kept.push(row);
    assert forall|j: int| 0 <= j < kept.len() implies !with_key::<T>(key)(#[trigger] after[j]) by {
        rows.lemma_filter_pred(without_key::<T>(key), j);
    }
    assert(with_key::<T>(key)(after[kept.len() as int]));
    lemma_first_index_is(after, with_key::<T>(key), kept.len() as int);
}

/// The first row of `rows` that answers to `key`, if any.
pub fn find_row<T: Row>(rows: &Vec<T>, key: &str) -> (r: Option<T>)
    ensures
        opt_view(r) == lookup::<T>(rows_view(rows@), key@),
{
    let ghost table = rows_view(rows@);
    let ghost pred = with_key::<T>(key@);
    let mut i: usize = 0;
    while i < rows.len()
        invariant
            i <= rows.len(),
            table == rows_view(rows@),
            pred == with_key::<T>(key@),
            forall|j: int| 0 <= j < i ==> !pred(#[trigger] table[j]),
        decreases rows.len() - i,
    {
        if rows[i].matches_key(key) {
            proof {
                assert(pred(table[i as int]));
                lemma_first_index_is(table, pred, i as int);
            }
            return Some(rows[i].duplicate());
        }
        i += 1;
    }
    proof {
        lemma_first_index_is(table, pred, table.len() as int);
    }
    None
}

/// Removes every row of `rows` that answers to `key`, and says how many
/// there were.
pub fn delete_rows<T: Row>(rows: &mut Vec<T>, key: &str) -> (removed: usize)
    ensures
        rows_view(final(rows)@) == delete::<T>(rows_view(old(rows)@), key@),
        removed == old(rows)@.len() - final(rows)@.len(),
        removed > 0 <==> lookup::<T>(rows_view(old(rows)@), key@) is Some,
{
    let ghost table = rows_view(rows@);
    let ghost keep = without_key::<T>(key@);
    let mut kept: Vec<T> = Vec::new();
    let mut removed: usize = 0;
    let mut i: usize = 0;
    proof {
        assert(table.take(0) =~= Seq::<T::V>::empty());
        assert(rows_view(kept@) =~= Seq::<T::V>::empty());
        reveal(Seq::filter);
    }
    while i < rows.len()
        invariant
            i <= rows.len(),
            table == rows_view(rows@),
            keep == without_key::<T>(key@),
            rows_view(kept@) == table.take(i as int).filter(keep),
            removed + kept@.len() == i,
            removed == 0 <==> forall|j: int|
                0 <= j < i ==> !with_key::<T>(key@)(#[trigger] table[j]),
        decreases rows.len() - i,
    {
        proof {
            assert(table.take(i + 1) =~= table.take(i as int).push(table[i as int]));
            table.take(i as int).lemma_filter_push(table[i as int], keep);
        }
        if rows[i].matches_key(key) {
            proof {
                assert(with_key::<T>(key@)(table[i as int]));
            }
            removed += 1;
        } else {
            let row: T = rows[i].duplicate();
            proof {
                assert(rows_view(kept@.push(row)) =~= rows_view(kept@).push(row@));
            }
            kept.push(row);
        }
        i += 1;
    }
    proof {
        assert(table.take(rows.len() as int) =~= table);
        lemma_find_first_none(table, with_key::<T>(key@));
    }
    *rows = kept;
    removed
}

} // verus!
