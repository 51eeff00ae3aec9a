use vstd::prelude::*;

use crate::models::UserView;
use crate::store::{create_result, create_step, find_index, has_name, lemma_find_index, new_row, table_wf};

verus! {

/// Lexicographic order on character sequences, the order in which the
/// store's sortable timestamp strings compare.
pub open spec fn lex_le(a: Seq<char>, b: Seq<char>) -> bool
    decreases a.len(),
{
    if a.len() == 0 {
        true
    } else if b.len() == 0 {
        false
    } else if a[0] == b[0] {
        lex_le(a.skip(1), b.skip(1))
    } else {
        (a[0] as int) < (b[0] as int)
    }
}

pub proof fn lemma_lex_le_refl(a: Seq<char>)
    ensures
        lex_le(a, a),
    decreases a.len(),
{
    if a.len() > 0 {
        lemma_lex_le_refl(a.skip(1));
    }
}

/// The creation dates of `t` never decrease along insertion order.
pub open spec fn dates_nondecreasing(t: Seq<UserView>) -> bool {
    forall|i: int, j: int|
        0 <= i <= j < t.len() ==> #[trigger] lex_le(t[i].date_created, t[j].date_created)
}

/// A create request with a name absent from the table leaves a row
/// carrying that name and address, a positive server-assigned id, and the
/// request's timestamp as its creation date, for every later listing.
pub proof fn lemma_create_unseen_listed(t: Seq<UserView>, n: Seq<char>, a: Seq<char>, d: Seq<char>)
    requires
        table_wf(t),
        !has_name(t, n),
    ensures
        ({
            let t1 = create_step(t, n, a, d);
            exists|i: int|
                0 <= i < t1.len() && (#[trigger] t1[i]).name == n && t1[i].address == a
                    && t1[i].date_created == d && t1[i].id >= 1
        }),
{
    let t1 = create_step(t, n, a, d);
    assert(t1[t.len() as int].name == n);
}

/// Creating a name twice is idempotent: the repeat returns the row of the
/// first creation — same id, original address and timestamp, whatever the
/// repeat carries — and leaves the table unchanged.
pub proof fn lemma_create_idempotent(
    t: Seq<UserView>,
    n: Seq<char>,
    a1: Seq<char>,
    d1: Seq<char>,
    a2: Seq<char>,
    d2: Seq<char>,
)
    ensures
        ({
            let t1 = create_step(t, n, a1, d1);
            let r1 = create_result(t, n, a1, d1);
            create_step(t1, n, a2, d2) == t1 && create_result(t1, n, a2, d2) == r1
        }),
{
    let t1 = create_step(t, n, a1, d1);
    let r1 = create_result(t, n, a1, d1);
    lemma_find_index(t, n);
    lemma_find_index(t1, n);
    if has_name(t, n) {
        assert(t1 == t);
    } else {
        let len = t.len() as int;
        assert(t1[len] == new_row(t, n, a1, d1));
        assert(has_name(t1, n));
        let k = find_index(t1, n);
        if k < len {
            assert(t1[k] == t[k]);
            assert(has_name(t, n));
        }
        assert(k == len);
        assert(create_result(t1, n, a2, d2) == r1);
    }
}

/// Creation dates stay in non-decreasing order as long as every create
/// carries a timestamp no smaller than the dates already stored — a clock
/// that never runs backwards; a repeat of an existing name changes nothing.
pub proof fn lemma_dates_monotone(t: Seq<UserView>, n: Seq<char>, a: Seq<char>, d: Seq<char>)
    requires
        dates_nondecreasing(t),
        forall|i: int| 0 <= i < t.len() ==> lex_le((#[trigger] t[i]).date_created, d),
    ensures
        dates_nondecreasing(create_step(t, n, a, d)),
{
    let t1 = create_step(t, n, a, d);
    if !has_name(t, n) {
        lemma_lex_le_refl(d);
        assert forall|i: int, j: int| 0 <= i <= j < t1.len() implies #[trigger] lex_le(
            t1[i].date_created,
            t1[j].date_created,
        ) by {
            if j < t.len() {
            } else {
                assert(t1[j].date_created == d);
            }
        }
    }
}

/// Listing is a no-op on storage: it borrows the table immutably, and its
/// outcome is a function of the table's rows alone, so two listings with
/// no create between them see the same rows in the same order.
pub proof fn lemma_list_stable(t: Seq<UserView>, r1: Seq<UserView>, r2: Seq<UserView>)
    requires
        r1.len() == t.len(),
        forall|i: int| 0 <= i < t.len() ==> #[trigger] r1[i] == t[i],
        r2.len() == t.len(),
        forall|i: int| 0 <= i < t.len() ==> #[trigger] r2[i] == t[i],
    ensures
        r1 == r2,
{
    assert(r1 =~= r2);
}

} // verus!
