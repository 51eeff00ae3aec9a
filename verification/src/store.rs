use vstd::prelude::*;

use crate::models::{User, UserJson, UserNew, UserView};

verus! {

/// Largest id the store can assign: ids live in an `i32` column.
pub open spec fn max_id() -> int {
    0x7fff_ffff
}

/// Whether some row of `t` carries the name `n`.
pub open spec fn has_name(t: Seq<UserView>, n: Seq<char>) -> bool {
    exists|i: int| 0 <= i < t.len() && (#[trigger] t[i]).name == n
}

/// Index of the first row of `t` whose name is `n`, or -1 when no row
/// carries it.
pub open spec fn find_index(t: Seq<UserView>, n: Seq<char>) -> int
    decreases t.len(),
{
    if t.len() == 0 {
        -1
    } else if t[0].name == n {
        0
    } else {
        let r = find_index(t.skip(1), n);
        if r < 0 {
            -1
        } else {
            r + 1
        }
    }
}

/// `find_index` returns exactly the first index carrying `n`, and -1
/// exactly when `n` is absent.
pub proof fn lemma_find_index(t: Seq<UserView>, n: Seq<char>)
    ensures
        find_index(t, n) >= 0 <==> has_name(t, n),
        !has_name(t, n) ==> find_index(t, n) == -1,
        has_name(t, n) ==> {
            let k = find_index(t, n);
            &&& 0 <= k < t.len()
            &&& t[k].name == n
            &&& forall|i: int| 0 <= i < k ==> (#[trigger] t[i]).name != n
        },
    decreases t.len(),
{
    if t.len() == 0 {
    } else if t[0].name == n {
        assert(has_name(t, n));
    } else {
        lemma_find_index(t.skip(1), n);
        let r = find_index(t.skip(1), n);
        if r < 0 {
            assert forall|i: int| 0 <= i < t.len() implies (#[trigger] t[i]).name != n by {
                if i > 0 {
                    assert(t[i] == t.skip(1)[i - 1]);
                }
            }
        } else {
            assert(t.skip(1)[r] == t[r + 1]);
            assert(has_name(t, n));
            assert forall|i: int| 0 <= i < r + 1 implies (#[trigger] t[i]).name != n by {
                if i > 0 {
                    assert(t[i] == t.skip(1)[i - 1]);
                }
            }
        }
    }
}

/// The row a create request adds to table `t`: the next id in the
/// store's sequence, the request fields, and the creation timestamp.
pub open spec fn new_row(t: Seq<UserView>, n: Seq<char>, a: Seq<char>, d: Seq<char>) -> UserView {
    UserView { id: t.len() as int + 1, name: n, address: a, date_created: d }
}

/// State of the table after a create-or-find request: unchanged when the
/// name is already present, extended by one fresh row otherwise.
pub open spec fn create_step(t: Seq<UserView>, n: Seq<char>, a: Seq<char>, d: Seq<char>) -> Seq<
    UserView,
> {
    if has_name(t, n) {
        t
    } else {
        t.push(new_row(t, n, a, d))
    }
}

/// Row a create-or-find request returns: the first row already carrying
/// the name, or the freshly inserted one.
pub open spec fn create_result(t: Seq<UserView>, n: Seq<char>, a: Seq<char>, d: Seq<char>) -> UserView {
    if has_name(t, n) {
        t[find_index(t, n)]
    } else {
        new_row(t, n, a, d)
    }
}

/// Table invariant: the store assigns ids 1, 2, 3, ... in insertion order,
/// and every persisted row carries a non-empty creation timestamp.
pub open spec fn table_wf(t: Seq<UserView>) -> bool {
    forall|i: int| 0 <= i < t.len() ==> (#[trigger] t[i]).id == i + 1 && t[i].date_created.len() > 0
}

/// Model of the single `users` table: rows in insertion order.
pub struct UserTable {
    pub rows: Vec<User>,
}

impl View for UserTable {
    type V = Seq<UserView>;

    open spec fn view(&self) -> Seq<UserView> {
        self.rows@.map_values(|u: User| u@)
    }
}

impl UserTable {
    /// An empty table, as created by out-of-band store administration.
    pub fn new() -> (r: UserTable)
        ensures
            r@ == Seq::<UserView>::empty(),
            table_wf(r@),
    {
        let t = UserTable { rows: Vec::new() };
        proof {
            assert(t@ =~= Seq::<UserView>::empty());
        }
        t
    }

    /// First row carrying the given name, if any.
    fn find_by_name(&self, n: &String) -> (r: Option<usize>)
        ensures
            match r {
                Some(i) => {
                    &&& i < self@.len()
                    &&& self@[i as int].name == n@
                    &&& forall|j: int| 0 <= j < i ==> (#[trigger] self@[j]).name != n@
                },
                None => !has_name(self@, n@),
            },
    {
        let mut i: usize = 0;
        while i < self.rows.len()
            invariant
                i <= self.rows.len(),
                self@.len() == self.rows.len(),
                forall|j: int| 0 <= j < i ==> (#[trigger] self@[j]).name != n@,
            decreases self.rows.len() - i,
        {
            if self.rows[i].name == *n {
                return Some(i);
            }
            i += 1;
        }
        None
    }

    /// Create-or-find with the creation timestamp supplied by the caller:
    /// return the first row already carrying the request's name and leave
    /// the table unchanged, or insert a fresh row with the next id, the
    /// request fields and the given timestamp, and return it.
    pub fn find_or_create_at(&mut self, item: &UserJson, date_created: String) -> (r: User)
        requires
            table_wf(old(self)@),
            old(self)@.len() < max_id(),
            date_created@.len() > 0,
        ensures
            table_wf(final(self)@),
            final(self)@ == create_step(old(self)@, item.name@, item.address@, date_created@),
            r@ == create_result(old(self)@, item.name@, item.address@, date_created@),
    {
        match self.find_by_name(&item.name) {
            Some(i) => {
                proof {
                    lemma_find_index(self@, item.name@);
                }
                self.rows[i].clone()
            },
            None => {
                let id: i32 = (self.rows.len() + 1) as i32;
                let u = User {
                    id,
                    name: item.name.clone(),
                    address: item.address.clone(),
                    date_created,
                };
                let r = u.clone();
                self.rows.push(u);
                proof {
                    assert(self@ =~= create_step(
                        old(self)@,
                        item.name@,
                        item.address@,
                        r.date_created@,
                    ));
                }
                r
            },
        }
    }

    /// Create-or-find as the service runs it: the creation timestamp is
    /// read from the local clock at insert time, so of a fresh row's
    /// `date_created` only non-emptiness is promised.
    pub fn find_or_create(&mut self, item: &UserJson) -> (r: User)
        requires
            table_wf(old(self)@),
            old(self)@.len() < max_id(),
        ensures
            table_wf(final(self)@),
            final(self)@ == create_step(old(self)@, item.name@, item.address@, r@.date_created),
            r@ == create_result(old(self)@, item.name@, item.address@, r@.date_created),
            r@.date_created.len() > 0,
    {
        let ts = now_timestamp();
        let r = self.find_or_create_at(item, ts);
        proof {
            if has_name(old(self)@, item.name@) {
                lemma_find_index(old(self)@, item.name@);
            }
        }
        r
    }

    /// Full-table scan: every row, in store order, by value.
    pub fn list_users(&self) -> (r: Vec<User>)
        ensures
            r@.len() == self@.len(),
            forall|i: int| 0 <= i < r@.len() ==> (#[trigger] r@[i])@ == self@[i],
    {
        let mut out: Vec<User> = Vec::new();
        let mut i: usize = 0;
        while i < self.rows.len()
            invariant
                i <= self.rows.len(),
                self@.len() == self.rows.len(),
                out@.len() == i,
                forall|j: int| 0 <= j < i ==> (#[trigger] out@[j])@ == self@[j],
            decreases self.rows.len() - i,
        {
            out.push(self.rows[i].clone());
            i += 1;
        }
        out
    }
}

/// What the handler does with the outcome of the lookup by name.
pub enum CreatePlan<'a> {
    /// The name was found: answer with the stored row, ignoring the
    /// request's address.
    Use(User),
    /// The name was not found: insert this fresh row.
    Insert(UserNew<'a>),
}

/// Decision step of the create-or-find operation, for a store driven from
/// outside: given the outcome of the lookup by name, either reuse the row
/// that was found or insert a fresh row carrying the request fields and
/// the supplied timestamp.
pub fn plan_create<'a>(looked_up: Option<User>, item: &'a UserJson, date_created: &'a str) -> (r:
    CreatePlan<'a>)
    ensures
        match looked_up {
            Some(u) => r == CreatePlan::<'a>::Use(u),
            None => {
                &&& r matches CreatePlan::Insert(nu)
                &&& nu.name@ == item.name@
                &&& nu.address@ == item.address@
                &&& nu.date_created@ == date_created@
            },
        },
{
    match looked_up {
        Some(u) => CreatePlan::Use(u),
        None => CreatePlan::Insert(
            UserNew {
                name: item.name.as_str(),
                address: item.address.as_str(),
                date_created,
            },
        ),
    }
}

/// Relies on chrono: `Local::now().naive_local()` rendered by
/// `NaiveDateTime`'s `Display`, which always writes a date, a space and a
/// time, so the text is never empty.
#[verifier::external_body]
fn now_timestamp() -> (r: String)
    ensures
        r@.len() > 0,
{
    format!("{}", chrono::Local::now().naive_local())
}

} // verus!
