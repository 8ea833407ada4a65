use vstd::prelude::*;

use crate::account::{
    Account, AccountView, CreateAccountSchema, UpdateAccountSchema, merge_view, apply_update,
    paid_or_false,
};
use crate::errors::ServiceError;

verus! {

/// Ascending, duplicate-free identifier order: the invariant that makes
/// identifiers unique and pagination by ascending id stable.
pub open spec fn sorted_by_id(s: Seq<AccountView>) -> bool {
    forall|i: int, j: int| 0 <= i < j < s.len() ==> s[i].id < s[j].id
}

/// Whether some row of the table carries the identifier.
pub open spec fn contains_id(s: Seq<AccountView>, id: int) -> bool {
    exists|i: int| 0 <= i < s.len() && s[i].id == id
}

/// In a well-formed table two rows never share an identifier.
pub proof fn lemma_id_unique(s: Seq<AccountView>, i: int, j: int)
    requires
        sorted_by_id(s),
        0 <= i < s.len(),
        0 <= j < s.len(),
        s[i].id == s[j].id,
    ensures
        i == j,
{
    if i < j {
        assert(s[i].id < s[j].id);
    }
    if j < i {
        assert(s[j].id < s[i].id);
    }
}

/// Law: a stored account is retrievable by its identifier. In a well-formed
/// table that holds the row `a`, every row carrying `a`'s identifier is `a`
/// itself; with `get`'s contract this says that `get(create(...).id)` returns
/// a record equal to the created one in every field, `created_at` included.
pub proof fn lemma_stored_account_is_retrievable(s: Seq<AccountView>, a: AccountView, i: int)
    requires
        sorted_by_id(s),
        0 <= i < s.len(),
        s[i] == a,
    ensures
        forall|j: int| 0 <= j < s.len() && s[j].id == a.id ==> s[j] == a,
{
    assert forall|j: int| 0 <= j < s.len() && s[j].id == a.id implies s[j] == a by {
        lemma_id_unique(s, i, j);
    }
}

/// Law: deleting clears the identifier. Removing the row at `i` of a
/// well-formed table, the row that carries `id`, leaves a table in which no
/// row carries `id`: by `get`'s contract a `get(id)` right after a
/// `delete(id)` reports `NotFound`, and by `delete`'s contract a second
/// `delete(id)` finds nothing, changes nothing and still reports success.
pub proof fn lemma_removed_id_is_gone(s: Seq<AccountView>, i: int, id: int)
    requires
        sorted_by_id(s),
        0 <= i < s.len(),
        s[i].id == id,
    ensures
        !contains_id(s.remove(i), id),
{
    let t = s.remove(i);
    assert forall|k: int| 0 <= k < t.len() implies t[k].id != id by {
        if k < i {
            assert(t[k] == s[k]);
            if s[k].id == id {
                lemma_id_unique(s, k, i);
                assert(false);
            }
        } else {
            assert(t[k] == s[k + 1]);
            if s[k + 1].id == id {
                lemma_id_unique(s, k + 1, i);
                assert(false);
            }
        }
    }
}

/// Relies on `uuid::Uuid::new_v4` and `Uuid::as_u128`: a fresh random
/// version-4 identifier read as its 128-bit value. The value is random, so
/// nothing is promised of it; the store treats a collision as a constraint
/// violation.
#[verifier::external_body]
fn fresh_id() -> u128 {
    uuid::Uuid::new_v4().as_u128()
}

/// Relies on `chrono::Utc::now` and `DateTime::timestamp`: the current wall
/// clock as whole seconds since the Unix epoch. The value depends on the
/// clock, so nothing is promised of it.
#[verifier::external_body]
fn now_epoch_seconds() -> i64 {
    chrono::Utc::now().timestamp()
}

/// The account record store: the durable table of account rows, held as a
/// vector kept sorted by identifier. Every operation reads or writes this
/// table exactly once; no copies are cached between operations.
pub struct AccountStore {
    rows: Vec<Account>,
}

impl View for AccountStore {
    type V = Seq<AccountView>;

    closed spec fn view(&self) -> Seq<AccountView> {
        self.rows@.map_values(|a: Account| a@)
    }
}

impl AccountStore {
    /// Well-formedness: rows stand in ascending identifier order, which makes
    /// every identifier unique. Constructors establish it and every operation
    /// preserves it.
    pub open spec fn wf(&self) -> bool {
        sorted_by_id(self@)
    }

    /// An empty table.
    pub fn new() -> (s: Self)
        ensures
            s.wf(),
            s@ == Seq::<AccountView>::empty(),
    {
        let s = AccountStore { rows: Vec::new() };
        proof {
            assert(s@ =~= Seq::<AccountView>::empty());
        }
        s
    }

    /// Number of stored rows.
    pub fn count(&self) -> (n: usize)
        ensures
            n == self@.len(),
    {
        self.rows.len()
    }

    /// Index of the row carrying `id`, if any.
    fn find(&self, id: u128) -> (r: Option<usize>)
        ensures
            match r {
                Some(i) => i < self@.len() && self@[i as int].id == id as int,
                None => !contains_id(self@, id as int),
            },
    {
        let mut i: usize = 0;
        while i < self.rows.len()
            invariant
                i <= self@.len(),
                forall|k: int| 0 <= k < i ==> self@[k].id != id as int,
            decreases self@.len() - i,
        {
            if self.rows[i].id == id {
                return Some(i);
            }
            i += 1;
        }
        None
    }

    /// The position where a row with the fresh identifier `id` belongs:
    /// everything before it is smaller, everything from it on is larger.
    fn find_insert_pos(&self, id: u128) -> (p: usize)
        requires
            self.wf(),
            !contains_id(self@, id as int),
        ensures
            p <= self@.len(),
            forall|k: int| 0 <= k < p ==> self@[k].id < id as int,
            forall|k: int| p <= k < self@.len() ==> self@[k].id > id as int,
    {
        let mut i: usize = 0;
        while i < self.rows.len()
            invariant
                self.wf(),
                !contains_id(self@, id as int),
                i <= self@.len(),
                forall|k: int| 0 <= k < i ==> self@[k].id < id as int,
            decreases self@.len() - i,
        {
            if self.rows[i].id > id {
                proof {
                    assert forall|k: int| i <= k < self@.len() implies self@[k].id > id as int by {
                        if k > i {
                            assert(self@[i as int].id < self@[k].id);
                        }
                    }
                }
                return i;
            }
            proof {
                assert(self@[i as int].id != id as int);
            }
            i += 1;
        }
        i
    }

    /// Fetch by identifier: returns a copy of the row carrying `id`, or
    /// `NotFound` exactly when no row does.
    pub fn get(&self, id: u128) -> (r: Result<Account, ServiceError>)
        requires
            self.wf(),
        ensures
            r is Ok <==> contains_id(self@, id as int),
            r matches Ok(a) ==> exists|i: int|
                0 <= i < self@.len() && #[trigger] self@[i].id == id as int && a@ == self@[i],
            r matches Err(e) ==> e == ServiceError::NotFound,
    {
        match self.find(id) {
            Some(i) => Ok(self.rows[i].clone()),
            None => Err(ServiceError::NotFound),
        }
    }

    /// Insert a new row under the given identifier, with the server-assigned
    /// creation time: the exact outcome for every identifier. Succeeds if and
    /// only if the identifier is not taken; an absent `paid` defaults to
    /// `false`. On success the new row is the returned account, placed at its
    /// sorted position; on failure the table is unchanged.
    pub fn insert_with_id(&mut self, id: u128, req: &CreateAccountSchema, created_at: i64) -> (r:
        Result<Account, ServiceError>)
        requires
            old(self).wf(),
        ensures
            final(self).wf(),
            r is Ok <==> !contains_id(old(self)@, id as int),
            r matches Ok(a) ==> {
                &&& a@ == (AccountView {
                    id: id as int,
                    name: req@.name,
                    value_cents: req@.value_cents,
                    due_date: req@.due_date,
                    paid: paid_or_false(req@.paid),
                    created_at: created_at as int,
                })
                &&& exists|i: int|
                    0 <= i <= old(self)@.len() && final(self)@ == #[trigger] old(self)@.insert(
                        i,
                        a@,
                    )
                &&& contains_id(final(self)@, id as int)
            },
            r matches Err(e) ==> e == ServiceError::StoreError && final(self)@ == old(self)@,
    {
        match self.find(id) {
            Some(_) => Err(ServiceError::StoreError),
            None => {
                let pos = self.find_insert_pos(id);
                let row = Account {
                    id,
                    name: req.name.clone(),
                    value_cents: req.value_cents,
                    due_date: req.due_date,
                    paid: match req.paid {
                        Some(b) => b,
                        None => false,
                    },
                    created_at,
                };
                let out = row.clone();
                let ghost pre = self@;
                self.rows.insert(pos, row);
                proof {
                    assert(self@ =~= pre.insert(pos as int, out@));
                    assert forall|x: int, y: int| 0 <= x < y < self@.len() implies self@[x].id
                        < self@[y].id by {
                        if y < pos {
                            assert(self@[x] == pre[x] && self@[y] == pre[y]);
                        } else if y == pos {
                            assert(self@[x] == pre[x]);
                        } else if x == pos {
                            assert(self@[y] == pre[y - 1]);
                        } else if x < pos {
                            assert(self@[x] == pre[x] && self@[y] == pre[y - 1]);
                        } else {
                            assert(self@[x] == pre[x - 1] && self@[y] == pre[y - 1]);
                        }
                    }
                    assert(out@ == (AccountView {
                        id: id as int,
                        name: req@.name,
                        value_cents: req@.value_cents,
                        due_date: req@.due_date,
                        paid: paid_or_false(req@.paid),
                        created_at: created_at as int,
                    }));
                    assert(self@[pos as int].id == id as int);
                }
                Ok(out)
            },
        }
    }

    /// Create an account: assigns a fresh random identifier and the current
    /// server time, then inserts. The new record carries the request's fields
    /// (`paid` defaulting to `false`); it fails as `StoreError` only when the
    /// drawn identifier collides with a stored one, and then changes nothing.
    pub fn create(&mut self, req: &CreateAccountSchema) -> (r: Result<Account, ServiceError>)
        requires
            old(self).wf(),
        ensures
            final(self).wf(),
            r matches Ok(a) ==> {
                &&& a@.name == req@.name
                &&& a@.value_cents == req@.value_cents
                &&& a@.due_date == req@.due_date
                &&& a@.paid == paid_or_false(req@.paid)
                &&& !contains_id(old(self)@, a@.id)
                &&& exists|i: int|
                    0 <= i <= old(self)@.len() && final(self)@ == #[trigger] old(self)@.insert(
                        i,
                        a@,
                    )
                &&& contains_id(final(self)@, a@.id)
            },
            r matches Err(e) ==> e == ServiceError::StoreError && final(self)@ == old(self)@,
    {
        let id = fresh_id();
        let created_at = now_epoch_seconds();
        self.insert_with_id(id, req, created_at)
    }

    /// One page of rows: the slice `[offset, offset + limit)` of the table in
    /// ascending identifier order, clipped to the table's length. The page is
    /// ascending in identifiers.
    pub fn list(&self, limit: u32, offset: u64) -> (r: Vec<Account>)
        requires
            self.wf(),
        ensures
            ({
                let off = vstd::math::min(offset as int, self@.len() as int);
                let end = vstd::math::min(offset as int + limit as int, self@.len() as int);
                &&& r@.len() == end - off
                &&& forall|i: int| 0 <= i < r@.len() ==> #[trigger] r@[i]@ == self@[off + i]
            }),
            forall|i: int, j: int| 0 <= i < j < r@.len() ==> r@[i]@.id < r@[j]@.id,
    {
        let len = self.rows.len();
        let start: usize = if offset >= len as u64 {
            len
        } else {
            offset as usize
        };
        let mut out: Vec<Account> = Vec::new();
        let mut i: usize = start;
        while i < len && out.len() < limit as usize
            invariant
                self.wf(),
                len == self@.len(),
                start <= i <= len,
                i - start == out@.len(),
                out@.len() <= limit,
                forall|k: int| 0 <= k < out@.len() ==> #[trigger] out@[k]@ == self@[start + k],
            decreases len - i,
        {
            let row = self.rows[i].clone();
            out.push(row);
            i += 1;
        }
        proof {
            assert forall|a: int, b: int| 0 <= a < b < out@.len() implies out@[a]@.id
                < out@[b]@.id by {
                assert(out@[a]@ == self@[start + a]);
                assert(out@[b]@ == self@[start + b]);
            }
        }
        out
    }

    /// Partial update by identifier, as one conditional store operation:
    /// succeeds if and only if a row carries `id`, and then replaces exactly
    /// that row with the COALESCE merge of the patch into it, returning the
    /// merged record; otherwise reports `NotFound` and changes nothing.
    pub fn update(&mut self, id: u128, patch: &UpdateAccountSchema) -> (r: Result<
        Account,
        ServiceError,
    >)
        requires
            old(self).wf(),
        ensures
            final(self).wf(),
            r is Ok <==> contains_id(old(self)@, id as int),
            r matches Ok(a) ==> exists|i: int|
                {
                    &&& 0 <= i < old(self)@.len()
                    &&& #[trigger] old(self)@[i].id == id as int
                    &&& a@ == merge_view(old(self)@[i], patch@)
                    &&& final(self)@ == old(self)@.update(i, a@)
                },
            r matches Err(e) ==> e == ServiceError::NotFound && final(self)@ == old(self)@,
    {
        match self.find(id) {
            None => Err(ServiceError::NotFound),
            Some(i) => {
                let merged = apply_update(&self.rows[i], patch);
                let out = merged.clone();
                let ghost pre = self@;
                self.rows[i] = merged;
                proof {
                    assert(self@ =~= pre.update(i as int, out@));
                    assert forall|x: int, y: int| 0 <= x < y < self@.len() implies self@[x].id
                        < self@[y].id by {
                        assert(pre[x].id < pre[y].id);
                    }
                }
                Ok(out)
            },
        }
    }

    /// Delete by identifier, unconditional and idempotent to the caller: it
    /// removes the row carrying `id` if one exists, changes nothing
    /// otherwise, and reports success either way. Afterwards no row carries
    /// `id`, so a following `get(id)` reports `NotFound` and a second
    /// `delete(id)` finds nothing to remove and also succeeds.
    pub fn delete(&mut self, id: u128)
        requires
            old(self).wf(),
        ensures
            final(self).wf(),
            !contains_id(final(self)@, id as int),
            contains_id(old(self)@, id as int) ==> exists|i: int|
                {
                    &&& 0 <= i < old(self)@.len()
                    &&& #[trigger] old(self)@[i].id == id as int
                    &&& final(self)@ == old(self)@.remove(i)
                },
            !contains_id(old(self)@, id as int) ==> final(self)@ == old(self)@,
    {
        match self.find(id) {
            None => {
            },
            Some(i) => {
                let ghost pre = self@;
                self.rows.remove(i);
                proof {
                    assert(self@ =~= pre.remove(i as int));
                    assert forall|x: int, y: int| 0 <= x < y < self@.len() implies self@[x].id
                        < self@[y].id by {
                        if y < i {
                        } else if x < i {
                            assert(self@[y] == pre[y + 1]);
                            assert(pre[x].id < pre[y + 1].id);
                        } else {
                            assert(self@[x] == pre[x + 1] && self@[y] == pre[y + 1]);
                            assert(pre[x + 1].id < pre[y + 1].id);
                        }
                    }
                    lemma_removed_id_is_gone(pre, i as int, id as int);
                }
            },
        }
    }
}

} // verus!
