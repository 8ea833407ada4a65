use vstd::prelude::*;

verus! {

/// Mathematical view of a stored account row, all fields as plain values.
/// The 128-bit identifier is read as an integer, the monetary value is kept
/// in hundredths of the currency unit, and both timestamps are seconds since
/// the Unix epoch.
pub ghost struct AccountView {
    pub id: int,
    pub name: Seq<char>,
    pub value_cents: int,
    pub due_date: int,
    pub paid: bool,
    pub created_at: int,
}

/// A stored account record: a debt with a name, a monetary value, a due date
/// and a paid flag. `id` is assigned once at creation and never changes;
/// `created_at` is the server-assigned creation time, set exactly once.
#[derive(Debug)]
pub struct Account {
    pub id: u128,
    pub name: String,
    pub value_cents: i64,
    pub due_date: i64,
    pub paid: bool,
    pub created_at: i64,
}

impl View for Account {
    type V = AccountView;

    open spec fn view(&self) -> AccountView {
        AccountView {
            id: self.id as int,
            name: self.name@,
            value_cents: self.value_cents as int,
            due_date: self.due_date as int,
            paid: self.paid,
            created_at: self.created_at as int,
        }
    }
}

impl Clone for Account {
    /// Field-for-field copy; the store hands out copies of its rows.
    fn clone(&self) -> (r: Self)
        ensures
            r == *self,
    {
        Account {
            id: self.id,
            name: self.name.clone(),
            value_cents: self.value_cents,
            due_date: self.due_date,
            paid: self.paid,
            created_at: self.created_at,
        }
    }
}

/// The creation request: all fields of a new account except the identifier
/// and the creation time, which the store assigns. An absent `paid` defaults
/// to `false`.
#[derive(Debug)]
pub struct CreateAccountSchema {
    pub name: String,
    pub value_cents: i64,
    pub due_date: i64,
    pub paid: Option<bool>,
}

/// View of a creation request.
pub ghost struct CreateView {
    pub name: Seq<char>,
    pub value_cents: int,
    pub due_date: int,
    pub paid: Option<bool>,
}

impl View for CreateAccountSchema {
    type V = CreateView;

    open spec fn view(&self) -> CreateView {
        CreateView {
            name: self.name@,
            value_cents: self.value_cents as int,
            due_date: self.due_date as int,
            paid: self.paid,
        }
    }
}

/// The partial-update request: any subset of the mutable fields. An absent
/// field leaves the stored value unchanged (COALESCE semantics); it never
/// clears the field.
#[derive(Debug)]
pub struct UpdateAccountSchema {
    pub name: Option<String>,
    pub value_cents: Option<i64>,
    pub due_date: Option<i64>,
    pub paid: Option<bool>,
}

/// View of a partial-update request.
pub ghost struct UpdateView {
    pub name: Option<Seq<char>>,
    pub value_cents: Option<int>,
    pub due_date: Option<int>,
    pub paid: Option<bool>,
}

impl View for UpdateAccountSchema {
    type V = UpdateView;

    open spec fn view(&self) -> UpdateView {
        UpdateView {
            name: match self.name {
                Some(n) => Some(n@),
                None => None,
            },
            value_cents: match self.value_cents {
                Some(v) => Some(v as int),
                None => None,
            },
            due_date: match self.due_date {
                Some(d) => Some(d as int),
                None => None,
            },
            paid: self.paid,
        }
    }
}

/// Pagination and filter parameters of the list operation. `page` is 1-based;
/// absent values fall back to `limit = 10`, `page = 1`.
#[derive(Debug)]
pub struct FilterOptions {
    pub name: Option<String>,
    pub paid: Option<bool>,
    pub limit: Option<u32>,
    pub page: Option<u32>,
}

/// The `paid` flag a creation request asks for: its value when present,
/// `false` when absent.
pub open spec fn paid_or_false(p: Option<bool>) -> bool {
    match p {
        Some(b) => b,
        None => false,
    }
}

/// COALESCE merge of a partial update into a stored row: a present field of
/// the request replaces the stored one, an absent field keeps it; `id` and
/// `created_at` are never touched.
pub open spec fn merge_view(a: AccountView, p: UpdateView) -> AccountView {
    AccountView {
        id: a.id,
        name: match p.name {
            Some(n) => n,
            None => a.name,
        },
        value_cents: match p.value_cents {
            Some(v) => v,
            None => a.value_cents,
        },
        due_date: match p.due_date {
            Some(d) => d,
            None => a.due_date,
        },
        paid: match p.paid {
            Some(b) => b,
            None => a.paid,
        },
        created_at: a.created_at,
    }
}

/// A partial update that carries no `value`, `due_date` or `paid` (for
/// example one that only renames) leaves those stored fields, and the
/// immutable `id` and `created_at`, exactly as they were.
pub proof fn lemma_partial_update_preserves_absent_fields(a: AccountView, p: UpdateView)
    requires
        p.value_cents is None,
        p.due_date is None,
        p.paid is None,
    ensures
        merge_view(a, p).value_cents == a.value_cents,
        merge_view(a, p).due_date == a.due_date,
        merge_view(a, p).paid == a.paid,
        merge_view(a, p).id == a.id,
        merge_view(a, p).created_at == a.created_at,
{
}

/// Executable COALESCE merge, the exact computation `merge_view` describes.
pub fn apply_update(a: &Account, p: &UpdateAccountSchema) -> (r: Account)
    ensures
        r@ == merge_view(a@, p@),
{
    Account {
        id: a.id,
        name: match &p.name {
            Some(n) => n.clone(),
            None => a.name.clone(),
        },
        value_cents: match p.value_cents {
            Some(v) => v,
            None => a.value_cents,
        },
        due_date: match p.due_date {
            Some(d) => d,
            None => a.due_date,
        },
        paid: match p.paid {
            Some(b) => b,
            None => a.paid,
        },
        created_at: a.created_at,
    }
}

} // verus!
