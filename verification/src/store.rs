//! An in-memory model of the relational store: one `Vec` per table, with the
//! uniqueness of the primary keys as its well-formedness invariant. The
//! transaction logic of this core is specified and verified against this
//! model; persisting it is the embedding application's concern.

use vstd::prelude::*;

use crate::domain::{
    PaymentMethod, Permission, Product, Profile, ProfilePermission, Sale, SaleDetail, SalePayment,
    UserRecord,
};

verus! {

/// The tables this core touches.
pub struct Store {
    pub users: Vec<UserRecord>,
    pub profiles: Vec<Profile>,
    pub permissions: Vec<Permission>,
    pub profile_permissions: Vec<ProfilePermission>,
    pub products: Vec<Product>,
    pub payment_methods: Vec<PaymentMethod>,
    pub sales: Vec<Sale>,
    pub sale_details: Vec<SaleDetail>,
    pub sale_payments: Vec<SalePayment>,
}

/// Index of the first product with the given id, searching from `i` on.
pub open spec fn find_product_from(products: Seq<Product>, id: i32, i: int) -> Option<int>
    decreases products.len() - i,
{
    if i < 0 || i >= products.len() {
        None
    } else if products[i].id == id {
        Some(i)
    } else {
        find_product_from(products, id, i + 1)
    }
}

/// Index of the first product with the given id, if any.
pub open spec fn find_product(products: Seq<Product>, id: i32) -> Option<int> {
    find_product_from(products, id, 0)
}

/// Index of the first payment method with the given id, searching from `i`.
pub open spec fn find_method_from(methods: Seq<PaymentMethod>, id: i32, i: int) -> Option<int>
    decreases methods.len() - i,
{
    if i < 0 || i >= methods.len() {
        None
    } else if methods[i].id == id {
        Some(i)
    } else {
        find_method_from(methods, id, i + 1)
    }
}

/// Index of the first payment method with the given id, if any.
pub open spec fn find_method(methods: Seq<PaymentMethod>, id: i32) -> Option<int> {
    find_method_from(methods, id, 0)
}

/// Index of the first user with the given username, searching from `i`.
pub open spec fn find_user_from(users: Seq<UserRecord>, username: Seq<char>, i: int) -> Option<int>
    decreases users.len() - i,
{
    if i < 0 || i >= users.len() {
        None
    } else if users[i].username@ == username {
        Some(i)
    } else {
        find_user_from(users, username, i + 1)
    }
}

/// Index of the first user with the given username, if any.
pub open spec fn find_user(users: Seq<UserRecord>, username: Seq<char>) -> Option<int> {
    find_user_from(users, username, 0)
}

/// Index of the first profile with the given id, searching from `i`.
pub open spec fn find_profile_from(profiles: Seq<Profile>, id: i32, i: int) -> Option<int>
    decreases profiles.len() - i,
{
    if i < 0 || i >= profiles.len() {
        None
    } else if profiles[i].id == id {
        Some(i)
    } else {
        find_profile_from(profiles, id, i + 1)
    }
}

/// Index of the first profile with the given id, if any.
pub open spec fn find_profile(profiles: Seq<Profile>, id: i32) -> Option<int> {
    find_profile_from(profiles, id, 0)
}

/// Index of the first permission with the given id, searching from `i`.
pub open spec fn find_permission_from(
    permissions: Seq<Permission>,
    id: i32,
    i: int,
) -> Option<int>
    decreases permissions.len() - i,
{
    if i < 0 || i >= permissions.len() {
        None
    } else if permissions[i].id == id {
        Some(i)
    } else {
        find_permission_from(permissions, id, i + 1)
    }
}

/// Index of the first permission with the given id, if any.
pub open spec fn find_permission(permissions: Seq<Permission>, id: i32) -> Option<int> {
    find_permission_from(permissions, id, 0)
}

/// A found index is in range, carries the id sought, and is found again in
/// any table whose rows carry the same ids.
pub proof fn lemma_find_product_found(products: Seq<Product>, id: i32, i: int)
    requires
        find_product_from(products, id, i) is Some,
    ensures
        i <= find_product_from(products, id, i)->0 < products.len(),
        products[find_product_from(products, id, i)->0].id == id,
    decreases products.len() - i,
{
    if 0 <= i < products.len() && products[i].id != id {
        lemma_find_product_found(products, id, i + 1);
    }
}

/// Finding a product looks only at the ids: two tables with the same ids
/// row by row agree on every lookup.
pub proof fn lemma_find_product_same(p1: Seq<Product>, p2: Seq<Product>, id: i32, i: int)
    requires
        p1.len() == p2.len(),
        forall|j: int| 0 <= j < p1.len() ==> p1[j].id == p2[j].id,
    ensures
        find_product_from(p1, id, i) == find_product_from(p2, id, i),
    decreases p1.len() - i,
{
    if 0 <= i < p1.len() && p1[i].id != id {
        lemma_find_product_same(p1, p2, id, i + 1);
    }
}

proof fn lemma_find_product_reaches(products: Seq<Product>, i: int, j: int)
    requires
        0 <= i <= j < products.len(),
    ensures
        find_product_from(products, products[j].id, i) is Some,
        find_product_from(products, products[j].id, i)->0 <= j,
    decreases j - i,
{
    if products[i].id != products[j].id {
        lemma_find_product_reaches(products, i + 1, j);
    }
}

/// In a table with unique ids, looking a row's own id up finds that row.
pub proof fn lemma_find_product_self(products: Seq<Product>, j: int)
    requires
        0 <= j < products.len(),
        forall|j1: int, j2: int|
            0 <= j1 < j2 < products.len() ==> products[j1].id != products[j2].id,
    ensures
        find_product(products, products[j].id) == Some(j),
{
    lemma_find_product_reaches(products, 0, j);
    lemma_find_product_found(products, products[j].id, 0);
    let f = find_product(products, products[j].id)->0;
    if f < j {
        assert(products[f].id != products[j].id);
    }
}

/// Whether some sale already carries this id.
pub open spec fn sale_id_taken(sales: Seq<Sale>, id: Seq<char>) -> bool {
    exists|j: int| 0 <= j < sales.len() && sales[j].id@ == id
}

/// The permission codes a profile owns: for each assignment row naming the
/// profile (in table order), the code of the permission it points to, when
/// that permission exists. This is the prefix of the full walk starting at
/// assignment row `i`.
pub open spec fn profile_codes_from(
    assignments: Seq<ProfilePermission>,
    permissions: Seq<Permission>,
    profile_id: i32,
    i: int,
) -> Seq<String>
    decreases assignments.len() - i,
{
    if i < 0 || i >= assignments.len() {
        Seq::empty()
    } else {
        let rest = profile_codes_from(assignments, permissions, profile_id, i + 1);
        if assignments[i].profile_id == profile_id {
            match find_permission(permissions, assignments[i].permission_id) {
                Some(j) => seq![permissions[j].code] + rest,
                None => rest,
            }
        } else {
            rest
        }
    }
}

/// The permission codes a profile owns.
pub open spec fn profile_codes(
    assignments: Seq<ProfilePermission>,
    permissions: Seq<Permission>,
    profile_id: i32,
) -> Seq<String> {
    profile_codes_from(assignments, permissions, profile_id, 0)
}

/// Primary keys are unique. The sale transaction both relies on this and
/// preserves it.
pub open spec fn store_wf(s: Store) -> bool {
    &&& (forall|j1: int, j2: int|
        0 <= j1 < j2 < s.products@.len() ==> s.products@[j1].id != s.products@[j2].id)
    &&& (forall|j1: int, j2: int|
        0 <= j1 < j2 < s.payment_methods@.len() ==> s.payment_methods@[j1].id
            != s.payment_methods@[j2].id)
    &&& (forall|j1: int, j2: int|
        0 <= j1 < j2 < s.sales@.len() ==> s.sales@[j1].id@ != s.sales@[j2].id@)
}

/// No product's stock is negative.
pub open spec fn stocks_nonneg(products: Seq<Product>) -> bool {
    forall|j: int| 0 <= j < products.len() ==> products[j].stock >= 0
}

impl Store {
    /// An empty store.
    pub fn new() -> (r: Store)
        ensures
            r.users@.len() == 0,
            r.profiles@.len() == 0,
            r.permissions@.len() == 0,
            r.profile_permissions@.len() == 0,
            r.products@.len() == 0,
            r.payment_methods@.len() == 0,
            r.sales@.len() == 0,
            r.sale_details@.len() == 0,
            r.sale_payments@.len() == 0,
            store_wf(r),
    {
        Store {
            users: Vec::new(),
            profiles: Vec::new(),
            permissions: Vec::new(),
            profile_permissions: Vec::new(),
            products: Vec::new(),
            payment_methods: Vec::new(),
            sales: Vec::new(),
            sale_details: Vec::new(),
            sale_payments: Vec::new(),
        }
    }

    /// Index of the first product with the given id.
    pub fn find_product_index(&self, id: i32) -> (r: Option<usize>)
        ensures
            match r {
                Some(j) => j < self.products@.len() && find_product(self.products@, id) == Some(j as int),
                None => find_product(self.products@, id) is None,
            },
    {
        let n = self.products.len();
        let mut i: usize = 0;
        while i < n
            invariant
                i <= n == self.products@.len(),
                find_product(self.products@, id) == find_product_from(self.products@, id, i as int),
            decreases n - i,
        {
            if self.products[i].id == id {
                return Some(i);
            }
            i = i + 1;
        }
        None
    }

    /// Index of the first payment method with the given id.
    pub fn find_method_index(&self, id: i32) -> (r: Option<usize>)
        ensures
            match r {
                Some(j) => j < self.payment_methods@.len() && find_method(self.payment_methods@, id) == Some(j as int),
                None => find_method(self.payment_methods@, id) is None,
            },
    {
        let n = self.payment_methods.len();
        let mut i: usize = 0;
        while i < n
            invariant
                i <= n == self.payment_methods@.len(),
                find_method(self.payment_methods@, id) == find_method_from(
                    self.payment_methods@,
                    id,
                    i as int,
                ),
            decreases n - i,
        {
            if self.payment_methods[i].id == id {
                return Some(i);
            }
            i = i + 1;
        }
        None
    }

    /// Index of the first user with the given username.
    pub fn find_user_index(&self, username: &String) -> (r: Option<usize>)
        ensures
            match r {
                Some(j) => j < self.users@.len() && find_user(self.users@, username@) == Some(j as int),
                None => find_user(self.users@, username@) is None,
            },
    {
        let n = self.users.len();
        let mut i: usize = 0;
        while i < n
            invariant
                i <= n == self.users@.len(),
                find_user(self.users@, username@) == find_user_from(
                    self.users@,
                    username@,
                    i as int,
                ),
            decreases n - i,
        {
            if self.users[i].username == *username {
                return Some(i);
            }
            i = i + 1;
        }
        None
    }

    /// Index of the first profile with the given id.
    pub fn find_profile_index(&self, id: i32) -> (r: Option<usize>)
        ensures
            match r {
                Some(j) => j < self.profiles@.len() && find_profile(self.profiles@, id) == Some(j as int),
                None => find_profile(self.profiles@, id) is None,
            },
    {
        let n = self.profiles.len();
        let mut i: usize = 0;
        while i < n
            invariant
                i <= n == self.profiles@.len(),
                find_profile(self.profiles@, id) == find_profile_from(
                    self.profiles@,
                    id,
                    i as int,
                ),
            decreases n - i,
        {
            if self.profiles[i].id == id {
                return Some(i);
            }
            i = i + 1;
        }
        None
    }

    /// Index of the first permission with the given id.
    pub fn find_permission_index(&self, id: i32) -> (r: Option<usize>)
        ensures
            match r {
                Some(j) => j < self.permissions@.len() && find_permission(self.permissions@, id) == Some(j as int),
                None => find_permission(self.permissions@, id) is None,
            },
    {
        let n = self.permissions.len();
        let mut i: usize = 0;
        while i < n
            invariant
                i <= n == self.permissions@.len(),
                find_permission(self.permissions@, id) == find_permission_from(
                    self.permissions@,
                    id,
                    i as int,
                ),
            decreases n - i,
        {
            if self.permissions[i].id == id {
                return Some(i);
            }
            i = i + 1;
        }
        None
    }

    /// Whether some sale already carries this id.
    pub fn sale_id_exists(&self, id: &String) -> (r: bool)
        ensures
            r == sale_id_taken(self.sales@, id@),
    {
        let n = self.sales.len();
        let mut i: usize = 0;
        while i < n
            invariant
                i <= n == self.sales@.len(),
                forall|j: int| 0 <= j < i ==> self.sales@[j].id@ != id@,
            decreases n - i,
        {
            if self.sales[i].id == *id {
                return true;
            }
            i = i + 1;
        }
        false
    }

    /// All permission codes the profile owns, copied out in table order.
    pub fn codes_for_profile(&self, profile_id: i32) -> (r: Vec<String>)
        ensures
            r@ == profile_codes(self.profile_permissions@, self.permissions@, profile_id),
    {
        let n = self.profile_permissions.len();
        let mut out: Vec<String> = Vec::new();
        let mut i: usize = 0;
        while i < n
            invariant
                i <= n == self.profile_permissions@.len(),
                out@ + profile_codes_from(
                    self.profile_permissions@,
                    self.permissions@,
                    profile_id,
                    i as int,
                ) == profile_codes(self.profile_permissions@, self.permissions@, profile_id),
            decreases n - i,
        {
            let row = self.profile_permissions[i];
            if row.profile_id == profile_id {
                match self.find_permission_index(row.permission_id) {
                    Some(j) => {
                        let code = self.permissions[j].code.clone();
                        proof {
                            assert(profile_codes_from(
                                self.profile_permissions@,
                                self.permissions@,
                                profile_id,
                                i as int,
                            ) == seq![self.permissions@[j as int].code] + profile_codes_from(
                                self.profile_permissions@,
                                self.permissions@,
                                profile_id,
                                i as int + 1,
                            ));
                        }
                        out.push(code);
                        proof {
                            assert(out@ + profile_codes_from(
                                self.profile_permissions@,
                                self.permissions@,
                                profile_id,
                                i as int + 1,
                            ) =~= profile_codes(
                                self.profile_permissions@,
                                self.permissions@,
                                profile_id,
                            ));
                        }
                    },
                    None => {
                    },
                }
            }
            i = i + 1;
        }
        proof {
            assert(out@ + profile_codes_from(
                self.profile_permissions@,
                self.permissions@,
                profile_id,
                n as int,
            ) =~= out@);
        }
        out
    }
}

} // verus!
