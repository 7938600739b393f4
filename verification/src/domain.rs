//! The records of the relational store that this core reads and writes:
//! users, profiles, permissions, products, payment methods, and the three
//! tables a sale writes atomically.

use vstd::prelude::*;

use crate::decimal::Dec;

verus! {

/// A stored user account. `password_hash` holds a bcrypt digest, never a
/// plain password. A user must reference an existing, active profile to be
/// able to authenticate; inactive users cannot authenticate at all.
#[derive(Clone, Debug)]
pub struct UserRecord {
    pub id: String,
    pub username: String,
    pub email: String,
    pub password_hash: String,
    pub first_name: String,
    pub last_name: String,
    pub profile_id: i32,
    pub is_active: bool,
    pub created_by: String,
    pub updated_by: String,
    pub created_at: String,
    pub updated_at: String,
}

/// A profile: the role a user acts under. A profile owns a set of
/// permissions through `ProfilePermission` rows and must be active for its
/// users to authenticate.
#[derive(Clone, Debug)]
pub struct Profile {
    pub id: i32,
    pub name: String,
    pub description: String,
    pub is_active: bool,
}

/// Immutable reference data: a capability, identified by its unique `code`
/// (for example `sales.create`).
#[derive(Clone, Debug)]
pub struct Permission {
    pub id: i32,
    pub code: String,
    pub name: String,
    pub module: String,
}

/// One row of the profile-to-permission many-to-many assignment.
#[derive(Clone, Copy, Debug, PartialEq, Eq, Structural)]
pub struct ProfilePermission {
    pub profile_id: i32,
    pub permission_id: i32,
}

/// A stored product. Invariant kept by this core: `stock` is never driven
/// negative — a sale that would do so is rejected before any mutation. The
/// only writer of `stock` in this core is the sale transaction.
#[derive(Clone, Debug)]
pub struct Product {
    pub id: i32,
    pub name: String,
    pub category_id: Option<i32>,
    pub code: String,
    pub stock: i32,
    pub is_active: bool,
    pub price: Dec,
    pub cost: Dec,
    pub tax_rate: Dec,
    pub updated_by: String,
}

/// A stored payment method; only active methods may pay for a sale.
#[derive(Clone, Debug)]
pub struct PaymentMethod {
    pub id: i32,
    pub name: String,
    pub sat_key: String,
    pub is_active: bool,
}

/// A sale header. Created exactly once per checkout, atomically with its
/// details and payment; immutable thereafter within this core.
#[derive(Clone, Debug)]
pub struct Sale {
    pub id: String,
    pub subtotal: Dec,
    pub total: Dec,
    pub status: bool,
    pub created_at: String,
    pub updated_at: String,
    pub created_by: String,
    pub updated_by: String,
}

/// One line item of a sale. `subtotal = quantity * unit_price`,
/// `tax_amount = subtotal * tax_rate`, `total = subtotal + tax_amount`,
/// all exact.
#[derive(Clone, Debug)]
pub struct SaleDetail {
    pub sale_id: String,
    pub product_id: i32,
    pub quantity: i32,
    pub unit_price: Dec,
    pub subtotal: Dec,
    pub tax_rate: Dec,
    pub tax_amount: Dec,
    pub total: Dec,
}

/// The payment of a sale: exactly one per sale in this core's flow, always
/// for the sale's full total.
#[derive(Clone, Debug)]
pub struct SalePayment {
    pub sale_id: String,
    pub payment_method_id: i32,
    pub amount: Dec,
}

} // verus!
