use vstd::prelude::*;

verus! {

/// The closed taxonomy of errors this core can surface. Validation errors
/// (permission, payment method, inventory) are detected before any mutation;
/// `TransactionFailed` stands for a failure of the mutating phase itself,
/// which leaves no partial state behind.
#[derive(Clone, Copy, Debug, PartialEq, Eq, Structural)]
pub enum PosError {
    /// A session is already active; `login` never silently replaces it.
    AlreadyLogged,
    /// No session is active.
    NotLogged,
    /// Unknown username or wrong password: deliberately the same error for
    /// both, so a caller cannot learn which half of the pair was wrong.
    InvalidCredentials,
    /// The user or its profile is inactive.
    AccountInactive,
    /// The session lacks the required permission code.
    PermissionDenied,
    /// The requested payment method does not exist.
    InvalidPaymentMethod,
    /// The requested payment method is not active.
    PaymentMethodInactive,
    /// A sale must carry at least one line item.
    EmptySale,
    /// A line item names a product that does not exist.
    ProductNotFound { product_id: i32 },
    /// A line item names a product that is not active.
    ProductInactive { product_id: i32 },
    /// A line item carries a quantity that is not positive.
    InvalidQuantity { product_id: i32 },
    /// The product's stock cannot cover the quantity the sale requests
    /// from it; `available` is the current stock, `requested` the total
    /// quantity the sale asks of this product up to this line.
    InsufficientStock { product_id: i32, available: i32, requested: i32 },
    /// The mutating phase could not commit; no partial state remains.
    TransactionFailed,
}

impl PosError {
    /// The single human-readable message for each error. Credential-related
    /// errors are deliberately uninformative about which part was wrong.
    pub fn message(&self) -> (r: &'static str)
        ensures
            r@ == self.message_spec(),
    {
        match self {
            PosError::AlreadyLogged => "a session is already active; log out first",
            PosError::NotLogged => "no session is active; log in first",
            PosError::InvalidCredentials => "invalid username or password",
            PosError::AccountInactive => "the account is inactive; contact an administrator",
            PosError::PermissionDenied => "the session lacks permission for this action",
            PosError::InvalidPaymentMethod => "the payment method is not valid",
            PosError::PaymentMethodInactive => "the payment method is not available",
            PosError::EmptySale => "a sale must contain at least one product",
            PosError::ProductNotFound { .. } => "a requested product was not found",
            PosError::ProductInactive { .. } => "a requested product is not available",
            PosError::InvalidQuantity { .. } => "quantities must be positive",
            PosError::InsufficientStock { .. } => "insufficient stock for a requested product",
            PosError::TransactionFailed => "the transaction could not be completed",
        }
    }

    /// What `message` returns, as a function of the variant alone: two
    /// errors of the same variant always carry the identical message.
    pub open spec fn message_spec(&self) -> Seq<char> {
        match self {
            PosError::AlreadyLogged => "a session is already active; log out first"@,
            PosError::NotLogged => "no session is active; log in first"@,
            PosError::InvalidCredentials => "invalid username or password"@,
            PosError::AccountInactive => "the account is inactive; contact an administrator"@,
            PosError::PermissionDenied => "the session lacks permission for this action"@,
            PosError::InvalidPaymentMethod => "the payment method is not valid"@,
            PosError::PaymentMethodInactive => "the payment method is not available"@,
            PosError::EmptySale => "a sale must contain at least one product"@,
            PosError::ProductNotFound { .. } => "a requested product was not found"@,
            PosError::ProductInactive { .. } => "a requested product is not available"@,
            PosError::InvalidQuantity { .. } => "quantities must be positive"@,
            PosError::InsufficientStock { .. } => "insufficient stock for a requested product"@,
            PosError::TransactionFailed => "the transaction could not be completed"@,
        }
    }
}

} // verus!
