//! The inventory guard: the eager, all-or-nothing pre-check of every line
//! item of a sale request against the current product state, evaluated in
//! full before the transaction mutates anything.
//!
//! Quantities of lines naming the same product accumulate: a line fails
//! `InsufficientStock` when the stock cannot cover the total quantity the
//! request asks of that product up to and including that line. This is what
//! keeps stock from ever being driven negative by a request that spreads one
//! product over several lines.

use vstd::prelude::*;

use crate::decimal::Dec;
use crate::domain::Product;
use crate::errors::PosError;
use crate::store::{find_product, find_product_from};

verus! {

/// One line of a sale request: a product, a quantity, and the unit price
/// and tax fraction the sale was quoted at.
#[derive(Clone, Copy, Debug, PartialEq, Eq, Structural)]
pub struct SaleItemRequest {
    pub product_id: i32,
    pub quantity: i32,
    pub unit_price: Dec,
    pub tax_rate: Dec,
}

/// Total quantity of product `id` requested by the lines before index `i`.
pub open spec fn qty_prefix(items: Seq<SaleItemRequest>, id: i32, i: int) -> int
    decreases i,
{
    if i <= 0 || i > items.len() {
        0
    } else {
        qty_prefix(items, id, i - 1) + if items[i - 1].product_id == id {
            items[i - 1].quantity as int
        } else {
            0
        }
    }
}

/// Total quantity of product `id` the whole request asks for.
pub open spec fn qty_total(items: Seq<SaleItemRequest>, id: i32) -> int {
    qty_prefix(items, id, items.len() as int)
}

/// `x` clamped into the `i32` range.
pub open spec fn clamp_i32(x: int) -> i32 {
    if x > i32::MAX {
        i32::MAX
    } else if x < i32::MIN {
        i32::MIN
    } else {
        x as i32
    }
}

/// The guard's verdict from line `i` on: the error of the first failing
/// line, or `None` when every remaining line passes. Per line, in this
/// order: the product must exist, must be active, the quantity must be
/// positive, and the stock must cover the cumulative quantity requested of
/// the product through this line.
pub open spec fn guard_from(products: Seq<Product>, items: Seq<SaleItemRequest>, i: int) -> Option<
    PosError,
>
    decreases items.len() - i,
{
    if i < 0 || i >= items.len() {
        None
    } else {
        let it = items[i];
        match find_product(products, it.product_id) {
            None => Some(PosError::ProductNotFound { product_id: it.product_id }),
            Some(j) => {
                if !products[j].is_active {
                    Some(PosError::ProductInactive { product_id: it.product_id })
                } else if it.quantity <= 0 {
                    Some(PosError::InvalidQuantity { product_id: it.product_id })
                } else if (products[j].stock as int) < qty_prefix(items, it.product_id, i + 1) {
                    Some(
                        PosError::InsufficientStock {
                            product_id: it.product_id,
                            available: products[j].stock,
                            requested: clamp_i32(qty_prefix(items, it.product_id, i + 1)),
                        },
                    )
                } else {
                    guard_from(products, items, i + 1)
                }
            },
        }
    }
}

/// The guard's verdict on the whole request: a pure function of the product
/// state and the requested lines, and of nothing else.
pub open spec fn inventory_verdict(
    products: Seq<Product>,
    items: Seq<SaleItemRequest>,
) -> Option<PosError> {
    guard_from(products, items, 0)
}

/// What passing the guard means for the line at `i`: its product exists and
/// is active, its quantity is positive, and the stock covers the cumulative
/// demand on that product through this line.
pub open spec fn line_ok(products: Seq<Product>, items: Seq<SaleItemRequest>, i: int) -> bool {
    let it = items[i];
    match find_product(products, it.product_id) {
        None => false,
        Some(j) => {
            &&& products[j].is_active
            &&& it.quantity > 0
            &&& qty_prefix(items, it.product_id, i + 1) <= products[j].stock
        },
    }
}

proof fn lemma_guard_ok_from(products: Seq<Product>, items: Seq<SaleItemRequest>, k: int, i: int)
    requires
        guard_from(products, items, k) is None,
        0 <= k <= i < items.len(),
    ensures
        line_ok(products, items, i),
    decreases i - k,
{
    if k < i {
        lemma_guard_ok_from(products, items, k + 1, i);
    }
}

/// A request the guard passes satisfies `line_ok` at every line.
pub proof fn lemma_guard_ok(products: Seq<Product>, items: Seq<SaleItemRequest>, i: int)
    requires
        inventory_verdict(products, items) is None,
        0 <= i < items.len(),
    ensures
        line_ok(products, items, i),
{
    lemma_guard_ok_from(products, items, 0, i);
}

/// When the quantity of every line before `i` is positive, the cumulative
/// demand on any product through those lines is not negative.
pub proof fn lemma_qty_prefix_nonneg(items: Seq<SaleItemRequest>, id: i32, i: int)
    requires
        forall|k: int| 0 <= k < i ==> items[k].quantity > 0,
    ensures
        qty_prefix(items, id, i) >= 0,
    decreases i,
{
    if i > 0 {
        lemma_qty_prefix_nonneg(items, id, i - 1);
    }
}

/// Lines in `[a, b)` that do not name `id` leave its cumulative demand as is.
pub proof fn lemma_qty_prefix_stable(items: Seq<SaleItemRequest>, id: i32, a: int, b: int)
    requires
        0 <= a <= b <= items.len(),
        forall|k: int| a <= k < b ==> items[k].product_id != id,
    ensures
        qty_prefix(items, id, b) == qty_prefix(items, id, a),
    decreases b - a,
{
    if a < b {
        lemma_qty_prefix_stable(items, id, a, b - 1);
    }
}

/// A request the guard passes never asks more of a product than its stock:
/// the total demand on the product at `products[j]` is covered (it is zero
/// when no line names the product).
pub proof fn lemma_guard_total(products: Seq<Product>, items: Seq<SaleItemRequest>, j: int)
    requires
        inventory_verdict(products, items) is None,
        0 <= j < products.len(),
        find_product(products, products[j].id) == Some(j),
    ensures
        qty_total(items, products[j].id) <= products[j].stock || qty_total(
            items,
            products[j].id,
        ) == 0,
{
    let id = products[j].id;
    let n = items.len() as int;
    lemma_guard_last_naming(products, items, id, n);
    if forall|k: int| 0 <= k < n ==> items[k].product_id != id {
        lemma_qty_prefix_stable(items, id, 0, n);
    } else {
        let l = choose|l: int|
            0 <= l < n && items[l].product_id == id && qty_prefix(items, id, n) == qty_prefix(
                items,
                id,
                l + 1,
            );
        lemma_guard_ok(products, items, l);
    }
}

/// Either no line before `m` names `id`, or some line `l` before `m` does
/// and the demand through `m` equals the demand through `l + 1`.
proof fn lemma_guard_last_naming(
    products: Seq<Product>,
    items: Seq<SaleItemRequest>,
    id: i32,
    m: int,
)
    requires
        0 <= m <= items.len(),
    ensures
        (forall|k: int| 0 <= k < m ==> items[k].product_id != id) || exists|l: int|
            0 <= l < m && items[l].product_id == id && qty_prefix(items, id, m) == qty_prefix(
                items,
                id,
                l + 1,
            ),
    decreases m,
{
    if m > 0 {
        lemma_guard_last_naming(products, items, id, m - 1);
        if items[m - 1].product_id == id {
            assert(qty_prefix(items, id, m) == qty_prefix(items, id, (m - 1) + 1));
        } else {
            assert(qty_prefix(items, id, m) == qty_prefix(items, id, m - 1));
        }
    }
}

/// Checking a request twice against one product state cannot disagree with
/// itself: the guard reads nothing but its two arguments.
pub proof fn lemma_guard_idempotent(
    products_then: Seq<Product>,
    products_again: Seq<Product>,
    items_then: Seq<SaleItemRequest>,
    items_again: Seq<SaleItemRequest>,
)
    requires
        products_then == products_again,
        items_then == items_again,
    ensures
        inventory_verdict(products_then, items_then) == inventory_verdict(
            products_again,
            items_again,
        ),
{
}

/// The inventory guard: checks every line of the request, in order, against
/// the current product state, and reports the first failure without having
/// mutated anything.
pub fn check_inventory(products: &Vec<Product>, items: &Vec<SaleItemRequest>) -> (r: Result<
    (),
    PosError,
>)
    ensures
        match r {
            Ok(()) => inventory_verdict(products@, items@) is None,
            Err(e) => inventory_verdict(products@, items@) == Some(e),
        },
{
    let n = items.len();
    let mut i: usize = 0;
    while i < n
        invariant
            i <= n == items@.len(),
            inventory_verdict(products@, items@) == guard_from(products@, items@, i as int),
            forall|k: int| 0 <= k < i ==> items@[k].quantity > 0,
        decreases n - i,
    {
        let it = items[i];
        match find_product_slice(products, it.product_id) {
            None => {
                return Err(PosError::ProductNotFound { product_id: it.product_id });
            },
            Some(j) => {
                if !products[j].is_active {
                    return Err(PosError::ProductInactive { product_id: it.product_id });
                }
                if it.quantity <= 0 {
                    return Err(PosError::InvalidQuantity { product_id: it.product_id });
                }
                let demanded = cumulative_quantity(items, it.product_id, i + 1);
                proof {
                    lemma_qty_prefix_nonneg(items@, it.product_id, i as int);
                }
                if (products[j].stock as i128) < demanded {
                    let requested: i32 = if demanded > i32::MAX as i128 {
                        i32::MAX
                    } else {
                        demanded as i32
                    };
                    proof {
                        assert(requested == clamp_i32(qty_prefix(items@, it.product_id, i + 1)));
                    }
                    return Err(
                        PosError::InsufficientStock {
                            product_id: it.product_id,
                            available: products[j].stock,
                            requested,
                        },
                    );
                }
            },
        }
        i = i + 1;
    }
    Ok(())
}

/// Index of the first product with the given id, over a bare product table.
fn find_product_slice(products: &Vec<Product>, id: i32) -> (r: Option<usize>)
    ensures
        match r {
            Some(j) => j < products@.len() && find_product(products@, id) == Some(j as int),
            None => find_product(products@, id) is None,
        },
{
    let n = products.len();
    let mut i: usize = 0;
    while i < n
        invariant
            i <= n == products@.len(),
            find_product(products@, id) == find_product_from(products@, id, i as int),
        decreases n - i,
    {
        if products[i].id == id {
            return Some(i);
        }
        i = i + 1;
    }
    None
}

/// The cumulative quantity of product `id` over the first `count` lines.
fn cumulative_quantity(items: &Vec<SaleItemRequest>, id: i32, count: usize) -> (r: i128)
    requires
        count <= items@.len(),
    ensures
        r == qty_prefix(items@, id, count as int),
{
    let mut acc: i128 = 0;
    let mut k: usize = 0;
    while k < count
        invariant
            k <= count <= items@.len(),
            acc == qty_prefix(items@, id, k as int),
            -(k as int) * 0x8000_0000 <= acc <= (k as int) * 0x8000_0000,
        decreases count - k,
    {
        if items[k].product_id == id {
            acc = acc + items[k].quantity as i128;
        }
        k = k + 1;
    }
    acc
}

} // verus!
