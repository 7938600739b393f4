use pos_core::decimal::Dec;
use pos_core::domain::Product;
use pos_core::inventory::{check_inventory, SaleItemRequest};
use pos_core::PosError;

fn product(id: i32, stock: i32, is_active: bool) -> Product {
    Product {
        id,
        name: format!("product {}", id),
        category_id: None,
        code: format!("P{}", id),
        stock,
        is_active,
        price: Dec { mantissa: 5000, scale: 2 },
        cost: Dec { mantissa: 3000, scale: 2 },
        tax_rate: Dec { mantissa: 16, scale: 2 },
        updated_by: "seed".to_string(),
    }
}

fn line(product_id: i32, quantity: i32) -> SaleItemRequest {
    SaleItemRequest {
        product_id,
        quantity,
        unit_price: Dec { mantissa: 5000, scale: 2 },
        tax_rate: Dec { mantissa: 16, scale: 2 },
    }
}

#[test]
fn a_covered_request_passes() {
    let products = vec![product(1, 10, true), product(2, 3, true)];
    let items = vec![line(1, 7), line(2, 3)];
    assert!(check_inventory(&products, &items).is_ok());
}

#[test]
fn an_unknown_product_fails() {
    let products = vec![product(1, 10, true)];
    let items = vec![line(9, 1)];
    assert_eq!(
        check_inventory(&products, &items).unwrap_err(),
        PosError::ProductNotFound { product_id: 9 }
    );
}

#[test]
fn an_inactive_product_fails() {
    let products = vec![product(1, 10, false)];
    let items = vec![line(1, 1)];
    assert_eq!(
        check_inventory(&products, &items).unwrap_err(),
        PosError::ProductInactive { product_id: 1 }
    );
}

#[test]
fn a_zero_quantity_fails() {
    let products = vec![product(1, 10, true)];
    let items = vec![line(1, 0)];
    assert_eq!(
        check_inventory(&products, &items).unwrap_err(),
        PosError::InvalidQuantity { product_id: 1 }
    );
}

#[test]
fn a_negative_quantity_fails() {
    let products = vec![product(1, 10, true)];
    let items = vec![line(1, -3)];
    assert_eq!(
        check_inventory(&products, &items).unwrap_err(),
        PosError::InvalidQuantity { product_id: 1 }
    );
}

#[test]
fn insufficient_stock_reports_available_and_requested() {
    let products = vec![product(1, 5, true)];
    let items = vec![line(1, 8)];
    assert_eq!(
        check_inventory(&products, &items).unwrap_err(),
        PosError::InsufficientStock { product_id: 1, available: 5, requested: 8 }
    );
}

#[test]
fn demand_accumulates_over_repeated_lines() {
    // Each line alone is covered, but together they are not: the guard
    // rejects at the second line, before anything could be mutated.
    let products = vec![product(1, 10, true)];
    let items = vec![line(1, 7), line(1, 7)];
    assert_eq!(
        check_inventory(&products, &items).unwrap_err(),
        PosError::InsufficientStock { product_id: 1, available: 10, requested: 14 }
    );
}

#[test]
fn the_first_failing_line_decides() {
    let products = vec![product(1, 10, true), product(2, 1, false)];
    let items = vec![line(1, 2), line(2, 1), line(9, 1)];
    assert_eq!(
        check_inventory(&products, &items).unwrap_err(),
        PosError::ProductInactive { product_id: 2 }
    );
}

#[test]
fn an_empty_request_passes_the_guard() {
    // The guard itself accepts an empty request; rejecting empty sales is
    // the orchestrator's first own check.
    let products = vec![product(1, 10, true)];
    let items: Vec<SaleItemRequest> = vec![];
    assert!(check_inventory(&products, &items).is_ok());
}

#[test]
fn a_huge_cumulative_demand_reports_a_clamped_request() {
    // Two maximal lines overflow the i32 range when added; the reported
    // requested quantity clamps instead of wrapping.
    let products = vec![product(1, i32::MAX, true)];
    let items = vec![line(1, i32::MAX), line(1, i32::MAX)];
    assert_eq!(
        check_inventory(&products, &items).unwrap_err(),
        PosError::InsufficientStock { product_id: 1, available: i32::MAX, requested: i32::MAX }
    );
}

#[test]
fn the_guard_is_idempotent_on_an_unmutated_state() {
    let products = vec![product(1, 5, true), product(2, 0, true)];
    let cases = vec![
        vec![line(1, 5)],
        vec![line(1, 6)],
        vec![line(2, 1)],
        vec![line(1, 2), line(1, 2), line(1, 2)],
        vec![line(9, 1)],
    ];
    for items in cases {
        let first = check_inventory(&products, &items);
        let again = check_inventory(&products, &items);
        assert_eq!(first, again);
    }
}
