use pos_core::decimal::Dec;
use pos_core::domain::{PaymentMethod, Product};
use pos_core::inventory::SaleItemRequest;
use pos_core::sales::{
    compute_line, create_sale, create_sale_with_id, get_payment_methods, request_balances,
    sum_of_line_totals, CreateSaleRequest,
};
use pos_core::session::{Session, SessionStore};
use pos_core::store::Store;
use pos_core::PosError;

fn product(id: i32, stock: i32, is_active: bool) -> Product {
    Product {
        id,
        name: format!("product {}", id),
        category_id: Some(1),
        code: format!("P{}", id),
        stock,
        is_active,
        price: Dec { mantissa: 5000, scale: 2 },
        cost: Dec { mantissa: 3000, scale: 2 },
        tax_rate: Dec { mantissa: 16, scale: 2 },
        updated_by: "seed".to_string(),
    }
}

fn seeded_store() -> Store {
    let mut store = Store::new();
    store.products.push(product(1, 10, true));
    store.products.push(product(2, 5, true));
    store.products.push(product(3, 5, false));
    store.payment_methods.push(PaymentMethod {
        id: 1,
        name: "cash".to_string(),
        sat_key: "01".to_string(),
        is_active: true,
    });
    store.payment_methods.push(PaymentMethod {
        id: 2,
        name: "voucher".to_string(),
        sat_key: "05".to_string(),
        is_active: false,
    });
    store
}

fn seller_sessions(permissions: Vec<&str>) -> SessionStore {
    let mut sessions = SessionStore::new();
    sessions
        .set(Session {
            user_id: "u1".to_string(),
            username: "clerk".to_string(),
            profile_id: 1,
            profile_name: "cashier".to_string(),
            email: "clerk@example.com".to_string(),
            permissions: permissions.into_iter().map(|p| p.to_string()).collect(),
        })
        .unwrap();
    sessions
}

fn line(product_id: i32, quantity: i32, unit_price: Dec, tax_rate: Dec) -> SaleItemRequest {
    SaleItemRequest { product_id, quantity, unit_price, tax_rate }
}

/// Two of product 1 at 50.00 with 16% tax: subtotal 100.00, tax 16.00,
/// total 116.00.
fn simple_request() -> CreateSaleRequest {
    CreateSaleRequest {
        items: vec![
            line(1, 2, Dec { mantissa: 5000, scale: 2 }, Dec { mantissa: 16, scale: 2 }),
        ],
        payment_method_id: 1,
        subtotal: Dec { mantissa: 10000, scale: 2 },
        total: Dec { mantissa: 11600, scale: 2 },
    }
}

fn assert_unchanged(store: &Store, reference: &Store) {
    assert_eq!(store.sales.len(), reference.sales.len());
    assert_eq!(store.sale_details.len(), reference.sale_details.len());
    assert_eq!(store.sale_payments.len(), reference.sale_payments.len());
    assert_eq!(store.products.len(), reference.products.len());
    for (p, q) in store.products.iter().zip(reference.products.iter()) {
        assert_eq!(p.id, q.id);
        assert_eq!(p.stock, q.stock);
        assert_eq!(p.updated_by, q.updated_by);
    }
}

#[test]
fn a_simple_sale_commits_exact_line_figures() {
    let mut store = seeded_store();
    let sessions = seller_sessions(vec!["sales.create"]);
    let resp = create_sale(&mut store, &sessions, &simple_request()).unwrap();

    // The response echoes the header figures.
    assert_eq!(resp.subtotal, Dec { mantissa: 10000, scale: 2 });
    assert_eq!(resp.total, Dec { mantissa: 11600, scale: 2 });
    assert_eq!(resp.sale_id.len(), 24);

    // One header, active, audited to the seller.
    assert_eq!(store.sales.len(), 1);
    let header = &store.sales[0];
    assert_eq!(header.id, resp.sale_id);
    assert!(header.status);
    assert_eq!(header.created_by, "u1");
    assert_eq!(header.updated_by, "u1");
    assert_eq!(header.created_at, resp.created_at);

    // One detail with the exact decimal identities.
    assert_eq!(store.sale_details.len(), 1);
    let detail = &store.sale_details[0];
    assert_eq!(detail.sale_id, resp.sale_id);
    assert_eq!(detail.product_id, 1);
    assert_eq!(detail.quantity, 2);
    assert_eq!(detail.subtotal, Dec { mantissa: 10000, scale: 2 }); // 100.00
    assert_eq!(detail.tax_amount, Dec { mantissa: 160000, scale: 4 }); // 16.0000
    assert_eq!(detail.total, Dec { mantissa: 1160000, scale: 4 }); // 116.0000
    assert!(detail.total.eq_value(Dec { mantissa: 11600, scale: 2 }));

    // One payment, for the full total.
    assert_eq!(store.sale_payments.len(), 1);
    let payment = &store.sale_payments[0];
    assert_eq!(payment.sale_id, resp.sale_id);
    assert_eq!(payment.payment_method_id, 1);
    assert_eq!(payment.amount, Dec { mantissa: 11600, scale: 2 });

    // Stock decreased by exactly the quantity sold; other products untouched.
    assert_eq!(store.products[0].stock, 8);
    assert_eq!(store.products[0].updated_by, "u1");
    assert_eq!(store.products[1].stock, 5);
    assert_eq!(store.products[1].updated_by, "seed");
}

#[test]
fn the_detail_totals_sum_to_the_sale_total() {
    let mut store = seeded_store();
    let sessions = seller_sessions(vec!["sales.create"]);
    // 2 x 50.00 at 16% plus 3 x 10.000 at 8%: 100.00 + 16.00 + 30.000 + 2.40
    // = 148.40, subtotal 130.00.
    let request = CreateSaleRequest {
        items: vec![
            line(1, 2, Dec { mantissa: 5000, scale: 2 }, Dec { mantissa: 16, scale: 2 }),
            line(2, 3, Dec { mantissa: 10000, scale: 3 }, Dec { mantissa: 8, scale: 2 }),
        ],
        payment_method_id: 1,
        subtotal: Dec { mantissa: 13000, scale: 2 },
        total: Dec { mantissa: 14840, scale: 2 },
    };
    let resp = create_sale(&mut store, &sessions, &request).unwrap();

    let mut sum = Dec { mantissa: 0, scale: 0 };
    for detail in &store.sale_details {
        assert_eq!(detail.sale_id, resp.sale_id);
        // Each detail balances: total = subtotal + tax_amount.
        assert_eq!(detail.total, detail.subtotal.add(detail.tax_amount));
        sum = sum.add(detail.total);
    }
    assert!(sum.eq_value(store.sales[0].total));
}

#[test]
fn two_competing_sales_serialize_on_the_stock() {
    // Product 1 has stock 10; two sales each want 7. Exactly one commits,
    // the other fails for insufficient stock, and the final stock is 3.
    let mut store = seeded_store();
    let sessions = seller_sessions(vec!["sales.create"]);
    let request = CreateSaleRequest {
        items: vec![
            line(1, 7, Dec { mantissa: 5000, scale: 2 }, Dec { mantissa: 16, scale: 2 }),
        ],
        payment_method_id: 1,
        subtotal: Dec { mantissa: 35000, scale: 2 },
        total: Dec { mantissa: 40600, scale: 2 },
    };

    let first = create_sale(&mut store, &sessions, &request);
    let second = create_sale(&mut store, &sessions, &request);

    assert!(first.is_ok());
    assert_eq!(
        second.unwrap_err(),
        PosError::InsufficientStock { product_id: 1, available: 3, requested: 7 }
    );
    assert_eq!(store.products[0].stock, 3);
    assert_eq!(store.sales.len(), 1);
    assert_eq!(store.sale_payments.len(), 1);
}

#[test]
fn a_failing_sale_writes_nothing_at_all() {
    let sessions = seller_sessions(vec!["sales.create"]);
    let price = Dec { mantissa: 5000, scale: 2 };
    let rate = Dec { mantissa: 16, scale: 2 };

    // Each request fails on its second or third line, after lines that alone
    // would pass: still nothing may be written.
    let failing_items = vec![
        vec![line(1, 2, price, rate), line(1, 0, price, rate)],
        vec![line(1, 2, price, rate), line(9, 1, price, rate)],
        vec![line(1, 2, price, rate), line(3, 1, price, rate)],
        vec![line(1, 2, price, rate), line(2, 9, price, rate)],
        vec![line(1, 6, price, rate), line(2, 1, price, rate), line(1, 6, price, rate)],
    ];
    for items in failing_items {
        let mut store = seeded_store();
        let reference = seeded_store();
        let request = CreateSaleRequest {
            items,
            payment_method_id: 1,
            subtotal: Dec { mantissa: 0, scale: 2 },
            total: Dec { mantissa: 0, scale: 2 },
        };
        assert!(create_sale(&mut store, &sessions, &request).is_err());
        assert_unchanged(&store, &reference);
    }
}

#[test]
fn every_validation_surfaces_its_own_error() {
    let sessions = seller_sessions(vec!["sales.create"]);
    let viewer = seller_sessions(vec!["sales.view"]);
    let nobody = SessionStore::new();

    let mut store = seeded_store();
    let request = simple_request();

    assert_eq!(
        create_sale(&mut store, &nobody, &request).unwrap_err(),
        PosError::NotLogged
    );
    assert_eq!(
        create_sale(&mut store, &viewer, &request).unwrap_err(),
        PosError::PermissionDenied
    );

    let empty = CreateSaleRequest {
        items: vec![],
        payment_method_id: 1,
        subtotal: Dec { mantissa: 0, scale: 2 },
        total: Dec { mantissa: 0, scale: 2 },
    };
    assert_eq!(
        create_sale(&mut store, &sessions, &empty).unwrap_err(),
        PosError::EmptySale
    );

    let mut unknown_method = simple_request();
    unknown_method.payment_method_id = 9;
    assert_eq!(
        create_sale(&mut store, &sessions, &unknown_method).unwrap_err(),
        PosError::InvalidPaymentMethod
    );

    let mut inactive_method = simple_request();
    inactive_method.payment_method_id = 2;
    assert_eq!(
        create_sale(&mut store, &sessions, &inactive_method).unwrap_err(),
        PosError::PaymentMethodInactive
    );

    assert_unchanged(&store, &seeded_store());
}

#[test]
fn a_colliding_sale_id_fails_the_transaction() {
    let mut store = seeded_store();
    let sessions = seller_sessions(vec!["sales.create"]);
    let first = create_sale_with_id(
        &mut store,
        &sessions,
        &simple_request(),
        "sale-0001".to_string(),
        "2026-01-05 10:00:00".to_string(),
    );
    assert_eq!(first.unwrap().sale_id, "sale-0001");

    let reference_stock = store.products[0].stock;
    let second = create_sale_with_id(
        &mut store,
        &sessions,
        &simple_request(),
        "sale-0001".to_string(),
        "2026-01-05 10:00:01".to_string(),
    );
    assert_eq!(second.unwrap_err(), PosError::TransactionFailed);
    assert_eq!(store.sales.len(), 1);
    assert_eq!(store.products[0].stock, reference_stock);
}

#[test]
fn minted_sale_ids_differ_between_sales() {
    let mut store = seeded_store();
    let sessions = seller_sessions(vec!["sales.create"]);
    let first = create_sale(&mut store, &sessions, &simple_request()).unwrap();
    let second = create_sale(&mut store, &sessions, &simple_request()).unwrap();
    assert_ne!(first.sale_id, second.sale_id);
}

#[test]
fn sequential_sales_compose_their_decrements() {
    // Two committed sales against the same product: the final stock
    // reflects both decrements, none is lost.
    let mut store = seeded_store();
    let sessions = seller_sessions(vec!["sales.create"]);
    let mut sale_of = |qty: i32, store: &mut Store| {
        let request = CreateSaleRequest {
            items: vec![
                line(1, qty, Dec { mantissa: 5000, scale: 2 }, Dec { mantissa: 16, scale: 2 }),
            ],
            payment_method_id: 1,
            subtotal: Dec { mantissa: 5000 * qty as i128, scale: 2 },
            total: Dec { mantissa: 5800 * qty as i128, scale: 2 },
        };
        create_sale(store, &sessions, &request).unwrap();
    };
    sale_of(2, &mut store);
    assert_eq!(store.products[0].stock, 8);
    sale_of(3, &mut store);
    assert_eq!(store.products[0].stock, 5);
    assert_eq!(store.sales.len(), 2);
    assert_eq!(store.sale_payments.len(), 2);
}

#[test]
fn repeated_lines_of_one_product_accumulate_in_the_stock() {
    let mut store = seeded_store();
    let sessions = seller_sessions(vec!["sales.create"]);
    let request = CreateSaleRequest {
        items: vec![
            line(1, 3, Dec { mantissa: 5000, scale: 2 }, Dec { mantissa: 16, scale: 2 }),
            line(1, 4, Dec { mantissa: 5000, scale: 2 }, Dec { mantissa: 16, scale: 2 }),
        ],
        payment_method_id: 1,
        subtotal: Dec { mantissa: 35000, scale: 2 },
        total: Dec { mantissa: 40600, scale: 2 },
    };
    create_sale(&mut store, &sessions, &request).unwrap();
    assert_eq!(store.products[0].stock, 3);
    assert_eq!(store.sale_details.len(), 2);
}

#[test]
fn compute_line_matches_the_identities() {
    let it = line(1, 2, Dec { mantissa: 5000, scale: 2 }, Dec { mantissa: 16, scale: 2 });
    let (subtotal, tax, total) = compute_line(it);
    assert_eq!(subtotal, Dec { mantissa: 10000, scale: 2 });
    assert_eq!(tax, Dec { mantissa: 160000, scale: 4 });
    assert_eq!(total, Dec { mantissa: 1160000, scale: 4 });
    assert_eq!(total, subtotal.add(tax));
}

#[test]
fn payment_methods_list_only_active_ones() {
    let store = seeded_store();
    let viewer = seller_sessions(vec!["sales.view"]);
    let methods = get_payment_methods(&store, &viewer).unwrap();
    assert_eq!(methods.len(), 1);
    assert_eq!(methods[0].id, 1);
    assert_eq!(methods[0].name, "cash");
    assert_eq!(methods[0].sat_key, "01");

    let nobody = SessionStore::new();
    assert_eq!(
        get_payment_methods(&store, &nobody).unwrap_err(),
        PosError::NotLogged
    );
    let seller = seller_sessions(vec!["sales.create"]);
    assert_eq!(
        get_payment_methods(&store, &seller).unwrap_err(),
        PosError::PermissionDenied
    );
}

#[test]
fn the_line_totals_sum_exactly() {
    // 2 x 50.00 at 16% and 3 x 10.000 at 8%: 116.00 + 32.40 = 148.40.
    let items = vec![
        line(1, 2, Dec { mantissa: 5000, scale: 2 }, Dec { mantissa: 16, scale: 2 }),
        line(2, 3, Dec { mantissa: 10000, scale: 3 }, Dec { mantissa: 8, scale: 2 }),
    ];
    let sum = sum_of_line_totals(&items).unwrap();
    assert_eq!(sum, Dec { mantissa: 14840000, scale: 5 });
    assert!(sum.eq_value(Dec { mantissa: 14840, scale: 2 }));
}

#[test]
fn an_overflowing_summation_reports_nothing() {
    // The first line's total is enormous at scale zero; adding a second
    // line at scale twelve forces a rescale that cannot fit the mantissa.
    let items = vec![
        line(1, i32::MAX, Dec { mantissa: 1_000_000_000_000_000, scale: 0 }, Dec {
            mantissa: 10_000_000,
            scale: 0,
        }),
        line(2, 1, Dec { mantissa: 1, scale: 6 }, Dec { mantissa: 1, scale: 6 }),
    ];
    assert_eq!(sum_of_line_totals(&items), None);
}

#[test]
fn request_balances_compares_the_total_to_its_lines() {
    let balanced = simple_request();
    assert_eq!(request_balances(&balanced), Some(true));

    let mut skewed = simple_request();
    skewed.total = Dec { mantissa: 99999, scale: 2 };
    assert_eq!(request_balances(&skewed), Some(false));

    // A total written at a different scale still balances by value.
    let mut rescaled = simple_request();
    rescaled.total = Dec { mantissa: 116, scale: 0 };
    assert_eq!(request_balances(&rescaled), Some(true));
}
