//! The sale transaction orchestrator: payment-method validation, the
//! inventory guard, exact line-total computation, and the all-or-nothing
//! write of the sale header, its details, its payment, and the stock
//! decrements.

use vstd::prelude::*;

use crate::decimal::{
    add_fits, cmp_fits, common_scale, dec_eq, lemma_abs_mul, lemma_pow10_le, lemma_pow10_million,
    lemma_pow10_pos, pow10, spec_add, spec_mul, spec_scaled, Dec,
};
use crate::domain::{PaymentMethod, Product, Sale, SaleDetail, SalePayment};
use crate::errors::PosError;
use crate::inventory::{
    check_inventory, inventory_verdict, lemma_guard_ok, lemma_guard_total, lemma_qty_prefix_nonneg,
    qty_prefix, qty_total, SaleItemRequest,
};
use crate::session::{contains_code, require_permission, SessionStore};
use crate::store::{
    find_method, lemma_find_product_found, lemma_find_product_same, lemma_find_product_self,
    sale_id_taken, store_wf, stocks_nonneg, Store,
};

verus! {

/// A request to create a sale: its line items, the payment method, and the
/// caller-computed order subtotal and total that the header will carry.
#[derive(Clone, Debug)]
pub struct CreateSaleRequest {
    pub items: Vec<SaleItemRequest>,
    pub payment_method_id: i32,
    pub subtotal: Dec,
    pub total: Dec,
}

/// What a successful sale returns to the caller.
#[derive(Clone, Debug)]
pub struct CreateSaleResponse {
    pub sale_id: String,
    pub subtotal: Dec,
    pub total: Dec,
    pub created_at: String,
}

/// Filters for listing sales: an optional status, a text date range, and
/// the page to return.
#[derive(Clone, Debug)]
pub struct SaleFilter {
    pub status: Option<bool>,
    pub page: u64,
    pub limit: u64,
    pub date_from: Option<String>,
    pub date_to: Option<String>,
}

/// A payment method as handed to the caller.
#[derive(Clone, Debug)]
pub struct PaymentMethodResponse {
    pub id: i32,
    pub name: String,
    pub sat_key: String,
}

/// The mantissa and scale bounds under which a line's exact totals are
/// computed without overflowing the 128-bit mantissa: prices up to fifteen
/// mantissa digits and tax fractions up to seven, each with at most six
/// decimal places. Any quantity a line can carry is admitted.
pub open spec fn bounded_item(it: SaleItemRequest) -> bool {
    &&& -1000000000000000 <= it.unit_price.mantissa <= 1000000000000000
    &&& it.unit_price.scale <= 6
    &&& -10000000 <= it.tax_rate.mantissa <= 10000000
    &&& it.tax_rate.scale <= 6
}

/// Every line of the request is within the computable bounds.
pub open spec fn bounded_items(items: Seq<SaleItemRequest>) -> bool {
    forall|i: int| 0 <= i < items.len() ==> #[trigger] bounded_item(items[i])
}

/// `subtotal = quantity * unit_price`, exactly.
pub open spec fn line_subtotal(it: SaleItemRequest) -> Dec {
    spec_mul(it.unit_price, Dec { mantissa: it.quantity as i128, scale: 0 })
}

/// `tax_amount = subtotal * tax_rate`, exactly.
pub open spec fn line_tax(it: SaleItemRequest) -> Dec {
    spec_mul(line_subtotal(it), it.tax_rate)
}

/// `total = subtotal + tax_amount`, exactly.
pub open spec fn line_total(it: SaleItemRequest) -> Dec {
    spec_add(line_subtotal(it), line_tax(it))
}

/// The exact sum of the line totals of the first `i` lines.
pub open spec fn sum_line_totals_upto(items: Seq<SaleItemRequest>, i: int) -> Dec
    decreases i,
{
    if i <= 0 || i > items.len() {
        Dec { mantissa: 0, scale: 0 }
    } else {
        spec_add(sum_line_totals_upto(items, i - 1), line_total(items[i - 1]))
    }
}

/// The exact sum of all line totals of the request.
pub open spec fn sum_line_totals(items: Seq<SaleItemRequest>) -> Dec {
    sum_line_totals_upto(items, items.len() as int)
}

/// Every step of summing the first `i` line totals fits the mantissa type.
pub open spec fn sum_upto_fits(items: Seq<SaleItemRequest>, i: int) -> bool
    decreases i,
{
    if i <= 0 {
        true
    } else {
        sum_upto_fits(items, i - 1) && add_fits(
            sum_line_totals_upto(items, i - 1),
            line_total(items[i - 1]),
        )
    }
}

/// Every step of summing all the line totals fits the mantissa type.
pub open spec fn sum_fits(items: Seq<SaleItemRequest>) -> bool {
    sum_upto_fits(items, items.len() as int)
}

proof fn lemma_sum_fits_prefix(items: Seq<SaleItemRequest>, i: int, j: int)
    requires
        0 <= i <= j,
        sum_upto_fits(items, j),
    ensures
        sum_upto_fits(items, i),
    decreases j,
{
    if i < j {
        lemma_sum_fits_prefix(items, i, j - 1);
    }
}

/// The exact sum of the request's line totals, or nothing when a step of
/// the summation would overflow the mantissa type.
pub fn sum_of_line_totals(items: &Vec<SaleItemRequest>) -> (r: Option<Dec>)
    requires
        bounded_items(items@),
    ensures
        r is Some <==> sum_fits(items@),
        r is Some ==> r->0 == sum_line_totals(items@),
{
    let n = items.len();
    let mut acc = Dec { mantissa: 0, scale: 0 };
    let mut i: usize = 0;
    while i < n
        invariant
            i <= n == items@.len(),
            bounded_items(items@),
            acc == sum_line_totals_upto(items@, i as int),
            sum_upto_fits(items@, i as int),
        decreases n - i,
    {
        proof {
            assert(bounded_item(items@[i as int]));
        }
        let line = compute_line(items[i]);
        match acc.checked_add(line.2) {
            Some(next) => {
                acc = next;
            },
            None => {
                proof {
                    if sum_fits(items@) {
                        lemma_sum_fits_prefix(items@, i as int + 1, items@.len() as int);
                    }
                }
                return None;
            },
        }
        i = i + 1;
    }
    Some(acc)
}

/// Whether the request's total equals the exact sum of its line totals —
/// the balance a request must carry before the sale may be created — or
/// nothing when the sum or the comparison exceeds the mantissa type.
pub fn request_balances(request: &CreateSaleRequest) -> (r: Option<bool>)
    requires
        bounded_items(request.items@),
    ensures
        r is Some <==> sum_fits(request.items@) && cmp_fits(
            request.total,
            sum_line_totals(request.items@),
        ),
        r is Some ==> r->0 == dec_eq(request.total, sum_line_totals(request.items@)),
{
    match sum_of_line_totals(&request.items) {
        None => None,
        Some(sum) => request.total.checked_eq_value(sum),
    }
}

/// The exact line values of one item: subtotal, tax amount, and total.
pub fn compute_line(it: SaleItemRequest) -> (r: (Dec, Dec, Dec))
    requires
        bounded_item(it),
    ensures
        r.0 == line_subtotal(it),
        r.1 == line_tax(it),
        r.2 == line_total(it),
{
    let q = Dec { mantissa: it.quantity as i128, scale: 0 };
    proof {
        lemma_abs_mul(
            it.unit_price.mantissa as int,
            it.quantity as int,
            1000000000000000,
            2147483648,
        );
    }
    let sub = it.unit_price.mul(q);
    proof {
        lemma_abs_mul(
            sub.mantissa as int,
            it.tax_rate.mantissa as int,
            2147483648000000000000000,
            10000000,
        );
    }
    let tax = sub.mul(it.tax_rate);
    proof {
        assert(common_scale(sub, tax) == tax.scale as nat);
        lemma_pow10_million();
        lemma_pow10_le(it.tax_rate.scale as nat, 6);
        lemma_pow10_pos(it.tax_rate.scale as nat);
        lemma_abs_mul(
            sub.mantissa as int,
            pow10(it.tax_rate.scale as nat),
            21474836480000000000000000000000,
            1000000,
        );
        assert(spec_scaled(sub, common_scale(sub, tax)) == sub.mantissa * pow10(
            it.tax_rate.scale as nat,
        ));
        assert(spec_scaled(tax, common_scale(sub, tax)) == tax.mantissa * pow10(0));
    }
    let tot = sub.add(tax);
    (sub, tax, tot)
}

/// Relies on cuid2::create_id: a fresh, collision-resistant sale id — one
/// random lowercase letter followed by up to 23 base36 digits of a hash over
/// time, entropy, a counter and a process fingerprint.
#[verifier::external_body]
fn new_sale_id() -> (r: String)
    ensures
        r@.len() <= 24,
{
    cuid2::create_id()
}

/// Relies on chrono for the wall-clock time, formatted as text. Nothing is
/// assumed of the result: timestamps are carried, never computed with.
#[verifier::external_body]
fn now_timestamp() -> String {
    chrono::Utc::now().naive_utc().to_string()
}

/// The active payment methods, from the given row on, in table order.
pub open spec fn active_methods_from(methods: Seq<PaymentMethod>, i: int) -> Seq<
    PaymentMethodResponse,
>
    decreases methods.len() - i,
{
    if i < 0 || i >= methods.len() {
        Seq::empty()
    } else {
        let rest = active_methods_from(methods, i + 1);
        if methods[i].is_active {
            seq![
                PaymentMethodResponse {
                    id: methods[i].id,
                    name: methods[i].name,
                    sat_key: methods[i].sat_key,
                },
            ] + rest
        } else {
            rest
        }
    }
}

/// The active payment methods, in table order.
pub open spec fn active_methods(methods: Seq<PaymentMethod>) -> Seq<PaymentMethodResponse> {
    active_methods_from(methods, 0)
}

/// The payment methods a sale may currently be paid with. Requires the
/// `sales.view` permission.
pub fn get_payment_methods(store: &Store, sessions: &SessionStore) -> (r: Result<
    Vec<PaymentMethodResponse>,
    PosError,
>)
    ensures
        match r {
            Ok(v) => {
                &&& sessions.slot is Some
                &&& contains_code(sessions.slot->0.permissions@, "sales.view"@)
                &&& v@ == active_methods(store.payment_methods@)
            },
            Err(e) => {
                ||| (e == PosError::NotLogged && sessions.slot is None)
                ||| (e == PosError::PermissionDenied && sessions.slot is Some && !contains_code(
                    sessions.slot->0.permissions@,
                    "sales.view"@,
                ))
            },
        },
{
    match require_permission(sessions, "sales.view") {
        Err(e) => {
            return Err(e);
        },
        Ok(_) => {},
    }
    let n = store.payment_methods.len();
    let mut out: Vec<PaymentMethodResponse> = Vec::new();
    let mut i: usize = 0;
    while i < n
        invariant
            i <= n == store.payment_methods@.len(),
            out@ + active_methods_from(store.payment_methods@, i as int) == active_methods(
                store.payment_methods@,
            ),
        decreases n - i,
    {
        let m = &store.payment_methods[i];
        if m.is_active {
            out.push(
                PaymentMethodResponse {
                    id: m.id,
                    name: m.name.clone(),
                    sat_key: m.sat_key.clone(),
                },
            );
            proof {
                assert(out@ + active_methods_from(store.payment_methods@, i as int + 1)
                    =~= active_methods(store.payment_methods@));
            }
        }
        i = i + 1;
    }
    proof {
        assert(out@ + active_methods_from(store.payment_methods@, n as int) =~= out@);
    }
    Ok(out)
}


/// The detail row that line `it` of sale `sale_id` produces: the line's own
/// figures plus its exactly computed subtotal, tax amount and total.
pub open spec fn detail_matches(d: SaleDetail, it: SaleItemRequest, sale_id: Seq<char>) -> bool {
    &&& d.sale_id@ == sale_id
    &&& d.product_id == it.product_id
    &&& d.quantity == it.quantity
    &&& d.unit_price == it.unit_price
    &&& d.subtotal == line_subtotal(it)
    &&& d.tax_rate == it.tax_rate
    &&& d.tax_amount == line_tax(it)
    &&& d.total == line_total(it)
}

/// The header row a sale writes: the caller-supplied totals, active status,
/// and the session's user in both audit fields.
pub open spec fn sale_header_matches(
    s: Sale,
    req: CreateSaleRequest,
    sale_id: Seq<char>,
    user_id: String,
    ts: Seq<char>,
) -> bool {
    &&& s.id@ == sale_id
    &&& s.subtotal == req.subtotal
    &&& s.total == req.total
    &&& s.status == true
    &&& s.created_at@ == ts
    &&& s.updated_at@ == ts
    &&& s.created_by == user_id
    &&& s.updated_by == user_id
}

/// The one payment row of a sale: always for the sale's full total.
pub open spec fn payment_matches(
    p: SalePayment,
    sale_id: Seq<char>,
    method_id: i32,
    amount: Dec,
) -> bool {
    &&& p.sale_id@ == sale_id
    &&& p.payment_method_id == method_id
    &&& p.amount == amount
}

/// How one product row looks after a committed sale: untouched when the sale
/// asks nothing of it, otherwise the same row with its stock decremented by
/// the total quantity sold and the audit field set to the seller.
pub open spec fn product_after(p: Product, q: Product, delta: int, user_id: String) -> bool {
    if delta == 0 {
        q == p
    } else {
        &&& q.id == p.id
        &&& q.name == p.name
        &&& q.category_id == p.category_id
        &&& q.code == p.code
        &&& q.stock == p.stock - delta
        &&& q.is_active == p.is_active
        &&& q.price == p.price
        &&& q.cost == p.cost
        &&& q.tax_rate == p.tax_rate
        &&& q.updated_by == user_id
    }
}

/// The validations of a sale, in order: a session with the `sales.create`
/// permission, at least one line, an existing and active payment method,
/// then the inventory guard over all lines. `None` means all pass.
pub open spec fn sale_checks(store: Store, sessions: SessionStore, req: CreateSaleRequest) -> Option<
    PosError,
> {
    if sessions.slot is None {
        Some(PosError::NotLogged)
    } else if !contains_code(sessions.slot->0.permissions@, "sales.create"@) {
        Some(PosError::PermissionDenied)
    } else if req.items@.len() == 0 {
        Some(PosError::EmptySale)
    } else {
        match find_method(store.payment_methods@, req.payment_method_id) {
            None => Some(PosError::InvalidPaymentMethod),
            Some(m) => {
                if !store.payment_methods@[m].is_active {
                    Some(PosError::PaymentMethodInactive)
                } else {
                    inventory_verdict(store.products@, req.items@)
                }
            },
        }
    }
}

/// The outcome of attempting the sale under the given fresh id: a validation
/// error, or `TransactionFailed` when the id collides with a stored sale —
/// the unique key the store enforces — or `None` when the sale commits.
pub open spec fn sale_outcome(
    store: Store,
    sessions: SessionStore,
    req: CreateSaleRequest,
    sale_id: Seq<char>,
) -> Option<PosError> {
    match sale_checks(store, sessions, req) {
        Some(e) => Some(e),
        None => {
            if sale_id_taken(store.sales@, sale_id) {
                Some(PosError::TransactionFailed)
            } else {
                None
            }
        },
    }
}

/// What committing the sale does to the store, row by row: one header, one
/// detail per line in request order, one payment, the stock decrements, and
/// nothing else.
pub open spec fn sale_committed(
    pre: Store,
    post: Store,
    sessions: SessionStore,
    req: CreateSaleRequest,
    sale_id: Seq<char>,
    ts: Seq<char>,
) -> bool {
    let user_id = sessions.slot->0.user_id;
    &&& post.sales@.len() == pre.sales@.len() + 1
    &&& post.sales@ == pre.sales@.push(post.sales@.last())
    &&& sale_header_matches(post.sales@.last(), req, sale_id, user_id, ts)
    &&& post.sale_details@.len() == pre.sale_details@.len() + req.items@.len()
    &&& (forall|k: int|
        0 <= k < pre.sale_details@.len() ==> post.sale_details@[k] == pre.sale_details@[k])
    &&& (forall|k: int|
        0 <= k < req.items@.len() ==> detail_matches(
            post.sale_details@[pre.sale_details@.len() + k],
            #[trigger] req.items@[k],
            sale_id,
        ))
    &&& post.sale_payments@.len() == pre.sale_payments@.len() + 1
    &&& post.sale_payments@ == pre.sale_payments@.push(post.sale_payments@.last())
    &&& payment_matches(post.sale_payments@.last(), sale_id, req.payment_method_id, req.total)
    &&& post.products@.len() == pre.products@.len()
    &&& (forall|j: int|
        0 <= j < pre.products@.len() ==> product_after(
            #[trigger] pre.products@[j],
            post.products@[j],
            qty_total(req.items@, pre.products@[j].id),
            user_id,
        ))
    &&& post.users@ == pre.users@
    &&& post.profiles@ == pre.profiles@
    &&& post.permissions@ == pre.permissions@
    &&& post.profile_permissions@ == pre.profile_permissions@
    &&& post.payment_methods@ == pre.payment_methods@
}

/// The sale transaction under a caller-supplied fresh id and timestamp: all
/// validations run against the untouched store; any failure returns before
/// the first mutation, so the store is unchanged on every error. On success
/// the header, one detail per line, the payment and the stock decrements are
/// all applied, and the written detail totals sum exactly to the header's
/// total — the caller owes a request whose total balances its lines, which
/// `request_balances` tests.
pub fn create_sale_with_id(
    store: &mut Store,
    sessions: &SessionStore,
    request: &CreateSaleRequest,
    sale_id: String,
    created_at: String,
) -> (r: Result<CreateSaleResponse, PosError>)
    requires
        store_wf(*old(store)),
        bounded_items(request.items@),
        dec_eq(request.total, sum_line_totals(request.items@)),
    ensures
        store_wf(*final(store)),
        stocks_nonneg(old(store).products@) ==> stocks_nonneg(final(store).products@),
        match r {
            Err(e) => {
                &&& sale_outcome(*old(store), *sessions, *request, sale_id@) == Some(e)
                &&& *final(store) == *old(store)
            },
            Ok(resp) => {
                &&& sale_outcome(*old(store), *sessions, *request, sale_id@) is None
                &&& resp.sale_id@ == sale_id@
                &&& resp.subtotal == request.subtotal
                &&& resp.total == request.total
                &&& resp.created_at@ == created_at@
                &&& sale_committed(
                    *old(store),
                    *final(store),
                    *sessions,
                    *request,
                    sale_id@,
                    created_at@,
                )
                &&& dec_eq(
                    final(store).sales@.last().total,
                    sum_detail_totals(
                        final(store).sale_details@.skip(old(store).sale_details@.len() as int),
                    ),
                )
            },
        },
{
    // Validation phase: nothing is mutated until every check has passed.
    let session = match require_permission(sessions, "sales.create") {
        Err(e) => return Err(e),
        Ok(s) => s,
    };
    if request.items.len() == 0 {
        return Err(PosError::EmptySale);
    }
    let m = match store.find_method_index(request.payment_method_id) {
        None => return Err(PosError::InvalidPaymentMethod),
        Some(m) => m,
    };
    if !store.payment_methods[m].is_active {
        return Err(PosError::PaymentMethodInactive);
    }
    match check_inventory(&store.products, &request.items) {
        Err(e) => return Err(e),
        Ok(()) => {},
    }
    if store.sale_id_exists(&sale_id) {
        return Err(PosError::TransactionFailed);
    }
    proof {
        assert(sale_outcome(*old(store), *sessions, *request, sale_id@) is None);
    }

    // Mutation phase: on the model this cannot fail, so the sale commits.
    let header = Sale {
        id: sale_id.clone(),
        subtotal: request.subtotal,
        total: request.total,
        status: true,
        created_at: created_at.clone(),
        updated_at: created_at.clone(),
        created_by: session.user_id.clone(),
        updated_by: session.user_id.clone(),
    };
    store.sales.push(header);

    let n = request.items.len();
    let mut i: usize = 0;
    while i < n
        invariant
            i <= n == request.items@.len(),
            bounded_items(request.items@),
            store_wf(*old(store)),
            inventory_verdict(old(store).products@, request.items@) is None,
            sessions.slot is Some,
            session.user_id == sessions.slot->0.user_id,
            store.sales@.len() == old(store).sales@.len() + 1,
            store.sales@ == old(store).sales@.push(store.sales@.last()),
            sale_header_matches(
                store.sales@.last(),
                *request,
                sale_id@,
                session.user_id,
                created_at@,
            ),
            store.users@ == old(store).users@,
            store.profiles@ == old(store).profiles@,
            store.permissions@ == old(store).permissions@,
            store.profile_permissions@ == old(store).profile_permissions@,
            store.payment_methods@ == old(store).payment_methods@,
            store.sale_payments@ == old(store).sale_payments@,
            store.sale_details@.len() == old(store).sale_details@.len() + i,
            forall|k: int|
                0 <= k < old(store).sale_details@.len() ==> store.sale_details@[k] == old(
                    store,
                ).sale_details@[k],
            forall|k: int|
                0 <= k < i ==> detail_matches(
                    store.sale_details@[old(store).sale_details@.len() + k],
                    #[trigger] request.items@[k],
                    sale_id@,
                ),
            store.products@.len() == old(store).products@.len(),
            forall|j: int|
                0 <= j < old(store).products@.len() ==> product_after(
                    #[trigger] old(store).products@[j],
                    store.products@[j],
                    qty_prefix(request.items@, old(store).products@[j].id, i as int),
                    session.user_id,
                ),
        decreases n - i,
    {
        let it = request.items[i];
        proof {
            assert(bounded_item(request.items@[i as int]));
            lemma_guard_ok(old(store).products@, request.items@, i as int);
        }
        let line = compute_line(it);
        let detail = SaleDetail {
            sale_id: sale_id.clone(),
            product_id: it.product_id,
            quantity: it.quantity,
            unit_price: it.unit_price,
            subtotal: line.0,
            tax_rate: it.tax_rate,
            tax_amount: line.1,
            total: line.2,
        };
        store.sale_details.push(detail);

        proof {
            assert forall|j: int| 0 <= j < old(store).products@.len() implies old(
                store,
            ).products@[j].id == store.products@[j].id by {
                assert(product_after(
                    old(store).products@[j],
                    store.products@[j],
                    qty_prefix(request.items@, old(store).products@[j].id, i as int),
                    session.user_id,
                ));
            }
            lemma_find_product_same(
                old(store).products@,
                store.products@,
                it.product_id,
                0,
            );
            lemma_find_product_found(old(store).products@, it.product_id, 0);
            assert forall|k: int| 0 <= k < i implies request.items@[k].quantity > 0 by {
                lemma_guard_ok(old(store).products@, request.items@, k);
            }
            lemma_qty_prefix_nonneg(request.items@, it.product_id, i as int);
        }
        let j = match store.find_product_index(it.product_id) {
            Some(j) => j,
            None => {
                proof {
                    assert(false);
                }
                return Err(PosError::TransactionFailed);
            },
        };
        let ghost jj = j as int;
        let ghost pid = it.product_id;
        proof {
            assert(old(store).products@[jj].id == pid);
            assert(product_after(
                old(store).products@[jj],
                store.products@[jj],
                qty_prefix(request.items@, pid, i as int),
                session.user_id,
            ));
            assert(qty_prefix(request.items@, pid, i as int + 1) == qty_prefix(
                request.items@,
                pid,
                i as int,
            ) + it.quantity);
        }
        let p = &store.products[j];
        let updated = Product {
            id: p.id,
            name: p.name.clone(),
            category_id: p.category_id,
            code: p.code.clone(),
            stock: p.stock - it.quantity,
            is_active: p.is_active,
            price: p.price,
            cost: p.cost,
            tax_rate: p.tax_rate,
            updated_by: session.user_id.clone(),
        };
        store.products.set(j, updated);
        proof {
            assert forall|jx: int| 0 <= jx < old(store).products@.len() implies product_after(
                old(store).products@[jx],
                store.products@[jx],
                qty_prefix(request.items@, old(store).products@[jx].id, i as int + 1),
                session.user_id,
            ) by {
                if jx == jj {
                } else {
                    assert(old(store).products@[jx].id != pid);
                    assert(qty_prefix(request.items@, old(store).products@[jx].id, i as int + 1)
                        == qty_prefix(request.items@, old(store).products@[jx].id, i as int));
                    assert(product_after(
                        old(store).products@[jx],
                        store.products@[jx],
                        qty_prefix(request.items@, old(store).products@[jx].id, i as int),
                        session.user_id,
                    ));
                }
            }
        }
        i = i + 1;
    }

    let payment = SalePayment {
        sale_id: sale_id.clone(),
        payment_method_id: request.payment_method_id,
        amount: request.total,
    };
    store.sale_payments.push(payment);

    proof {
        // The committed state is well-formed: ids are untouched and the new
        // sale id was checked fresh.
        assert forall|j1: int, j2: int|
            0 <= j1 < j2 < store.products@.len() implies store.products@[j1].id
            != store.products@[j2].id by {
            assert(product_after(
                old(store).products@[j1],
                store.products@[j1],
                qty_total(request.items@, old(store).products@[j1].id),
                session.user_id,
            ));
            assert(product_after(
                old(store).products@[j2],
                store.products@[j2],
                qty_total(request.items@, old(store).products@[j2].id),
                session.user_id,
            ));
        }
        // Committed stocks stay covered by what the guard admitted.
        assert forall|j: int|
            0 <= j < old(store).products@.len() && stocks_nonneg(old(store).products@) implies #[trigger] store.products@[j].stock
            >= 0 by {
            lemma_find_product_self(old(store).products@, j);
            lemma_guard_total(old(store).products@, request.items@, j);
        }
        // The written detail rows carry exactly the line totals, so their
        // sum is the sum the request's total was required to balance.
        let added = store.sale_details@.skip(old(store).sale_details@.len() as int);
        assert(added.len() == request.items@.len());
        assert forall|k: int| 0 <= k < request.items@.len() implies detail_matches(
            added[k],
            #[trigger] request.items@[k],
            sale_id@,
        ) by {
            assert(added[k] == store.sale_details@[old(store).sale_details@.len() + k]);
        }
        lemma_sum_totals_agree(request.items@, added, sale_id@, request.items@.len() as int);
    }

    Ok(CreateSaleResponse { sale_id, subtotal: request.subtotal, total: request.total, created_at })
}


/// Creates a sale: validates the request, mints a fresh collision-resistant
/// sale id and a timestamp, and commits the header, details, payment and
/// stock decrements as one unit. On any error the store is unchanged. A
/// validation failure returns its error; `TransactionFailed` is returned
/// exactly when the request was valid but the minted id collided with a
/// stored sale — the store's unique-key constraint — which is possible only
/// while some sale is stored: against an empty sales table a valid request
/// always commits. The caller owes a request whose total balances its lines,
/// which `request_balances` tests.
pub fn create_sale(store: &mut Store, sessions: &SessionStore, request: &CreateSaleRequest) -> (r:
    Result<CreateSaleResponse, PosError>)
    requires
        store_wf(*old(store)),
        bounded_items(request.items@),
        dec_eq(request.total, sum_line_totals(request.items@)),
    ensures
        store_wf(*final(store)),
        stocks_nonneg(old(store).products@) ==> stocks_nonneg(final(store).products@),
        r is Err && sale_checks(*old(store), *sessions, *request) is None ==> old(
            store,
        ).sales@.len() > 0,
        match r {
            Err(e) => {
                &&& *final(store) == *old(store)
                &&& (sale_checks(*old(store), *sessions, *request) == Some(e) || (sale_checks(
                    *old(store),
                    *sessions,
                    *request,
                ) is None && e == PosError::TransactionFailed))
            },
            Ok(resp) => {
                &&& sale_checks(*old(store), *sessions, *request) is None
                &&& resp.subtotal == request.subtotal
                &&& resp.total == request.total
                &&& sale_committed(
                    *old(store),
                    *final(store),
                    *sessions,
                    *request,
                    resp.sale_id@,
                    resp.created_at@,
                )
                &&& dec_eq(
                    final(store).sales@.last().total,
                    sum_detail_totals(
                        final(store).sale_details@.skip(old(store).sale_details@.len() as int),
                    ),
                )
            },
        },
{
    let sale_id = new_sale_id();
    let created_at = now_timestamp();
    create_sale_with_id(store, sessions, request, sale_id, created_at)
}

/// The exact sum of the totals of the first `i` detail rows.
pub open spec fn sum_detail_totals_upto(details: Seq<SaleDetail>, i: int) -> Dec
    decreases i,
{
    if i <= 0 || i > details.len() {
        Dec { mantissa: 0, scale: 0 }
    } else {
        spec_add(sum_detail_totals_upto(details, i - 1), details[i - 1].total)
    }
}

/// The exact sum of the totals of a sale's detail rows.
pub open spec fn sum_detail_totals(details: Seq<SaleDetail>) -> Dec {
    sum_detail_totals_upto(details, details.len() as int)
}

proof fn lemma_sum_totals_agree(
    items: Seq<SaleItemRequest>,
    details: Seq<SaleDetail>,
    sale_id: Seq<char>,
    i: int,
)
    requires
        details.len() == items.len(),
        forall|k: int|
            0 <= k < items.len() ==> detail_matches(details[k], #[trigger] items[k], sale_id),
        i <= items.len(),
    ensures
        sum_detail_totals_upto(details, i) == sum_line_totals_upto(items, i),
    decreases i,
{
    if i > 0 {
        lemma_sum_totals_agree(items, details, sale_id, i - 1);
    }
}

/// The balance of a committed sale: when the request's total equals the
/// exact sum of its line totals — the balance `create_sale` requires of
/// every request — the sum of the written detail totals equals the sale
/// header's total, with exact decimal equality and no rounding loss, and
/// every detail's total is exactly its subtotal plus its tax amount.
pub proof fn lemma_sale_totals_balance(
    items: Seq<SaleItemRequest>,
    details: Seq<SaleDetail>,
    header: Sale,
    req: CreateSaleRequest,
    sale_id: Seq<char>,
)
    requires
        details.len() == items.len(),
        forall|k: int|
            0 <= k < items.len() ==> detail_matches(details[k], #[trigger] items[k], sale_id),
        header.total == req.total,
        dec_eq(req.total, sum_line_totals(items)),
    ensures
        dec_eq(header.total, sum_detail_totals(details)),
        forall|k: int|
            0 <= k < details.len() ==> #[trigger] details[k].total == spec_add(
                details[k].subtotal,
                details[k].tax_amount,
            ),
{
    lemma_sum_totals_agree(items, details, sale_id, items.len() as int);
    assert forall|k: int| 0 <= k < details.len() implies #[trigger] details[k].total == spec_add(
        details[k].subtotal,
        details[k].tax_amount,
    ) by {
        assert(detail_matches(details[k], items[k], sale_id));
    }
}

/// No lost update under serialized concurrent sales: when one committed sale
/// decrements a product's stock by its total demand and a second committed
/// sale then decrements the resulting stock by its own, the final stock
/// reflects both decrements.
pub proof fn lemma_no_lost_updates(
    p0: Product,
    p1: Product,
    p2: Product,
    items_first: Seq<SaleItemRequest>,
    items_second: Seq<SaleItemRequest>,
    user_first: String,
    user_second: String,
)
    requires
        product_after(p0, p1, qty_total(items_first, p0.id), user_first),
        product_after(p1, p2, qty_total(items_second, p1.id), user_second),
    ensures
        p2.stock == p0.stock - qty_total(items_first, p0.id) - qty_total(items_second, p0.id),
{
}

} // verus!
