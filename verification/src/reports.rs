//! The parameter shapes of the reporting queries, and the date-range
//! validation they all share. The aggregations themselves run in the
//! relational store and are consumed, not computed, by this core.

use vstd::prelude::*;

use vstd::string::StringSliceAdditionalSpecFns;

verus! {

/// How a time-series report groups its rows.
#[derive(Clone, Copy, Debug, PartialEq, Eq, Structural)]
pub enum TimeGrouping {
    Day,
    Week,
    Month,
}

/// Parameters of the executive dashboard report.
#[derive(Clone, Debug)]
pub struct DashboardParams {
    pub date_from: String,
    pub date_to: String,
}

/// Parameters of the sales-over-time report.
#[derive(Clone, Debug)]
pub struct SalesOverTimeParams {
    pub date_from: String,
    pub date_to: String,
    pub grouping: TimeGrouping,
}

/// Parameters of the per-product report.
#[derive(Clone, Debug)]
pub struct ProductReportParams {
    pub date_from: String,
    pub date_to: String,
    pub product_id: Option<i32>,
    pub category_id: Option<i32>,
}

/// Parameters of the per-category report.
#[derive(Clone, Debug)]
pub struct CategoryReportParams {
    pub date_from: String,
    pub date_to: String,
}

/// Parameters of the per-payment-method report.
#[derive(Clone, Debug)]
pub struct PaymentMethodReportParams {
    pub date_from: String,
    pub date_to: String,
}

/// Parameters of the refunds report.
#[derive(Clone, Debug)]
pub struct RefundsReportParams {
    pub date_from: String,
    pub date_to: String,
}

/// `a` follows `b` in byte-wise lexicographic order, comparing from
/// position `i` on.
pub open spec fn bytes_gt_from(a: Seq<u8>, b: Seq<u8>, i: int) -> bool
    decreases a.len() - i,
{
    if i < 0 || i >= a.len() {
        false
    } else if i >= b.len() {
        true
    } else if a[i] != b[i] {
        a[i] > b[i]
    } else {
        bytes_gt_from(a, b, i + 1)
    }
}

/// `a` follows `b` in byte-wise lexicographic order: how text-encoded dates
/// of one common format compare chronologically.
pub open spec fn bytes_gt(a: Seq<u8>, b: Seq<u8>) -> bool {
    bytes_gt_from(a, b, 0)
}

/// Rejects a date range whose start lies after its end, comparing the two
/// text dates byte-wise; in the one date format the reports accept, that is
/// chronological order.
pub fn validate_date_range(date_from: &str, date_to: &str) -> (r: Result<(), &'static str>)
    ensures
        r is Err <==> bytes_gt(date_from.spec_bytes(), date_to.spec_bytes()),
{
    let a = date_from.as_bytes();
    let b = date_to.as_bytes();
    let n = a.len();
    let mut i: usize = 0;
    while i < n
        invariant
            i <= n == a@.len(),
            i <= b@.len(),
            a@ == date_from.spec_bytes(),
            b@ == date_to.spec_bytes(),
            bytes_gt(a@, b@) == bytes_gt_from(a@, b@, i as int),
        decreases n - i,
    {
        if i >= b.len() {
            return Err("the date range is invalid: it starts after it ends");
        }
        if a[i] > b[i] {
            return Err("the date range is invalid: it starts after it ends");
        }
        if a[i] < b[i] {
            return Ok(());
        }
        i = i + 1;
    }
    Ok(())
}

} // verus!
