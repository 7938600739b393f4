//! Catalog management data: the shapes the category and product handlers
//! exchange with their callers, and the explicit patch structs that partial
//! updates apply field by field against a loaded row.
//!
//! Tax rates cross this boundary in percentage form (16 for 16%); they are
//! stored and computed as fractions (0.16). The scaling by one hundred
//! happens here and only here.

use vstd::prelude::*;

use crate::decimal::{dec_eq, spec_mul, Dec};
use crate::domain::Product;

verus! {

/// A product category as handed to callers.
#[derive(Clone, Debug)]
pub struct Category {
    pub id: i32,
    pub name: String,
    pub is_active: bool,
}

/// A request to create a category.
#[derive(Clone, Debug)]
pub struct NewCategory {
    pub name: String,
}

/// A partial update of a category: only the present fields change.
#[derive(Clone, Debug)]
pub struct UpdateCategory {
    pub name: Option<String>,
    pub is_active: Option<bool>,
}

impl UpdateCategory {
    /// Applies the patch: each present field overwrites the row's, each
    /// absent field leaves it untouched.
    pub fn apply_to(self, row: &mut Category)
        ensures
            final(row).id == old(row).id,
            final(row).name == if self.name is Some {
                self.name->0
            } else {
                old(row).name
            },
            final(row).is_active == if self.is_active is Some {
                self.is_active->0
            } else {
                old(row).is_active
            },
    {
        if let Some(name) = self.name {
            row.name = name;
        }
        if let Some(is_active) = self.is_active {
            row.is_active = is_active;
        }
    }
}

/// Filters for listing categories.
#[derive(Clone, Debug)]
pub struct CategoryFilter {
    pub status: Option<bool>,
    pub search: Option<String>,
}

/// A page of categories.
#[derive(Debug)]
pub struct CategoryListReturn {
    pub categories: Vec<Category>,
    pub total: u64,
}

/// Filters for listing products.
#[derive(Clone, Copy, Debug, PartialEq, Eq, Structural)]
pub struct ProductFilter {
    pub status: bool,
    pub page: u64,
    pub limit: u64,
}

/// The pagination summary of a product listing.
#[derive(Clone, Copy, Debug, PartialEq, Eq, Structural)]
pub struct ProductPagesInfo {
    pub total_pages: u64,
    pub total_items: u64,
}

/// A request to create a product; `tax` is in percentage form.
#[derive(Clone, Debug)]
pub struct NewProduct {
    pub name: String,
    pub category_id: Option<i32>,
    pub code: String,
    pub stock: i32,
    pub price: Dec,
    pub cost: Dec,
    pub tax: Dec,
    pub created_by: String,
}

impl NewProduct {
    /// The stored row this request creates under the given id: active, with
    /// the percentage tax scaled down to the stored fraction, and the
    /// creator in the audit field.
    pub fn into_product(self, id: i32) -> (r: Product)
        requires
            self.tax.scale + 2 <= u32::MAX,
        ensures
            r.id == id,
            r.name == self.name,
            r.category_id == self.category_id,
            r.code == self.code,
            r.stock == self.stock,
            r.is_active == true,
            r.price == self.price,
            r.cost == self.cost,
            dec_eq(r.tax_rate, spec_mul(self.tax, Dec { mantissa: 1, scale: 2 })),
            r.updated_by == self.created_by,
    {
        let tax_rate = self.tax.div_100();
        Product {
            id,
            name: self.name,
            category_id: self.category_id,
            code: self.code,
            stock: self.stock,
            is_active: true,
            price: self.price,
            cost: self.cost,
            tax_rate,
            updated_by: self.created_by,
        }
    }
}

/// A partial update of a product: only the present fields change; `tax`
/// arrives in percentage form and is stored as a fraction.
#[derive(Clone, Debug)]
pub struct UpdateProduct {
    pub name: Option<String>,
    pub category_id: Option<i32>,
    pub code: Option<String>,
    pub stock: Option<i32>,
    pub is_active: Option<bool>,
    pub price: Option<Dec>,
    pub cost: Option<Dec>,
    pub tax: Option<Dec>,
    pub updated_by: String,
}

impl UpdateProduct {
    /// Applies the patch: each present field overwrites the row's, each
    /// absent field leaves it untouched; the audit field is always set.
    pub fn apply_to(self, row: &mut Product)
        requires
            self.tax is Some ==> self.tax->0.scale + 2 <= u32::MAX,
        ensures
            final(row).id == old(row).id,
            final(row).name == if self.name is Some {
                self.name->0
            } else {
                old(row).name
            },
            final(row).category_id == if self.category_id is Some {
                self.category_id
            } else {
                old(row).category_id
            },
            final(row).code == if self.code is Some {
                self.code->0
            } else {
                old(row).code
            },
            final(row).stock == if self.stock is Some {
                self.stock->0
            } else {
                old(row).stock
            },
            final(row).is_active == if self.is_active is Some {
                self.is_active->0
            } else {
                old(row).is_active
            },
            final(row).price == if self.price is Some {
                self.price->0
            } else {
                old(row).price
            },
            final(row).cost == if self.cost is Some {
                self.cost->0
            } else {
                old(row).cost
            },
            self.tax is Some ==> dec_eq(
                final(row).tax_rate,
                spec_mul(self.tax->0, Dec { mantissa: 1, scale: 2 }),
            ),
            self.tax is None ==> final(row).tax_rate == old(row).tax_rate,
            final(row).updated_by == self.updated_by,
    {
        if let Some(name) = self.name {
            row.name = name;
        }
        if let Some(category_id) = self.category_id {
            row.category_id = Some(category_id);
        }
        if let Some(code) = self.code {
            row.code = code;
        }
        if let Some(stock) = self.stock {
            row.stock = stock;
        }
        if let Some(is_active) = self.is_active {
            row.is_active = is_active;
        }
        if let Some(price) = self.price {
            row.price = price;
        }
        if let Some(cost) = self.cost {
            row.cost = cost;
        }
        if let Some(tax) = self.tax {
            row.tax_rate = tax.div_100();
        }
        row.updated_by = self.updated_by;
    }
}

impl Product {
    /// The stored tax fraction in the percentage form callers see
    /// (0.16 -> 16).
    pub fn tax_percent(&self) -> (r: Dec)
        requires
            i128::MIN <= self.tax_rate.mantissa * 100 <= i128::MAX,
        ensures
            dec_eq(r, spec_mul(self.tax_rate, Dec { mantissa: 100, scale: 0 })),
    {
        self.tax_rate.mul_100()
    }
}

} // verus!
