//! Database-facing records for SKUs and their prices.
//!
//! A price amount is carried as a plain decimal value: an integer mantissa
//! with a decimal scale, so that sign and fractional-digit rules can be
//! stated exactly.

use vstd::prelude::*;

verus! {

/// A decimal amount: `mantissa` scaled down by `scale` decimal digits
/// (mantissa 100123 with scale 3 is 100.123).
#[derive(Clone, Copy, Debug, PartialEq, Eq, Structural)]
pub struct Decimal {
    pub mantissa: i64,
    pub scale: u32,
}

impl Decimal {
    /// The whole amount `units`, with no fractional digits.
    pub fn from_units(units: i64) -> (r: Self)
        ensures
            r == (Decimal { mantissa: units, scale: 0u32 }),
    {
        Decimal { mantissa: units, scale: 0 }
    }

    /// Whether the amount is negative.
    pub fn is_negative(&self) -> (r: bool)
        ensures
            r == (self.mantissa < 0),
    {
        self.mantissa < 0
    }
}

/// A catalogue item.
#[derive(Clone, Debug)]
pub struct Sku {
    pub sku_code: String,
    pub name: String,
    pub description: Option<String>,
}

/// One price period of a SKU, as stored.
#[derive(Clone, Debug)]
pub struct Price {
    pub sku_code: String,
    pub sequence: i32,
    pub price: Decimal,
    pub start_date_time: i64,
    pub end_date_time: i64,
    pub create_date_time: Option<i64>,
    pub update_date_time: Option<i64>,
}

} // verus!
