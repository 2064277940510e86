//! The business operations that the workload performs.

use vstd::prelude::*;
use crate::decimal::Dec;
use crate::domain::{Customer, Material, Vendor};
use crate::period::{Date, Period};

verus! {

/// A purchase of a material from a vendor.
#[derive(Clone, Debug)]
pub struct Purchase {
    pub material: Material,
    pub vendor: Vendor,
    pub quantity: Dec,
    pub price: Dec,
    pub doc_no: String,
    pub posting_date: Date,
}

/// A sale of a material to a customer.
#[derive(Clone, Debug)]
pub struct Sale {
    pub material: Material,
    pub customer: Customer,
    pub quantity: Dec,
    pub sale_doc_no: String,
    pub cogs_doc_no: String,
    pub posting_date: Date,
}

/// An additional cost charged on a material by a vendor.
#[derive(Clone, Debug)]
pub struct Cost {
    pub material: Material,
    pub vendor: Vendor,
    pub amount: Dec,
    pub doc_no: String,
    pub posting_date: Date,
}

/// One operation of the workload.
#[derive(Clone, Debug)]
pub enum Operation {
    Purchase(Purchase),
    Sale(Sale),
    Cost(Cost),
    ClosePeriod(Period),
    OpenPeriod(Period),
    PeriodReport(Period),
    YearReport(Period),
}

} // verus!
