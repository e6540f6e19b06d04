//! A scholarship ledger: applications are filed with a grade point score,
//! eligible ones are approved at a tiered award, and running totals are kept
//! alongside the records.

pub mod award;
pub mod contract;
pub mod history;
pub mod host;
pub mod ledger;
pub mod record;
pub mod stats;
