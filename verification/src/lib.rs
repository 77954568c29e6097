//! Validation and decomposition of standardized identifier strings:
//! securities identifiers (CUSIP, ISIN), bank account identifiers (IBAN),
//! and generic resource locators (URL).
//!
//! Each format module offers a single-value recognizer returning a structured
//! result or a typed error, together with columnar functions that apply the
//! recognizer across an ordered sequence of optional inputs, propagating
//! absence (null) per row.

pub mod charval;
pub mod cusip_columns;
pub mod cusip_parsing;
pub mod iban_columns;
pub mod iban_parsing;
pub mod iban_registry;
pub mod isin_columns;
pub mod isin_parsing;
pub mod laws;
pub mod mod97;
pub mod optview;
pub mod url_columns;
pub mod url_parsing;
