//! Validation, classification and formatting of GTIN (Global Trade Item
//! Number) identifiers, together with the value types of a small catalog
//! client keyed by GTIN.

pub mod catalog;
pub mod gtin;

pub use catalog::BrocadeError;
pub use catalog::Product;
pub use catalog::ProductList;
pub use gtin::GTIN;
pub use gtin::GTINError;
pub use gtin::GTINType;
