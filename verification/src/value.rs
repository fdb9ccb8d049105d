//! Validated value types for the scalar settings the editor can write.
pub mod number;
pub mod color;
pub mod gradient;
pub mod path_value;
pub mod sanitized_string;
pub mod numeric_list;
pub mod vector;
