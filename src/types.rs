//! Small value types of the representation in `segments::types`.
pub mod util;
