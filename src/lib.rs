//! Decoding of Blu-ray Presentation Graphics Stream (`.sup`) subtitle files.
pub mod segments;
pub mod types;
