//! SHA-512 as a spread-form arithmetization: the witness values of the
//! circuit core (spread table, message schedule, compression), the custom
//! gates as checks on those values, and the contracts that tie both to the
//! bitwise definition of SHA-512.
//!
//! The proof system itself stays with the host: allocating columns,
//! registering gates and lookups, and writing cells into a region are its
//! work. This crate computes what goes into the cells and states what the
//! gates enforce.
pub mod bits;
pub mod compression;
pub mod constraints;
pub mod gates;
pub mod layout;
pub mod padding;
pub mod reference;
pub mod round_gates;
pub mod schedule;
pub mod sha512;
pub mod sigma_gates;
pub mod table;
pub mod util;
