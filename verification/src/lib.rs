//! Firmware description-table (ACPI) parsing over caller-supplied byte
//! buffers: root-pointer validation, the common table header, the extended
//! table's pointer list, the MADT's tagged record stream, and the BGRT's
//! embedded bitmap decoder.
//!
//! Every structure is decoded by exact byte-offset arithmetic with explicit
//! bounds checks; nothing here dereferences firmware memory itself. The
//! hosting environment reads the raw bytes at a physical address and hands
//! them in; addresses stored inside the tables are returned as plain `u64`
//! values for the host to follow.

pub mod bgrt;
pub mod bitmap;
pub mod le;
pub mod madt;
pub mod tables;

pub use crate::tables::{AcpiHeader, AcpiTable, Gas, GasAccessSize, GasAddressSpaceId, RsdPtr, TableId, Xsdt};
