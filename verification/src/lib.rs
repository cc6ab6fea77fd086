//! BIND-19 — transport binding layer of the CI-144 protocol family.
//!
//! Modules:
//! - `bits`: bit-field helpers and the bit-level facts the codecs rest on
//! - `pfp`: PFP-xCF14 4-byte physical feature header
//! - `pal`: 24-byte physical anchor layer header
//! - `sap`: SAP-xCF14 28-byte security attestation header
//! - `frame`: 8-byte BIND-19 header and full frames with optional PFP/SAP

pub mod bits;
pub mod catastrophic;
pub mod buf;
pub mod config;
pub mod crypto;
pub mod frame;
pub mod pal;
pub mod pfp;
pub mod processor;
pub mod replay_cache;
pub mod rotation;
pub mod sap;
