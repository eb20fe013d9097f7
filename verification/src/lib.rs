//! Client-side encoding layer for a collateralized lending protocol that
//! runs on an external, fixed-ABI execution engine.
//!
//! The library covers three concerns:
//! - deriving stable identifiers for every storage cell the protocol needs
//!   (`derivation`, `consts`),
//! - serializing typed command parameters into fixed binary layouts
//!   (`payload`),
//! - assembling complete requests, pairing an ordered list of tagged account
//!   references with an encoded payload (`instructions`).

pub mod consts;
pub mod decimal;
pub mod derivation;
pub mod identity;
pub mod instructions;
pub mod payload;
