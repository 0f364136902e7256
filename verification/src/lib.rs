//! Core logic for deploying and inspecting shadow contracts: parsing
//! contract identifiers, modelling Solidity ABI types, resolving raw
//! ABI parameter descriptions, unifying the dynamic type model with the
//! fixed-type codec representation, and driving the deploy and fork flows.

pub mod abi;
pub mod deploy;
pub mod fork;
pub mod ident;
pub mod param;
pub mod typestr;
