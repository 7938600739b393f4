//! Core of a retail point-of-sale backend: session and permission gating,
//! credential authentication, inventory guarding, and the atomic
//! sale-creation transaction, all specified and verified over an in-memory
//! model of the relational store.

pub mod auth;
pub mod catalog;
pub mod decimal;
pub mod domain;
pub mod errors;
pub mod inventory;
pub mod paging;
pub mod reports;
pub mod sales;
pub mod session;
pub mod store;
pub mod users;

pub use errors::PosError;
