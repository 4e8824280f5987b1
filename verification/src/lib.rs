//! JoinSwap: an atomic two-phase coin swap between a maker and its users.
//!
//! Users move their coins into a shared contract; the maker pays the same value out
//! to fresh identities of theirs through second contracts. Timelocks and one hashlock
//! see to it that either everyone is paid or nobody loses anything.
//!
//! The library decides and checks; it leaves building, signing and sending to the
//! program around it. `maker` and `user` hold the two state machines, `validation`
//! what a user checks before it signs, `descriptor` the two contracts, `wire` the text
//! that peers exchange.

pub mod address;
pub mod bytes;
pub mod commitment;
pub mod descriptor;
pub mod error;
pub mod funding;
pub mod keys;
pub mod maker;
pub mod transaction;
pub mod user;
pub mod validation;
pub mod wallet;
pub mod wire;
