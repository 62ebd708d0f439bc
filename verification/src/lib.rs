//! A verified keyed stream-transformation library.
//!
//! The library defines a transformation contract (`processor::StreamProcessor`),
//! a single-consumer/single-producer runtime over that contract
//! (`runtime::StreamRunner`), and a reference transformation that derives
//! midprice and microprice records from market quotes (`processor::MicroPricer`).
//! Prices are fixed-point integers (counts of the deployment's smallest price
//! increment) and derived prices are exact rationals, so every numeric claim
//! is provable and exact.

pub mod pricing;
pub mod processor;
pub mod quote;
pub mod rational;
pub mod runtime;
