//! A crowdfunding program over SPL tokens: a maker opens a fundraiser with a
//! target and a duration, contributors fund a vault (each at most a tenth of
//! the target), and after the campaign the maker collects the vault if the
//! target was met, or contributors take their contributions back if it was not.
//!
//! The library holds every decision of the program, each stated over the
//! values read from its accounts; the laws that span instructions are in
//! [`laws`].

pub mod arith;
pub mod constants;
pub mod error;
pub mod instructions;
pub mod laws;
pub mod le;
pub mod pda;
pub mod state;
