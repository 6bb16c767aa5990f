//! Ledger and instruction logic of a confidential two-outcome prediction market.
//!
//! `circuits` holds the confidential instruction set over plaintext shares and
//! tallies, `states` the durable account records, `program` the request side
//! of each instruction, `callbacks` the commit side, `queue` the bookkeeping
//! of computations in flight, and `amounts` the integer token arithmetic.
pub mod constants;
pub mod errors;
pub mod circuits;
pub mod amounts;
pub mod states;
pub mod events;
pub mod callbacks;
pub mod program;
pub mod queue;
