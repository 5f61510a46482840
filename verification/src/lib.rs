//! Verified core of a tranche protocol: a deposit is split into a senior and a
//! junior tranche, each represented by its own token, and redeemed later.
//! The library decides what the on-chain instructions do (which token movements
//! happen, with which amounts, and which accounts are created); the program
//! around it performs those movements.
pub mod action;
pub mod state;
pub mod serum;
pub mod tranche;
pub mod error;
pub mod redeem;
