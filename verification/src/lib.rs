//! Transaction construction for administering an automated-market-maker
//! program: deterministic address derivation, instruction encoding with a
//! fixed account order, signing, and the decisions of the submission loop.

pub mod address;
pub mod config;
pub mod derivation;
pub mod dispatch;
pub mod failure;
pub mod instruction;
pub mod keys;
pub mod submit;
pub mod transaction;
