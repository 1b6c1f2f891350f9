//! A small integer calculator: addition, subtraction, multiplication and
//! division on `i32`, each with a machine-checked contract.
//!
//! Overflow policy: every operation wraps around in two's complement, so all
//! four operations are total except for division by zero, which is reported
//! as an error value.

pub mod arith;
pub mod calculator;
pub mod error;
