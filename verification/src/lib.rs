//! A small record of three numbers, and integer arithmetic with an explicit
//! overflow policy.
//!
//! * [`record`] holds the record and its constructor.
//! * [`arithmetic`] holds subtraction and counting. Every operation there
//!   either demands, as a precondition, that its exact result fits the
//!   integer type, or reports the reduced result together with a flag that
//!   says whether reduction took place. Nothing wraps silently.

pub mod arithmetic;
pub mod record;
