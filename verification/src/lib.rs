//! Numeric types that can never hold zero, with checked arithmetic.
//!
//! - [`nzint`]: a signed 64-bit integer that is never zero.
//! - [`nzfloat`]: a 64-bit IEEE-754 number that is never zero and never NaN,
//!   held as its bit pattern, which [`binary64`] reads.
//! - [`nzsign`]: a sign, -1 or +1, that doubles as a boolean.
//! - [`decimal`]: integers written in decimal.

pub mod binary64;
pub mod decimal;
pub mod nzfloat;
pub mod nzint;
pub mod nzsign;
