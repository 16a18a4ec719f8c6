//! Small verified routines on the basic semantics of Rust values: bindings,
//! shadowing, destructuring, ownership of returned data, integer overflow and
//! bitwise operators. Each routine returns the values it demonstrates, and its
//! contract states them exactly.
use vstd::prelude::*;

pub mod variables;
pub mod fundamental_type;
pub mod ownership_borrow;
