//! The `printf`-family formatting engine: format-string parsing, argument
//! fetch from a guest-memory variadic cursor, and byte-exact rendering.
//!
//! Sizes follow the guest's 32-bit C ABI: `int`, `long`, `size_t` and
//! pointers are four bytes; `long long` and `intmax_t` are eight; `char`
//! and `short` arrive promoted to `int`.
//!
//! The floating-point conversions are recognised and refused with the
//! formatting-error sentinel, as `%n` is: this core holds no floating
//! point, and a float value only ever crosses it as its raw bit pattern.

pub mod parse;
pub mod render;
pub mod types;

pub use parse::format_bytes;
pub use types::{Argument, DoubleFormat, Flags, SignedInt, Specifier, UnsignedInt};
