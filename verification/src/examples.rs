//! The example snippets themselves: small, verified demonstrations of
//! enums, functions, generics, lifetimes, strings and structs.

pub mod enums;
pub mod functions;
pub mod generics;
pub mod lifetimes;
pub mod strings;
pub mod structs;
