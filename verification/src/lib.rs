//! A signature-transformation engine for dynamic-loader interposition hooks.
//!
//! Given a function declaration whose first parameter is an unresolved
//! placeholder ("the hole") and the name of the symbol to intercept (the
//! origin), the library derives the foreign-callable function-pointer type
//! that fills the hole, validates the declaration's structure, and emits a
//! trampoline: an exported forwarding function whose export name is the
//! origin string and whose body resolves the next definition of the origin
//! symbol and hands the resolved pointer to the hook.
//!
//! The whole transform is a pure function from a declaration and an origin
//! name to either a generated artifact or a diagnostic; rendering the
//! artifact to source tokens and parsing real syntax trees live outside the
//! library.

pub mod model;
pub mod text;
pub mod attr;
pub mod validate;
pub mod synth;
pub mod names;
pub mod render;
pub mod emit;
pub mod laws;
