//! Ownership and lifetime rules for a session of the MIR just-in-time
//! toolchain, stated as contracts.
//!
//! The toolchain is a native library that is driven through a handle. This
//! crate holds the rules that a safe owner of such a handle has to follow:
//! which native entry points are called, with which arguments, and in which
//! order. Every function here is pure; whoever links the native library
//! performs the calls that these functions hand out.
//!
//! A [`Context`] is made from the handle of a freshly opened session. The
//! calls of [`Context::startup`] follow; those of [`Context::finish`] end the
//! session and use the context up. In between, [`Context::generators`]
//! borrows the context exclusively for a [`Generators`] set, whose life runs
//! from the call of [`Generators::startup`] to that of
//! [`Generators::finish`]. The module [`lifecycle`] proves that every call
//! of a session that is driven this way is in order when its turn comes.

pub mod context;
pub mod data_type;
pub mod lifecycle;
pub mod native;
pub mod optimization;

pub use context::Context;
pub use context::Generators;
pub use data_type::DataType;
pub use native::NativeCall;
pub use native::Session;
pub use optimization::Optimization;
