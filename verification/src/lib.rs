//! ABI lowering for an s390x machine-code backend.
//!
//! The crate turns an abstract function signature (typed, purpose-tagged
//! parameters and returns) into a concrete calling convention: register
//! assignments, stack-slot offsets, a frame layout, and the instruction
//! sequences that build and tear down the frame.
//!
//! Modules, in the order data flows through them:
//! - [`types`]: value types, calling conventions, parameter descriptors;
//! - [`regs`]: register classification and the per-convention argument and
//!   return register tables;
//! - [`abiarg`]: assigned argument locations;
//! - [`assign`]: the argument/return location assigner;
//! - [`frame`]: the frame-layout planner;
//! - [`prologue`]: prologue, epilogue and probe instruction sequences;
//! - [`retval`]: post-call return-value loads;
//! - [`env`]: per-convention clobber sets and the register-allocator
//!   environment;
//! - [`machine`]: the machine-dependent policy type tying it together.

pub mod abiarg;
pub mod assign;
pub mod env;
pub mod frame;
pub mod inst;
pub mod machine;
pub mod prologue;
pub mod regs;
pub mod retval;
pub mod types;
