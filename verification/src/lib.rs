//! An Ethereum-compatible transaction execution engine meant to run as guest
//! code inside a deterministic host environment.
//!
//! The crate holds the engine's core logic: the scoped transactional stack
//! that gives nested calls atomic commit/discard semantics, the 256-bit
//! value arithmetic behind `Wei`, the exit-outcome taxonomy and its
//! translation to the host's success/failure protocol, the binary argument
//! codecs, the precompile registry with its up-front gas gate, the
//! owner-gated upgrade staging state machine, and the routing of raw and
//! meta transactions.  Host storage access, signature recovery and the
//! bytecode interpreter are collaborators: every decision this crate makes
//! is a function from plain values to plain values.

pub mod dispatch;
pub mod engine;
pub mod exit;
pub mod params;
pub mod precompiles;
pub mod stack;
pub mod types;
pub mod u256;
pub mod upgrade;
pub mod wei;

pub use stack::Stack;
pub use u256::U256;
pub use wei::Wei;
