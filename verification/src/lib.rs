//! A builder layer for zero-knowledge-provable subqueries against blockchain
//! data: receipt fields, log topics and data, and storage slots.
//!
//! A fluent chain of builder calls (`get_receipt(..).log(..).topic(..)`,
//! `get_storage(..).slot(..)`) deterministically produces one canonical
//! subquery record and submits it to a [`caller::SubqueryCaller`], which
//! answers with a two-limb [`hilo::HiLo`] value. Every piece of offset
//! arithmetic on a field index is performed through the proof context's
//! constrained-addition primitive, recorded in [`circuit::Context`], so the
//! produced values stay bound to the constraint system.

pub mod caller;
pub mod circuit;
pub mod compute;
pub mod hilo;
pub mod receipt;
pub mod storage;
pub mod subquery;

pub use caller::SubqueryCaller;
pub use circuit::Context;
pub use hilo::HiLo;
pub use receipt::get_receipt;
pub use storage::get_storage;
