//! Two-step continuations across an execution boundary, and a
//! secondary-indexed record store, for contract modules that hand
//! work to other modules and settle it when the result comes back.

pub mod amount;
pub mod error;
pub mod codec;
pub mod continuation;
pub mod messages;
pub mod locks;
pub mod directory;
mod sorted;
pub mod indexed;
pub mod state;
pub mod dispatch;
pub mod resolver;
pub mod laws;
