//! Rabbit stream cipher (RFC 4503).
//!
//! A 128-bit-key stream cipher: the key (and an optional 64-bit
//! initialization vector) deterministically seeds an internal state, and
//! each state update yields 16 keystream bytes that are combined with the
//! data by exclusive-or.  Every state transition and every byte of output
//! is pinned down by the specification functions alongside the code.

pub mod cipher;
pub mod keys;
pub mod schedule;
pub mod state;
pub mod stream;

pub use cipher::Rabbit;
pub use cipher::RabbitView;
pub use keys::InitVec;
pub use keys::Key;
pub use state::State;
pub use stream::Stream;
