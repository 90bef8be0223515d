//! Synchronisation primitives for bare-metal targets: a token that stands for
//! "a critical section is active", and a cell whose shared reads are gated on
//! presenting such a token.

pub mod critsect;
pub mod mutex;

pub use critsect::CritSect;
pub use mutex::Mutex;
