//! What holds of the manager as a whole.

pub mod batches;
pub mod collections;
pub mod managers;
pub mod rounds;
pub mod setup;
