//! What the replica needs of the network to answer its clients.

pub mod exec;
