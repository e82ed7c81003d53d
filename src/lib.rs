//! A bridge from a peer-to-peer swarm, driven on an async runtime, to a host
//! that advances in discrete ticks: the swarm's occurrences become owned
//! messages, travel through a bounded channel, and are taken one per tick.
pub mod bridge;
pub mod driver;
pub mod event;
pub mod outside;
