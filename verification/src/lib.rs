//! A systematic Reed-Solomon erasure codec over fixed-size shreds, together
//! with an unreliable, overrun-tolerant single-producer/single-consumer ring
//! consumer and a small command runner helper.
//!
//! The codec computes parity shreds from data shreds and reconstructs erased
//! shreds from any sufficient surviving subset.  The ring consumer is a pure
//! decision core: it is fed the sequence numbers an outer polling loop reads
//! from shared memory and decides whether to wait, adopt a newer sequence
//! after an overrun, deliver a copied payload, or discard a torn copy.

pub mod codec;
pub mod ring;
pub mod runner;
pub mod gf;
