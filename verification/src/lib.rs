//! A small cryptographic identity core.
//!
//! It generates Ed25519 signing keypairs, derives a stable content-addressed
//! node identifier from the public key by hashing it with BLAKE3, signs and
//! verifies messages, and computes BLAKE3 digests of arbitrary byte payloads.
//! The persistent store and the QUIC transport that the surrounding system
//! expects are external collaborators with no implementation at this layer:
//! their operations uniformly report that they are not implemented.

pub mod digest;
pub mod errors;
pub mod identity;
pub mod store;
pub mod transport;
