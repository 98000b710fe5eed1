//! A small wallet core: secp256k1 keypair generation, construction and
//! deterministic signing of value-transfer requests, and a backup protocol
//! that serializes keypairs, accumulates them in a server-side registry, and
//! plans their persistence as named storage objects.
//!
//! Network transports, the graphical front-end, and the durable object
//! store itself are external collaborators: callers hand this library plain
//! values and carry its results to the outside world.

pub mod backup;
pub mod errors;
pub mod hex;
pub mod keypair;
pub mod signer;
pub mod transaction;
