//! The Areion family of cryptographic hash functions: a fixed, keyless
//! block permutation built from AES rounds, a Davies–Meyer and a
//! Matyas–Meyer–Oseas compression over it, and four domain-extension
//! constructions — a serial Merkle–Damgård-style mode, a
//! Matyas–Meyer–Oseas mode, a HAIFA-style mode with block counters, and a
//! sponge mode. Every function carries a contract stating its result over
//! the byte-level specification of the permutation.

pub mod sbox;
pub mod lane;
pub mod perm;
pub mod compress;
pub mod buffer;
pub mod pad;
pub mod md;
pub mod mmo;
pub mod haifa;
pub mod sponge;
