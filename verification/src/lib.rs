//! A Stratum mining proxy: what it reads, what it keeps, what it decides and what it answers.
//!
//! The pool's lines go through `upstream`, a miner's through `miner`, and what a miner of the
//! second protocol version sends through `wire` and `sv2`. The rest is what these are made of:
//! JSON documents, the messages that the proxy writes, shares, extranonces and keys.
pub mod codec;
pub mod extranonce;
pub mod json;
pub mod keys;
pub mod line;
pub mod message;
pub mod miner;
pub mod node;
pub mod share;
pub mod sv2;
pub mod upstream;
pub mod wire;
