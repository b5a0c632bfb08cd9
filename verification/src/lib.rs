//! Connection lifecycle of a SOCKS5 ingress proxy: the address codec, the
//! handshake engine, the per-session decisions and the duplex relay, all as
//! pure state machines over bytes.

pub mod addr;
pub mod bytes;
pub mod engine;
pub mod handshake;
pub mod isolation;
pub mod relay;
pub mod session;
pub mod socks5;
pub mod wire;
