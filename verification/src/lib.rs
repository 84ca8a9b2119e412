//! An agent-check bridge: it answers a load balancer's line-oriented agent
//! checks with `up` or `down` after asking the backend for its health over
//! gRPC (`grpc.health.v1.Health/Check`).
//!
//! The library holds the rules and decides; it performs no I/O. A program
//! around it reads and writes sockets, dials and calls, and hands each
//! outcome back:
//!
//! - `text`: whitespace-separated fields and unsigned decimal numbers;
//! - `protocol`: request lines and response lines;
//! - `config`: the settings and where they come from;
//! - `checker`: the channel cache, the dial plan, and a probe step by step;
//! - `server`: a connection and the listener, step by step, and what is logged.

pub mod checker;
pub mod config;
pub mod protocol;
pub mod server;
pub mod text;
