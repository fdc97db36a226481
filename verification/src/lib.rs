//! A thin monitoring shell for an Ethereum-compatible chain: it resolves a
//! signing credential from command-line options, pairs it with an RPC
//! provider behind a client facade, and drains a subscription stream of
//! blocks or contract events to standard output, one record per line.

pub mod cli;
pub mod client;
pub mod credential;
pub mod errors;
pub mod pool;
pub mod watch;
