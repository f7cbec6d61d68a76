//! Keeps a DNS record on the Vercel API pointed at the machine's current
//! public IP address. The library holds everything that decides: syntactic
//! validation of discovered addresses, the resolver fallback order, the
//! record payload and its JSON framing, the exact mapping from HTTP
//! responses to typed errors, and the state machine that sequences one run.
//! The caller performs the network actions the machine asks for and feeds
//! the observed results back in.

pub mod cli;
pub mod ip;
pub mod text;
pub mod vercel;
