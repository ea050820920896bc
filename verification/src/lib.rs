//! The decisions of a node agent that supervises a local inference engine,
//! takes its role in a cluster from a coordination service, and relays
//! inference requests to the engine: launch arguments, the agent's state
//! machine, mode reconciliation, the relay protocol and the periodic reporter.
//! Processes, sockets and files are left to the caller, which hands this
//! library plain values and carries out what it decides.

pub mod chain;
pub mod cluster;
pub mod config;
pub mod json;
pub mod llama_bin;
pub mod preflight;
pub mod process;
pub mod relay;
pub mod reporter;
pub mod rlp;
pub mod state;
pub mod system;
pub mod text;
