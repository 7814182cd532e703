//! The verified core of FogWS: connection limits, URI checks, the shared
//! lifecycle of a connection and the decisions of its reader and writer.

pub mod channel;
pub mod client;
pub mod closing;
pub mod config;
pub mod delivery;
pub mod driver;
pub mod error;
pub mod inbound;
pub mod journal;
pub mod lifecycle;
pub mod message;
pub mod py;
pub mod reader;
pub mod runtime;
pub mod shutdown;
pub mod state;
pub mod text;
pub mod world;
pub mod writer;
