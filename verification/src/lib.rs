//! Verified core of the hogg passive website scanner: configuration records,
//! the detection database, the DNS question reader, the scan cache and the
//! decisions that the DNS proxy and the nuclei runner make.

pub mod cli;
pub mod common;
pub mod config;
pub mod daemon;
pub mod grpc;
pub mod hijackers;
pub mod notifiers;
pub mod scanner;
