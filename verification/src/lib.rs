//! The decisions of a packet-relaying drone in a source-routed network.

pub mod action;
pub mod behavior;
pub mod controller;
pub mod drone;
pub mod fault;
pub mod laws;
pub mod model;
pub mod network;
pub mod operations;
pub mod packet;
pub mod rate;
pub mod run;

pub use drone::RustRoveri;
