//! Verified core of a Bluetooth Low Energy peripheral: advertisement and GATT
//! application state, bus-addressable object trees, and the register/unregister
//! handshake with the platform's manager service.

pub mod advertisement;
pub mod application;
pub mod laws;
pub mod peripheral;
pub mod remote;
pub mod store;
pub mod tree;
pub mod values;
