//! A virtual audio loopback bus: the wire vocabulary shared with clients, a
//! single-producer/single-consumer byte ring buffer, the registry of virtual
//! devices, and the control dispatcher with the bus device's Plug-and-Play
//! lifecycle.
pub mod wire;
pub mod ring;
pub mod registry;
pub mod control;
