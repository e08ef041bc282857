//! Local bridge to an out-of-process worker ("Core"): a process supervisor
//! with a single tracked slot, the endpoint and error text of the transport
//! connector, and the decision logic of the host-facing commands.

pub mod firewall;
pub mod platform;
pub mod procscan;
pub mod responses;
pub mod steam;
pub mod supervisor;
pub mod textfmt;
pub mod transport;
