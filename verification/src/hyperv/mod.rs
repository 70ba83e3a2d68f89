//! Hyper-V guest support: detection, SynIC, VMBus and the NetVSC NIC.

pub mod boot;
pub mod detect;
pub mod error;
pub mod guid;
pub mod isr;
pub mod msr;
pub mod netvsc;
pub mod netvsc_embassy;
pub mod nvsp;
pub mod synic;
pub mod vmbus;
pub mod wait;

pub use boot::{init, try_init};
pub use error::HvError;
pub use guid::Guid;
pub use vmbus::{ChannelOffer, VmBus};
