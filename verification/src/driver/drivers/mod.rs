//! In-tree NIC drivers.
//!
//! Each driver knows which devices are its own and what has to be done to
//! their registers; a [`NicHost`] does the rest of bringing one up.

pub mod e1000;
pub mod host;
pub mod netvsc;
pub mod tulip;

pub use e1000::E1000Driver;
pub use host::{CsrAccess, Hosted, InTreePci, NicAt, NicHost, Platform};
pub use netvsc::NetvscDriver;
pub use tulip::TulipDriver;
