//! Bus / driver / device abstraction.

pub mod bus;
pub mod defaults;
pub mod driver;
pub mod drivers;
pub mod error;
pub mod probe;
pub mod registry;

pub use bus::{Bus, VmBusEnum};
pub use defaults::{register_default_drivers, register_named_driver};
pub use driver::{
    select_primary, PciDriver, PciProbe, ProbeCtx, ProbedNic, VmBusDriver, VmBusProbe,
};
pub use error::ProbeError;
pub use probe::{probe_all, PROBE_BUDGET};
pub use registry::DriverRegistry;
