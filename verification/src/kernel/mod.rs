//! What the kernels decide: how they boot, and how they serve.

pub mod boot;
pub mod counters;
pub mod echo;
pub mod hyperv;
pub mod nic;
pub mod tsc;
