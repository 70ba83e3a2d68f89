//! Network configuration and announcements.

pub mod arp;
pub mod config;
