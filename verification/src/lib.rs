//! Discovery of GPU hardware information over a kernel driver's ioctl
//! interface.
//!
//! The crate explores an undocumented binary command space behind a device
//! node: it packs and unpacks 32-bit command words, classifies each probe's
//! `(return value, errno)` pair into a fixed outcome taxonomy, gates every
//! probe behind a safety policy and a call budget, recovers unknown argument
//! sizes with a bounded search, and matches the results against curated
//! hardware profiles to build a structured descriptor.
//!
//! The crate itself never touches a device: the scan and match engines hand
//! out probe requests and consume replies, so a thin driver around the crate
//! performs the actual syscalls.

pub mod codec;
pub mod interpret;
pub mod text;
pub mod config;
pub mod outcome;
pub mod parsers;
pub mod mappings;
pub mod error;
pub mod gpuinfo;
pub mod profiles;
pub mod engine;
pub mod matcher;
pub mod analyzer;
pub mod stats;
pub mod api;

pub use crate::analyzer::PatternAnalyzer;
pub use crate::api::{find_gpu_device, get_gpu_info_static, DiscoveryResult};
pub use crate::config::{DiscoveryConfig, DiscoveryOptions, Verbosity};
pub use crate::engine::IoctlDiscovery;
pub use crate::error::DiscoveryError;
pub use crate::gpuinfo::{DetectedIoctl, GpuInfo};
pub use crate::interpret::{Interpretation, IoctlTestResult};
pub use crate::mappings::{identify_adreno_gpu, identify_mali_gpu, AdrenoGpuModel, GpuTier,
    GpuVendor, MaliGpuModel};
pub use crate::outcome::IoctlResult;
pub use crate::profiles::{load_adreno_profiles, load_mali_profiles, IoctlDefinition,
    IoctlProfile};

use vstd::prelude::*;

verus! {

/// Library version string.
pub const VERSION: &'static str = "0.1.0";

/// The crate's version, as a string.
pub fn version() -> (v: &'static str)
    ensures
        v@ == VERSION@,
{
    VERSION
}

/// Prepare the library for use. Nothing is configured globally today; the
/// call is kept so that callers have one stable setup point.
pub fn init() {
}

} // verus!
