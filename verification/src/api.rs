//! High-level entry points that need no device of their own: the scan
//! result wrapper, the default set of types a scan visits, device choice,
//! and static identification from the profile catalog alone.

use vstd::prelude::*;
use crate::engine::{spec_allowed, IoctlDiscovery};
use crate::error::DiscoveryError;
use crate::gpuinfo::GpuInfo;
use crate::matcher::create_gpu_info_from_profile;
use crate::outcome::IoctlResult;
use crate::profiles::{load_adreno_profiles, load_mali_profiles};

verus! {

/// The outcome of one finished discovery run: the engine with everything it
/// recorded.
pub struct DiscoveryResult {
    /// The engine that performed the scans.
    pub discovery: IoctlDiscovery,
}

impl DiscoveryResult {
    /// Wrap a finished engine.
    pub fn new(discovery: IoctlDiscovery) -> (r: Self)
        ensures
            r.discovery == discovery,
    {
        DiscoveryResult { discovery }
    }

    /// All recorded outcomes.
    pub fn results(&self) -> (r: &Vec<IoctlResult>)
        ensures
            r == &self.discovery.results,
    {
        &self.discovery.results
    }

    /// The engine itself.
    pub fn scanner(&self) -> (r: &IoctlDiscovery)
        ensures
            r == &self.discovery,
    {
        &self.discovery
    }

    /// The number of probe attempts the engine made.
    pub fn call_count(&self) -> (r: u32)
        ensures
            r == self.discovery.call_counter,
    {
        self.discovery.get_call_count()
    }
}

/// The types a default scan visits: the common one always, then each of the
/// well-known candidates that the policy permits.
pub open spec fn spec_default_scan_types(e: IoctlDiscovery) -> Seq<u8> {
    seq![0x80u8] + spec_allowed_singleton(e, 0x64) + spec_allowed_singleton(e, 0x46)
        + spec_allowed_singleton(e, 0x4B) + spec_allowed_singleton(e, 0x54)
        + spec_allowed_singleton(e, 0x6D)
}

/// One candidate type, when the policy permits it.
pub open spec fn spec_allowed_singleton(e: IoctlDiscovery, ty: u8) -> Seq<u8> {
    if spec_allowed(e.options, ty) {
        seq![ty]
    } else {
        Seq::empty()
    }
}

/// The types a default scan of this engine visits, in order: the common
/// type first, unconditionally, then each further well-known candidate the
/// policy permits.
pub fn default_scan_types(e: &IoctlDiscovery) -> (r: Vec<u8>)
    ensures
        r@ == spec_default_scan_types(*e),
{
    let mut types: Vec<u8> = Vec::new();
    types.push(0x80);
    if e.is_allowed(0x64) {
        types.push(0x64);
    }
    if e.is_allowed(0x46) {
        types.push(0x46);
    }
    if e.is_allowed(0x4B) {
        types.push(0x4B);
    }
    if e.is_allowed(0x54) {
        types.push(0x54);
    }
    if e.is_allowed(0x6D) {
        types.push(0x6D);
    }
    proof {
        assert(types@ =~= spec_default_scan_types(*e));
    }
    types
}

/// Choose the most likely GPU device from the devices that exist on the
/// system: the first one, in the established probing order.
pub fn find_gpu_device(devices: Vec<String>) -> (r: Option<String>)
    ensures
        (r is None) == (devices@.len() == 0),
        r matches Some(d) ==> devices@.len() > 0 && d == devices@[0],
{
    let mut devices = devices;
    if devices.len() == 0 {
        None
    } else {
        Some(devices.remove(0))
    }
}

/// Identify a GPU from the profile catalog alone, with no probing: the
/// first (most specific) profile seeds the descriptor, as a best guess for
/// minimal builds.
pub fn get_gpu_info_static() -> (r: Result<GpuInfo, DiscoveryError>)
    ensures
        r matches Ok(info) ==> info.vendor@ == "Mali"@ && info.model@ == "Mali-G71"@
            && info.cores == Some(2u8) && info.driver_version is None && info.gpu_id is None,
        r is Ok,
{
    let mut all_profiles = load_mali_profiles();
    let mut adreno = load_adreno_profiles();
    while adreno.len() > 0
        invariant
            all_profiles@.len() >= 1,
            all_profiles@[0].vendor@ == "Mali"@,
            all_profiles@[0].model@ == "Mali-G71"@,
            all_profiles@[0].metadata.core_count == Some(2u8),
        decreases adreno@.len(),
    {
        let p = adreno.remove(0);
        all_profiles.push(p);
    }
    if all_profiles.len() == 0 {
        Err(DiscoveryError::NoProfile)
    } else {
        Ok(create_gpu_info_from_profile(&all_profiles[0]))
    }
}

} // verus!
