//! The structured hardware descriptor built by the profile matcher, and the
//! plain metadata model carried by profiles.

use vstd::prelude::*;

verus! {

/// One descriptive metadata value: an integer or a piece of text.
#[derive(Debug, PartialEq, Eq)]
pub enum MetaValue {
    /// A numeric value.
    Int(i64),
    /// A textual value.
    Text(String),
}

impl Clone for MetaValue {
    /// An exact copy of the value.
    fn clone(&self) -> (r: Self)
        ensures
            r == *self,
    {
        match self {
            MetaValue::Int(n) => MetaValue::Int(*n),
            MetaValue::Text(s) => MetaValue::Text(s.clone()),
        }
    }
}

/// One descriptive metadata entry, keyed by name.
#[derive(Debug, PartialEq, Eq)]
pub struct MetaEntry {
    /// The entry's name.
    pub key: String,
    /// The entry's value.
    pub value: MetaValue,
}

impl Clone for MetaEntry {
    /// An exact copy of the entry.
    fn clone(&self) -> (r: Self)
        ensures
            r == *self,
    {
        MetaEntry { key: self.key.clone(), value: self.value.clone() }
    }
}

/// Copy a list of metadata entries.
pub fn clone_entries(v: &Vec<MetaEntry>) -> (r: Vec<MetaEntry>)
    ensures
        r@ == v@,
{
    let mut r: Vec<MetaEntry> = Vec::new();
    let mut i: usize = 0;
    while i < v.len()
        invariant
            i <= v@.len(),
            r@ == v@.subrange(0, i as int),
        decreases v@.len() - i,
    {
        r.push(v[i].clone());
        proof {
            assert(r@ =~= v@.subrange(0, i + 1));
        }
        i += 1;
    }
    proof {
        assert(r@ =~= v@);
    }
    r
}

/// The typed metadata carried by a profile and by the final descriptor: the
/// fields the matcher reads and fills, plus free-form descriptive notes.
#[derive(Debug)]
pub struct GpuMetadata {
    /// Architecture generation.
    pub architecture: Option<String>,
    /// Architecture version, "major.minor".
    pub arch_version: Option<String>,
    /// Number of shader cores.
    pub core_count: Option<u8>,
    /// Bitmask of active cores.
    pub core_mask: Option<u32>,
    /// Number of L2 cache slices.
    pub l2_cache_count: Option<u8>,
    /// Total L2 cache size in bytes.
    pub l2_cache_size: Option<u32>,
    /// Memory bus width in bits.
    pub bus_width: Option<u16>,
    /// Execution engines per core.
    pub engines_per_core: Option<u8>,
    /// FP32 FMA operations per cycle per core.
    pub fp32_fmas_per_core: Option<u16>,
    /// FP16 FMA operations per cycle per core.
    pub fp16_fmas_per_core: Option<u16>,
    /// Texels per cycle per core.
    pub texels_per_core: Option<u16>,
    /// Pixels per cycle per core.
    pub pixels_per_core: Option<u16>,
    /// FP32 FMA operations per cycle over all cores, derived by the matcher.
    pub total_fp32_fmas: Option<u32>,
    /// FP16 FMA operations per cycle over all cores, derived by the matcher.
    pub total_fp16_fmas: Option<u32>,
    /// Texels per cycle over all cores, derived by the matcher.
    pub total_texels_per_cycle: Option<u32>,
    /// Pixels per cycle over all cores, derived by the matcher.
    pub total_pixels_per_cycle: Option<u32>,
    /// Free-form descriptive entries (device names, provenance and the
    /// like); never read by the matcher.
    pub notes: Vec<MetaEntry>,
}

/// Field-wise equality of two metadata records except the derived
/// throughput totals, with the notes compared as sequences.
pub open spec fn spec_meta_eq_except_totals(a: GpuMetadata, b: GpuMetadata) -> bool {
    &&& a.architecture == b.architecture
    &&& a.arch_version == b.arch_version
    &&& a.core_count == b.core_count
    &&& a.core_mask == b.core_mask
    &&& a.l2_cache_count == b.l2_cache_count
    &&& a.l2_cache_size == b.l2_cache_size
    &&& a.bus_width == b.bus_width
    &&& a.engines_per_core == b.engines_per_core
    &&& a.fp32_fmas_per_core == b.fp32_fmas_per_core
    &&& a.fp16_fmas_per_core == b.fp16_fmas_per_core
    &&& a.texels_per_core == b.texels_per_core
    &&& a.pixels_per_core == b.pixels_per_core
    &&& a.notes@ == b.notes@
}

/// Field-wise equality of two metadata records, with the notes compared as
/// sequences.
pub open spec fn spec_meta_eq(a: GpuMetadata, b: GpuMetadata) -> bool {
    &&& a.architecture == b.architecture
    &&& a.arch_version == b.arch_version
    &&& a.core_count == b.core_count
    &&& a.core_mask == b.core_mask
    &&& a.l2_cache_count == b.l2_cache_count
    &&& a.l2_cache_size == b.l2_cache_size
    &&& a.bus_width == b.bus_width
    &&& a.engines_per_core == b.engines_per_core
    &&& a.fp32_fmas_per_core == b.fp32_fmas_per_core
    &&& a.fp16_fmas_per_core == b.fp16_fmas_per_core
    &&& a.texels_per_core == b.texels_per_core
    &&& a.pixels_per_core == b.pixels_per_core
    &&& a.total_fp32_fmas == b.total_fp32_fmas
    &&& a.total_fp16_fmas == b.total_fp16_fmas
    &&& a.total_texels_per_cycle == b.total_texels_per_cycle
    &&& a.total_pixels_per_cycle == b.total_pixels_per_cycle
    &&& a.notes@ == b.notes@
}

impl GpuMetadata {
    /// A record with every field unset and no notes.
    pub fn empty() -> (r: Self)
        ensures
            r.architecture is None,
            r.arch_version is None,
            r.core_count is None,
            r.core_mask is None,
            r.l2_cache_count is None,
            r.l2_cache_size is None,
            r.bus_width is None,
            r.engines_per_core is None,
            r.fp32_fmas_per_core is None,
            r.fp16_fmas_per_core is None,
            r.texels_per_core is None,
            r.pixels_per_core is None,
            r.total_fp32_fmas is None,
            r.total_fp16_fmas is None,
            r.total_texels_per_cycle is None,
            r.total_pixels_per_cycle is None,
            r.notes@.len() == 0,
    {
        GpuMetadata {
            architecture: None,
            arch_version: None,
            core_count: None,
            core_mask: None,
            l2_cache_count: None,
            l2_cache_size: None,
            bus_width: None,
            engines_per_core: None,
            fp32_fmas_per_core: None,
            fp16_fmas_per_core: None,
            texels_per_core: None,
            pixels_per_core: None,
            total_fp32_fmas: None,
            total_fp16_fmas: None,
            total_texels_per_cycle: None,
            total_pixels_per_cycle: None,
            notes: Vec::new(),
        }
    }

    /// A field-wise copy of the record.
    pub fn duplicate(&self) -> (r: Self)
        ensures
            spec_meta_eq(r, *self),
    {
        GpuMetadata {
            architecture: match &self.architecture {
                Some(s) => Some(s.clone()),
                None => None,
            },
            arch_version: match &self.arch_version {
                Some(s) => Some(s.clone()),
                None => None,
            },
            core_count: self.core_count,
            core_mask: self.core_mask,
            l2_cache_count: self.l2_cache_count,
            l2_cache_size: self.l2_cache_size,
            bus_width: self.bus_width,
            engines_per_core: self.engines_per_core,
            fp32_fmas_per_core: self.fp32_fmas_per_core,
            fp16_fmas_per_core: self.fp16_fmas_per_core,
            texels_per_core: self.texels_per_core,
            pixels_per_core: self.pixels_per_core,
            total_fp32_fmas: self.total_fp32_fmas,
            total_fp16_fmas: self.total_fp16_fmas,
            total_texels_per_cycle: self.total_texels_per_cycle,
            total_pixels_per_cycle: self.total_pixels_per_cycle,
            notes: clone_entries(&self.notes),
        }
    }
}

/// Information about one probed signature command.
#[derive(Debug)]
pub struct DetectedIoctl {
    /// Command name from the profile.
    pub name: String,
    /// Packed command number.
    pub cmd: u32,
    /// Whether the command looked usable.
    pub works: bool,
    /// Whether the command appears wired up at all (not ENOTTY).
    pub returns_data: bool,
    /// Error number, if the call failed.
    pub errno: Option<i32>,
    /// Raw return value of the call.
    pub return_value: Option<i32>,
}

impl Clone for DetectedIoctl {
    /// An exact copy of the record.
    fn clone(&self) -> (r: Self)
        ensures
            r == *self,
    {
        DetectedIoctl {
            name: self.name.clone(),
            cmd: self.cmd,
            works: self.works,
            returns_data: self.returns_data,
            errno: self.errno,
            return_value: self.return_value,
        }
    }
}

/// Structured GPU information: the descriptor assembled from a matched
/// profile and the live probe responses.
#[derive(Debug)]
pub struct GpuInfo {
    /// GPU vendor name.
    pub vendor: String,
    /// GPU model name.
    pub model: String,
    /// Architecture generation.
    pub architecture: Option<String>,
    /// Driver version.
    pub driver_version: Option<String>,
    /// Raw GPU hardware identifier.
    pub gpu_id: Option<u32>,
    /// Number of shader cores.
    pub cores: Option<u8>,
    /// Named feature flags.
    pub features: Vec<String>,
    /// The signature commands that were probed.
    pub detected_ioctls: Vec<DetectedIoctl>,
    /// Additional metadata.
    pub metadata: GpuMetadata,
    /// Architecture version, "major.minor".
    pub arch_version: Option<String>,
    /// Bitmask of active cores.
    pub core_mask: Option<u32>,
    /// Number of L2 cache slices.
    pub l2_cache_count: Option<u8>,
    /// Total L2 cache size in bytes.
    pub l2_cache_size: Option<u32>,
    /// Memory bus width in bits.
    pub bus_width: Option<u16>,
    /// Execution engines per core.
    pub engines_per_core: Option<u8>,
    /// FP32 FMA operations per cycle per core.
    pub fp32_fmas_per_core: Option<u16>,
    /// FP16 FMA operations per cycle per core.
    pub fp16_fmas_per_core: Option<u16>,
    /// Texels per cycle per core.
    pub texels_per_core: Option<u16>,
    /// Pixels per cycle per core.
    pub pixels_per_core: Option<u16>,
}

} // verus!
