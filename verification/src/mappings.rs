//! The hardware model catalog: known GPU models keyed by hardware
//! identifier, and the verified lookup that picks the most specific match.

use vstd::prelude::*;
use vstd::string::StringExecFns;

verus! {

/// Known GPU vendors.
#[derive(Debug, Clone, Copy, PartialEq, Eq, Structural)]
pub enum GpuVendor {
    /// ARM Mali GPUs.
    Mali,
    /// Qualcomm Adreno GPUs (not yet fully implemented).
    Adreno,
    /// Unknown or unsupported vendor.
    Unknown,
}

/// The display name of a vendor.
pub open spec fn spec_vendor_label(v: GpuVendor) -> Seq<char> {
    match v {
        GpuVendor::Mali => "ARM Mali"@,
        GpuVendor::Adreno => "Qualcomm Adreno"@,
        GpuVendor::Unknown => "Unknown"@,
    }
}

impl GpuVendor {
    /// The display name of this vendor.
    pub fn label(&self) -> (r: String)
        ensures
            r@ == spec_vendor_label(*self),
    {
        match self {
            GpuVendor::Mali => String::from_str("ARM Mali"),
            GpuVendor::Adreno => String::from_str("Qualcomm Adreno"),
            GpuVendor::Unknown => String::from_str("Unknown"),
        }
    }
}

/// Performance and power tier of a GPU model.
#[derive(Debug, Clone, Copy, PartialEq, Eq, Structural)]
pub enum GpuTier {
    /// Very low-end, ultra power efficient.
    UltraLowPower,
    /// Low to mid range, power efficient.
    LowPower,
    /// Mainstream performance class.
    Mainstream,
    /// Flagship, high performance.
    HighPerformance,
}

/// One Mali GPU model: identification bits plus per-core performance
/// figures.
#[derive(Debug)]
pub struct MaliGpuModel {
    /// Hardware ID (lower 16 bits of the identifier register).
    pub id: u16,
    /// Mask for hardware ID comparison.
    pub id_mask: u16,
    /// Minimum number of cores required for this marketing name.
    pub min_cores: u8,
    /// Marketing name.
    pub name: String,
    /// Architecture generation.
    pub architecture: String,
    /// Performance/power tier.
    pub tier: GpuTier,
    /// Shader execution engines per core.
    pub execution_engines: u8,
    /// FP32 FMA operations per engine per cycle.
    pub fma_per_engine: u16,
    /// Texels processed per cycle per core.
    pub texels_per_cycle: u8,
    /// Pixels processed per cycle per core.
    pub pixels_per_cycle: u8,
}

impl Clone for MaliGpuModel {
    /// An exact copy of the entry.
    fn clone(&self) -> (r: Self)
        ensures
            r == *self,
    {
        MaliGpuModel {
            id: self.id,
            id_mask: self.id_mask,
            min_cores: self.min_cores,
            name: self.name.clone(),
            architecture: self.architecture.clone(),
            tier: self.tier,
            execution_engines: self.execution_engines,
            fma_per_engine: self.fma_per_engine,
            texels_per_cycle: self.texels_per_cycle,
            pixels_per_cycle: self.pixels_per_cycle,
        }
    }
}

/// Hardware ID: the lower 16 bits of a combined 32-bit Mali identifier
/// (layout: variant, core count, hardware ID).
pub open spec fn spec_mali_gpu_id(gpu_id: u32) -> u16 {
    (gpu_id & 0xFFFF) as u16
}

/// Shader core count: bits 16 to 23 of a combined Mali identifier.
pub open spec fn spec_mali_core_count(gpu_id: u32) -> u8 {
    ((gpu_id >> 16) & 0xFF) as u8
}

/// Variant number: the top 8 bits of a combined Mali identifier.
pub open spec fn spec_mali_variant(gpu_id: u32) -> u8 {
    ((gpu_id >> 24) & 0xFF) as u8
}

/// Extract the hardware ID from a combined 32-bit Mali identifier.
pub fn parse_mali_gpu_id(gpu_id: u32) -> (r: u16)
    ensures
        r == spec_mali_gpu_id(gpu_id),
{
    (gpu_id & 0xFFFF) as u16
}

/// Extract the shader core count from a combined 32-bit Mali identifier.
pub fn parse_mali_core_count(gpu_id: u32) -> (r: u8)
    ensures
        r == spec_mali_core_count(gpu_id),
{
    ((gpu_id >> 16u32) & 0xFF) as u8
}

/// Extract the variant number from a combined 32-bit Mali identifier.
pub fn parse_mali_variant(gpu_id: u32) -> (r: u8)
    ensures
        r == spec_mali_variant(gpu_id),
{
    ((gpu_id >> 24u32) & 0xFF) as u8
}


/// The spec-level image of one catalog entry: the same fields, with the
/// strings as character sequences.
#[verifier::ext_equal]
pub struct ModelSpec {
    /// Hardware ID.
    pub id: u16,
    /// Mask for hardware ID comparison.
    pub id_mask: u16,
    /// Minimum number of cores for this marketing name.
    pub min_cores: u8,
    /// Marketing name.
    pub name: Seq<char>,
    /// Architecture generation.
    pub architecture: Seq<char>,
    /// Performance/power tier.
    pub tier: GpuTier,
    /// Shader execution engines per core.
    pub execution_engines: u8,
    /// FP32 FMA operations per engine per cycle.
    pub fma_per_engine: u16,
    /// Texels processed per cycle per core.
    pub texels_per_cycle: u8,
    /// Pixels processed per cycle per core.
    pub pixels_per_cycle: u8,
}

impl View for MaliGpuModel {
    type V = ModelSpec;

    open spec fn view(&self) -> ModelSpec {
        ModelSpec {
            id: self.id,
            id_mask: self.id_mask,
            min_cores: self.min_cores,
            name: self.name@,
            architecture: self.architecture@,
            tier: self.tier,
            execution_engines: self.execution_engines,
            fma_per_engine: self.fma_per_engine,
            texels_per_cycle: self.texels_per_cycle,
            pixels_per_cycle: self.pixels_per_cycle,
        }
    }
}

impl DeepView for MaliGpuModel {
    type V = ModelSpec;

    open spec fn deep_view(&self) -> ModelSpec {
        self.view()
    }
}

/// The catalog as a spec-level value: exactly the entries of
/// [`mali_gpu_models`], in the same priority order.
pub open spec fn spec_mali_catalog() -> Seq<ModelSpec> {
    seq![
        ModelSpec {
            id: 0x6956,
            id_mask: 0xFFF0,
            min_cores: 1,
            name: "Mali-T600"@,
            architecture: "Midgard"@,
            tier: GpuTier::UltraLowPower,
            execution_engines: 2,
            fma_per_engine: 4,
            texels_per_cycle: 1,
            pixels_per_cycle: 1,
        },
        ModelSpec {
            id: 0x0620,
            id_mask: 0xFFF0,
            min_cores: 1,
            name: "Mali-T620"@,
            architecture: "Midgard"@,
            tier: GpuTier::UltraLowPower,
            execution_engines: 2,
            fma_per_engine: 4,
            texels_per_cycle: 1,
            pixels_per_cycle: 1,
        },
        ModelSpec {
            id: 0x0720,
            id_mask: 0xFFF0,
            min_cores: 1,
            name: "Mali-T720"@,
            architecture: "Midgard"@,
            tier: GpuTier::UltraLowPower,
            execution_engines: 1,
            fma_per_engine: 4,
            texels_per_cycle: 1,
            pixels_per_cycle: 1,
        },
        ModelSpec {
            id: 0x0750,
            id_mask: 0xFFF0,
            min_cores: 1,
            name: "Mali-T760"@,
            architecture: "Midgard"@,
            tier: GpuTier::LowPower,
            execution_engines: 2,
            fma_per_engine: 4,
            texels_per_cycle: 1,
            pixels_per_cycle: 1,
        },
        ModelSpec {
            id: 0x0820,
            id_mask: 0xFFF0,
            min_cores: 1,
            name: "Mali-T820"@,
            architecture: "Midgard"@,
            tier: GpuTier::UltraLowPower,
            execution_engines: 1,
            fma_per_engine: 4,
            texels_per_cycle: 1,
            pixels_per_cycle: 1,
        },
        ModelSpec {
            id: 0x0830,
            id_mask: 0xFFF0,
            min_cores: 1,
            name: "Mali-T830"@,
            architecture: "Midgard"@,
            tier: GpuTier::LowPower,
            execution_engines: 2,
            fma_per_engine: 4,
            texels_per_cycle: 1,
            pixels_per_cycle: 1,
        },
        ModelSpec {
            id: 0x0860,
            id_mask: 0xFFF0,
            min_cores: 1,
            name: "Mali-T860"@,
            architecture: "Midgard"@,
            tier: GpuTier::LowPower,
            execution_engines: 2,
            fma_per_engine: 4,
            texels_per_cycle: 1,
            pixels_per_cycle: 1,
        },
        ModelSpec {
            id: 0x0880,
            id_mask: 0xFFF0,
            min_cores: 1,
            name: "Mali-T880"@,
            architecture: "Midgard"@,
            tier: GpuTier::LowPower,
            execution_engines: 3,
            fma_per_engine: 4,
            texels_per_cycle: 1,
            pixels_per_cycle: 1,
        },
        ModelSpec {
            id: 0x6000,
            id_mask: 0xFFFF,
            min_cores: 1,
            name: "Mali-G71"@,
            architecture: "Bifrost"@,
            tier: GpuTier::Mainstream,
            execution_engines: 3,
            fma_per_engine: 4,
            texels_per_cycle: 1,
            pixels_per_cycle: 1,
        },
        ModelSpec {
            id: 0x6001,
            id_mask: 0xFFFF,
            min_cores: 1,
            name: "Mali-G72"@,
            architecture: "Bifrost"@,
            tier: GpuTier::Mainstream,
            execution_engines: 3,
            fma_per_engine: 4,
            texels_per_cycle: 1,
            pixels_per_cycle: 1,
        },
        ModelSpec {
            id: 0x7000,
            id_mask: 0xFFFF,
            min_cores: 1,
            name: "Mali-G51"@,
            architecture: "Bifrost"@,
            tier: GpuTier::LowPower,
            execution_engines: 2,
            fma_per_engine: 4,
            texels_per_cycle: 2,
            pixels_per_cycle: 2,
        },
        ModelSpec {
            id: 0x7001,
            id_mask: 0xFFFF,
            min_cores: 1,
            name: "Mali-G76"@,
            architecture: "Bifrost"@,
            tier: GpuTier::Mainstream,
            execution_engines: 3,
            fma_per_engine: 8,
            texels_per_cycle: 2,
            pixels_per_cycle: 2,
        },
        ModelSpec {
            id: 0x7002,
            id_mask: 0xFFFF,
            min_cores: 1,
            name: "Mali-G52"@,
            architecture: "Bifrost"@,
            tier: GpuTier::LowPower,
            execution_engines: 3,
            fma_per_engine: 8,
            texels_per_cycle: 2,
            pixels_per_cycle: 2,
        },
        ModelSpec {
            id: 0x7003,
            id_mask: 0xFFFF,
            min_cores: 1,
            name: "Mali-G31"@,
            architecture: "Bifrost"@,
            tier: GpuTier::UltraLowPower,
            execution_engines: 1,
            fma_per_engine: 4,
            texels_per_cycle: 2,
            pixels_per_cycle: 2,
        },
        ModelSpec {
            id: 0x9000,
            id_mask: 0xFFFF,
            min_cores: 1,
            name: "Mali-G77"@,
            architecture: "Valhall"@,
            tier: GpuTier::Mainstream,
            execution_engines: 2,
            fma_per_engine: 16,
            texels_per_cycle: 4,
            pixels_per_cycle: 2,
        },
        ModelSpec {
            id: 0x9001,
            id_mask: 0xFFFF,
            min_cores: 1,
            name: "Mali-G57"@,
            architecture: "Valhall"@,
            tier: GpuTier::LowPower,
            execution_engines: 2,
            fma_per_engine: 16,
            texels_per_cycle: 4,
            pixels_per_cycle: 2,
        },
        ModelSpec {
            id: 0x9003,
            id_mask: 0xFFFF,
            min_cores: 1,
            name: "Mali-G57"@,
            architecture: "Valhall"@,
            tier: GpuTier::LowPower,
            execution_engines: 2,
            fma_per_engine: 16,
            texels_per_cycle: 4,
            pixels_per_cycle: 2,
        },
        ModelSpec {
            id: 0x9004,
            id_mask: 0xFFFF,
            min_cores: 1,
            name: "Mali-G68"@,
            architecture: "Valhall"@,
            tier: GpuTier::LowPower,
            execution_engines: 2,
            fma_per_engine: 16,
            texels_per_cycle: 4,
            pixels_per_cycle: 2,
        },
        ModelSpec {
            id: 0x9002,
            id_mask: 0xFFFF,
            min_cores: 1,
            name: "Mali-G78"@,
            architecture: "Valhall"@,
            tier: GpuTier::Mainstream,
            execution_engines: 2,
            fma_per_engine: 16,
            texels_per_cycle: 4,
            pixels_per_cycle: 2,
        },
        ModelSpec {
            id: 0x9005,
            id_mask: 0xFFFF,
            min_cores: 1,
            name: "Mali-G78AE"@,
            architecture: "Valhall"@,
            tier: GpuTier::Mainstream,
            execution_engines: 2,
            fma_per_engine: 16,
            texels_per_cycle: 4,
            pixels_per_cycle: 2,
        },
        ModelSpec {
            id: 0xa002,
            id_mask: 0xFFFF,
            min_cores: 1,
            name: "Mali-G710"@,
            architecture: "Valhall"@,
            tier: GpuTier::HighPerformance,
            execution_engines: 2,
            fma_per_engine: 32,
            texels_per_cycle: 8,
            pixels_per_cycle: 4,
        },
        ModelSpec {
            id: 0xa007,
            id_mask: 0xFFFF,
            min_cores: 1,
            name: "Mali-G610"@,
            architecture: "Valhall"@,
            tier: GpuTier::Mainstream,
            execution_engines: 2,
            fma_per_engine: 32,
            texels_per_cycle: 8,
            pixels_per_cycle: 4,
        },
        ModelSpec {
            id: 0xa003,
            id_mask: 0xFFFF,
            min_cores: 1,
            name: "Mali-G510"@,
            architecture: "Valhall"@,
            tier: GpuTier::LowPower,
            execution_engines: 2,
            fma_per_engine: 32,
            texels_per_cycle: 8,
            pixels_per_cycle: 4,
        },
        ModelSpec {
            id: 0xa004,
            id_mask: 0xFFFF,
            min_cores: 1,
            name: "Mali-G310"@,
            architecture: "Valhall"@,
            tier: GpuTier::UltraLowPower,
            execution_engines: 2,
            fma_per_engine: 32,
            texels_per_cycle: 8,
            pixels_per_cycle: 4,
        },
        ModelSpec {
            id: 0xb002,
            id_mask: 0xFFFF,
            min_cores: 10,
            name: "Immortalis-G715"@,
            architecture: "Valhall"@,
            tier: GpuTier::HighPerformance,
            execution_engines: 2,
            fma_per_engine: 64,
            texels_per_cycle: 8,
            pixels_per_cycle: 4,
        },
        ModelSpec {
            id: 0xb002,
            id_mask: 0xFFFF,
            min_cores: 7,
            name: "Mali-G715"@,
            architecture: "Valhall"@,
            tier: GpuTier::HighPerformance,
            execution_engines: 2,
            fma_per_engine: 64,
            texels_per_cycle: 8,
            pixels_per_cycle: 4,
        },
        ModelSpec {
            id: 0xb002,
            id_mask: 0xFFFF,
            min_cores: 1,
            name: "Mali-G615"@,
            architecture: "Valhall"@,
            tier: GpuTier::LowPower,
            execution_engines: 2,
            fma_per_engine: 64,
            texels_per_cycle: 8,
            pixels_per_cycle: 4,
        },
        ModelSpec {
            id: 0xb003,
            id_mask: 0xFFFF,
            min_cores: 1,
            name: "Mali-G615"@,
            architecture: "Valhall"@,
            tier: GpuTier::LowPower,
            execution_engines: 2,
            fma_per_engine: 64,
            texels_per_cycle: 8,
            pixels_per_cycle: 4,
        },
        ModelSpec {
            id: 0xc000,
            id_mask: 0xFFFF,
            min_cores: 10,
            name: "Immortalis-G720"@,
            architecture: "Arm 5th Gen"@,
            tier: GpuTier::HighPerformance,
            execution_engines: 2,
            fma_per_engine: 64,
            texels_per_cycle: 8,
            pixels_per_cycle: 4,
        },
        ModelSpec {
            id: 0xc000,
            id_mask: 0xFFFF,
            min_cores: 6,
            name: "Mali-G720"@,
            architecture: "Arm 5th Gen"@,
            tier: GpuTier::HighPerformance,
            execution_engines: 2,
            fma_per_engine: 64,
            texels_per_cycle: 8,
            pixels_per_cycle: 4,
        },
        ModelSpec {
            id: 0xc000,
            id_mask: 0xFFFF,
            min_cores: 1,
            name: "Mali-G620"@,
            architecture: "Arm 5th Gen"@,
            tier: GpuTier::LowPower,
            execution_engines: 2,
            fma_per_engine: 64,
            texels_per_cycle: 8,
            pixels_per_cycle: 4,
        },
        ModelSpec {
            id: 0xc001,
            id_mask: 0xFFFF,
            min_cores: 1,
            name: "Mali-G620"@,
            architecture: "Arm 5th Gen"@,
            tier: GpuTier::LowPower,
            execution_engines: 2,
            fma_per_engine: 64,
            texels_per_cycle: 8,
            pixels_per_cycle: 4,
        },
        ModelSpec {
            id: 0xd000,
            id_mask: 0xFFFF,
            min_cores: 10,
            name: "Immortalis-G925"@,
            architecture: "Arm 5th Gen"@,
            tier: GpuTier::HighPerformance,
            execution_engines: 2,
            fma_per_engine: 64,
            texels_per_cycle: 8,
            pixels_per_cycle: 4,
        },
        ModelSpec {
            id: 0xd000,
            id_mask: 0xFFFF,
            min_cores: 6,
            name: "Mali-G725"@,
            architecture: "Arm 5th Gen"@,
            tier: GpuTier::HighPerformance,
            execution_engines: 2,
            fma_per_engine: 64,
            texels_per_cycle: 8,
            pixels_per_cycle: 4,
        },
        ModelSpec {
            id: 0xd001,
            id_mask: 0xFFFF,
            min_cores: 1,
            name: "Mali-G625"@,
            architecture: "Arm 5th Gen"@,
            tier: GpuTier::LowPower,
            execution_engines: 2,
            fma_per_engine: 64,
            texels_per_cycle: 8,
            pixels_per_cycle: 4,
        },
        ModelSpec {
            id: 0xe000,
            id_mask: 0xFFFF,
            min_cores: 10,
            name: "Mali G1-Ultra"@,
            architecture: "Arm 5th Gen"@,
            tier: GpuTier::HighPerformance,
            execution_engines: 2,
            fma_per_engine: 64,
            texels_per_cycle: 8,
            pixels_per_cycle: 4,
        },
        ModelSpec {
            id: 0xe001,
            id_mask: 0xFFFF,
            min_cores: 6,
            name: "Mali G1-Premium"@,
            architecture: "Arm 5th Gen"@,
            tier: GpuTier::HighPerformance,
            execution_engines: 2,
            fma_per_engine: 64,
            texels_per_cycle: 8,
            pixels_per_cycle: 4,
        },
        ModelSpec {
            id: 0xe003,
            id_mask: 0xFFFF,
            min_cores: 1,
            name: "Mali G1-Pro"@,
            architecture: "Arm 5th Gen"@,
            tier: GpuTier::Mainstream,
            execution_engines: 2,
            fma_per_engine: 64,
            texels_per_cycle: 8,
            pixels_per_cycle: 4,
        },
    ]
}

/// Whether a catalog entry matches a combined identifier.
pub open spec fn spec_entry_matches(e: ModelSpec, gpu_id: u32) -> bool {
    &&& (spec_mali_gpu_id(gpu_id) & e.id_mask) == (e.id & e.id_mask)
    &&& spec_mali_core_count(gpu_id) >= e.min_cores
}

/// The index of the first catalog entry at or after `from` that matches the
/// identifier; the catalog length when none does.
pub open spec fn spec_first_match(models: Seq<ModelSpec>, gpu_id: u32, from: int) -> int
    decreases models.len() - from,
    when 0 <= from <= models.len()
{
    if from >= models.len() {
        models.len() as int
    } else if spec_entry_matches(models[from], gpu_id) {
        from
    } else {
        spec_first_match(models, gpu_id, from + 1)
    }
}

/// With no match before `i`, the first match from the start is the first
/// match from `i`.
proof fn lemma_first_match_skip(models: Seq<ModelSpec>, gpu_id: u32, i: int)
    requires
        0 <= i <= models.len(),
        forall|j: int| 0 <= j < i ==> !spec_entry_matches(models[j], gpu_id),
    ensures
        spec_first_match(models, gpu_id, 0) == spec_first_match(models, gpu_id, i),
    decreases i,
{
    if i > 0 {
        lemma_first_match_skip(models, gpu_id, i - 1);
    }
}

/// Whether a catalog entry matches a combined identifier: the masked
/// hardware bits agree and the observed core count reaches the entry's
/// minimum.
pub open spec fn spec_model_matches(m: MaliGpuModel, gpu_id: u32) -> bool {
    &&& (spec_mali_gpu_id(gpu_id) & m.id_mask) == (m.id & m.id_mask)
    &&& spec_mali_core_count(gpu_id) >= m.min_cores
}

/// Select the most specific model for an identifier: the catalog is
/// priority-ordered, and the first entry whose hardware bits match and whose
/// minimum core count is at or below the observed count wins; no entry
/// qualifying means no model.
pub fn find_model(models: &Vec<MaliGpuModel>, gpu_id: u32) -> (r: Option<MaliGpuModel>)
    ensures
        ({
            let catalog = models.deep_view();
            let idx = spec_first_match(catalog, gpu_id, 0);
            &&& (r is Some) == (idx < catalog.len())
            &&& (r matches Some(m) ==> m@ == catalog[idx] && spec_model_matches(m, gpu_id))
        }),
{
    let ghost catalog = models.deep_view();
    let hw_id = parse_mali_gpu_id(gpu_id);
    let core_count = parse_mali_core_count(gpu_id);
    let mut i: usize = 0;
    while i < models.len()
        invariant
            i <= models@.len(),
            catalog == models.deep_view(),
            hw_id == spec_mali_gpu_id(gpu_id),
            core_count == spec_mali_core_count(gpu_id),
            forall|j: int| 0 <= j < i ==> !spec_entry_matches(catalog[j], gpu_id),
        decreases models@.len() - i,
    {
        let m = &models[i];
        proof {
            assert(catalog[i as int] == models@[i as int]@);
        }
        if (hw_id & m.id_mask) == (m.id & m.id_mask) && core_count >= m.min_cores {
            proof {
                lemma_first_match_skip(catalog, gpu_id, i as int);
            }
            return Some(m.clone());
        }
        i += 1;
    }
    proof {
        lemma_first_match_skip(catalog, gpu_id, models@.len() as int);
    }
    None
}

/// Build one catalog entry.
fn model(
    id: u16,
    id_mask: u16,
    min_cores: u8,
    name: &str,
    architecture: &str,
    tier: GpuTier,
    execution_engines: u8,
    fma_per_engine: u16,
    texels_per_cycle: u8,
    pixels_per_cycle: u8,
) -> (m: MaliGpuModel)
    ensures
        m.id == id,
        m.id_mask == id_mask,
        m.min_cores == min_cores,
        m.name@ == name@,
        m.architecture@ == architecture@,
        m.tier == tier,
        m.execution_engines == execution_engines,
        m.fma_per_engine == fma_per_engine,
        m.texels_per_cycle == texels_per_cycle,
        m.pixels_per_cycle == pixels_per_cycle,
{
    MaliGpuModel {
        id,
        id_mask,
        min_cores,
        name: String::from_str(name),
        architecture: String::from_str(architecture),
        tier,
        execution_engines,
        fma_per_engine,
        texels_per_cycle,
        pixels_per_cycle,
    }
}

/// The catalog of known Mali GPU models, priority ordered: within one
/// hardware ID, entries with a higher core-count floor come first, so the
/// most specific marketing name wins. The returned value is exactly
/// [`spec_mali_catalog`]; the data itself is curated from vendor
/// documentation, and the lookup logic over it is verified, see
/// [`find_model`].
#[verifier::rlimit(60)]
pub fn mali_gpu_models() -> (v: Vec<MaliGpuModel>)
    ensures
        v.deep_view() == spec_mali_catalog(),
{
    let mut v: Vec<MaliGpuModel> = Vec::new();
    // Midgard architecture.
    v.push(model(0x6956, 0xFFF0, 1, "Mali-T600", "Midgard", GpuTier::UltraLowPower, 2, 4, 1, 1));
    v.push(model(0x0620, 0xFFF0, 1, "Mali-T620", "Midgard", GpuTier::UltraLowPower, 2, 4, 1, 1));
    v.push(model(0x0720, 0xFFF0, 1, "Mali-T720", "Midgard", GpuTier::UltraLowPower, 1, 4, 1, 1));
    v.push(model(0x0750, 0xFFF0, 1, "Mali-T760", "Midgard", GpuTier::LowPower, 2, 4, 1, 1));
    v.push(model(0x0820, 0xFFF0, 1, "Mali-T820", "Midgard", GpuTier::UltraLowPower, 1, 4, 1, 1));
    v.push(model(0x0830, 0xFFF0, 1, "Mali-T830", "Midgard", GpuTier::LowPower, 2, 4, 1, 1));
    v.push(model(0x0860, 0xFFF0, 1, "Mali-T860", "Midgard", GpuTier::LowPower, 2, 4, 1, 1));
    v.push(model(0x0880, 0xFFF0, 1, "Mali-T880", "Midgard", GpuTier::LowPower, 3, 4, 1, 1));
    // Bifrost architecture.
    v.push(model(0x6000, 0xFFFF, 1, "Mali-G71", "Bifrost", GpuTier::Mainstream, 3, 4, 1, 1));
    v.push(model(0x6001, 0xFFFF, 1, "Mali-G72", "Bifrost", GpuTier::Mainstream, 3, 4, 1, 1));
    v.push(model(0x7000, 0xFFFF, 1, "Mali-G51", "Bifrost", GpuTier::LowPower, 2, 4, 2, 2));
    v.push(model(0x7001, 0xFFFF, 1, "Mali-G76", "Bifrost", GpuTier::Mainstream, 3, 8, 2, 2));
    v.push(model(0x7002, 0xFFFF, 1, "Mali-G52", "Bifrost", GpuTier::LowPower, 3, 8, 2, 2));
    v.push(model(0x7003, 0xFFFF, 1, "Mali-G31", "Bifrost", GpuTier::UltraLowPower, 1, 4, 2, 2));
    // Valhall architecture.
    v.push(model(0x9000, 0xFFFF, 1, "Mali-G77", "Valhall", GpuTier::Mainstream, 2, 16, 4, 2));
    v.push(model(0x9001, 0xFFFF, 1, "Mali-G57", "Valhall", GpuTier::LowPower, 2, 16, 4, 2));
    v.push(model(0x9003, 0xFFFF, 1, "Mali-G57", "Valhall", GpuTier::LowPower, 2, 16, 4, 2));
    v.push(model(0x9004, 0xFFFF, 1, "Mali-G68", "Valhall", GpuTier::LowPower, 2, 16, 4, 2));
    v.push(model(0x9002, 0xFFFF, 1, "Mali-G78", "Valhall", GpuTier::Mainstream, 2, 16, 4, 2));
    v.push(model(0x9005, 0xFFFF, 1, "Mali-G78AE", "Valhall", GpuTier::Mainstream, 2, 16, 4, 2));
    v.push(model(0xa002, 0xFFFF, 1, "Mali-G710", "Valhall", GpuTier::HighPerformance, 2, 32, 8, 4));
    v.push(model(0xa007, 0xFFFF, 1, "Mali-G610", "Valhall", GpuTier::Mainstream, 2, 32, 8, 4));
    v.push(model(0xa003, 0xFFFF, 1, "Mali-G510", "Valhall", GpuTier::LowPower, 2, 32, 8, 4));
    v.push(model(0xa004, 0xFFFF, 1, "Mali-G310", "Valhall", GpuTier::UltraLowPower, 2, 32, 8, 4));
    // Fifth generation and Immortalis.
    v.push(model(0xb002, 0xFFFF, 10, "Immortalis-G715", "Valhall", GpuTier::HighPerformance, 2, 64, 8, 4));
    v.push(model(0xb002, 0xFFFF, 7, "Mali-G715", "Valhall", GpuTier::HighPerformance, 2, 64, 8, 4));
    v.push(model(0xb002, 0xFFFF, 1, "Mali-G615", "Valhall", GpuTier::LowPower, 2, 64, 8, 4));
    v.push(model(0xb003, 0xFFFF, 1, "Mali-G615", "Valhall", GpuTier::LowPower, 2, 64, 8, 4));
    v.push(model(0xc000, 0xFFFF, 10, "Immortalis-G720", "Arm 5th Gen", GpuTier::HighPerformance, 2, 64, 8, 4));
    v.push(model(0xc000, 0xFFFF, 6, "Mali-G720", "Arm 5th Gen", GpuTier::HighPerformance, 2, 64, 8, 4));
    v.push(model(0xc000, 0xFFFF, 1, "Mali-G620", "Arm 5th Gen", GpuTier::LowPower, 2, 64, 8, 4));
    v.push(model(0xc001, 0xFFFF, 1, "Mali-G620", "Arm 5th Gen", GpuTier::LowPower, 2, 64, 8, 4));
    v.push(model(0xd000, 0xFFFF, 10, "Immortalis-G925", "Arm 5th Gen", GpuTier::HighPerformance, 2, 64, 8, 4));
    v.push(model(0xd000, 0xFFFF, 6, "Mali-G725", "Arm 5th Gen", GpuTier::HighPerformance, 2, 64, 8, 4));
    v.push(model(0xd001, 0xFFFF, 1, "Mali-G625", "Arm 5th Gen", GpuTier::LowPower, 2, 64, 8, 4));
    v.push(model(0xe000, 0xFFFF, 10, "Mali G1-Ultra", "Arm 5th Gen", GpuTier::HighPerformance, 2, 64, 8, 4));
    v.push(model(0xe001, 0xFFFF, 6, "Mali G1-Premium", "Arm 5th Gen", GpuTier::HighPerformance, 2, 64, 8, 4));
    v.push(model(0xe003, 0xFFFF, 1, "Mali G1-Pro", "Arm 5th Gen", GpuTier::Mainstream, 2, 64, 8, 4));
    proof {
        assert(v.deep_view() =~~= spec_mali_catalog());
    }
    v
}

/// Identify a Mali GPU model from the combined 32-bit identifier: the first
/// entry of the priority-ordered catalog whose hardware bits match and
/// whose core-count floor is satisfied, and nothing exactly when no entry
/// qualifies.
pub fn identify_mali_gpu(gpu_id: u32) -> (r: Option<MaliGpuModel>)
    ensures
        ({
            let catalog = spec_mali_catalog();
            let idx = spec_first_match(catalog, gpu_id, 0);
            &&& (r is Some) == (idx < catalog.len())
            &&& (r matches Some(m) ==> m@ == catalog[idx] && spec_model_matches(m, gpu_id))
        }),
{
    let models = mali_gpu_models();
    find_model(&models, gpu_id)
}

/// Minimal placeholder type for Adreno GPU models.
#[derive(Debug)]
pub struct AdrenoGpuModel {
    /// Marketing name.
    pub name: String,
    /// Architecture / generation.
    pub architecture: String,
}

impl Clone for AdrenoGpuModel {
    /// An exact copy of the entry.
    fn clone(&self) -> (r: Self)
        ensures
            r == *self,
    {
        AdrenoGpuModel { name: self.name.clone(), architecture: self.architecture.clone() }
    }
}

/// Identify an Adreno GPU from raw reply bytes. Adreno identification is
/// not implemented yet, so every input yields nothing.
pub fn identify_adreno_gpu(_data: &[u8]) -> (r: Option<AdrenoGpuModel>)
    ensures
        r is None,
{
    None
}

} // verus!
