//! GPU ioctl profiles: curated signature and metadata records describing one
//! hardware model's known command behaviour. Every decoder a profile names
//! must come from the closed registered set, checked at load time.

use vstd::prelude::*;
use vstd::string::StringExecFns;
use crate::gpuinfo::{GpuMetadata, MetaEntry, MetaValue, clone_entries};
use crate::text::str_eq;

verus! {

/// Definition of one ioctl command within a profile.
#[derive(Debug)]
pub struct IoctlDefinition {
    /// Command name.
    pub name: String,
    /// Packed command number.
    pub cmd: u32,
    /// Expected buffer size.
    pub buffer_size: u16,
    /// Name of the decoder for the command's reply.
    pub parser: String,
    /// Additional parameters.
    pub params: Vec<MetaEntry>,
}

impl Clone for IoctlDefinition {
    /// A copy of the definition.
    fn clone(&self) -> (r: Self)
        ensures
            r.name == self.name,
            r.cmd == self.cmd,
            r.buffer_size == self.buffer_size,
            r.parser == self.parser,
            r.params@ == self.params@,
    {
        IoctlDefinition {
            name: self.name.clone(),
            cmd: self.cmd,
            buffer_size: self.buffer_size,
            parser: self.parser.clone(),
            params: clone_entries(&self.params),
        }
    }
}

/// The closed set of registered decoder names.
pub open spec fn spec_known_parser(name: Seq<char>) -> bool {
    ||| name == "parse_version_return_value"@
    ||| name == "parse_version_two_u32"@
    ||| name == "parse_version_u32"@
    ||| name == "parse_gpu_id_u32"@
    ||| name == "parse_gpu_id_le"@
    ||| name == "parse_gpu_id_be"@
    ||| name == "parse_features_bitmask"@
    ||| name == "parse_features_hex"@
}

impl IoctlDefinition {
    /// Whether the named decoder is one of the registered set.
    pub fn parser_known(&self) -> (r: bool)
        ensures
            r == spec_known_parser(self.parser@),
    {
        let p = self.parser.as_str();
        str_eq(p, "parse_version_return_value") || str_eq(p, "parse_version_two_u32") || str_eq(
            p,
            "parse_version_u32",
        ) || str_eq(p, "parse_gpu_id_u32") || str_eq(p, "parse_gpu_id_le") || str_eq(
            p,
            "parse_gpu_id_be",
        ) || str_eq(p, "parse_features_bitmask") || str_eq(p, "parse_features_hex")
    }
}

/// An ioctl profile for one GPU model: ordered signature commands to confirm
/// identity, optional enrichment commands, and descriptive metadata.
#[derive(Debug)]
pub struct IoctlProfile {
    /// GPU vendor.
    pub vendor: String,
    /// GPU model name.
    pub model: String,
    /// Ordered signature commands for identifying this GPU.
    pub detection_ioctls: Vec<IoctlDefinition>,
    /// Version query command, if the model has one.
    pub version_ioctl: Option<IoctlDefinition>,
    /// Hardware identifier query command, if the model has one.
    pub gpu_info_ioctl: Option<IoctlDefinition>,
    /// Feature query command, if the model has one.
    pub features_ioctl: Option<IoctlDefinition>,
    /// Additional metadata.
    pub metadata: GpuMetadata,
}

/// A profile is valid when every decoder it names is registered.
pub open spec fn spec_profile_valid(p: IoctlProfile) -> bool {
    &&& forall|i: int|
        0 <= i < p.detection_ioctls@.len() ==> spec_known_parser(
            p.detection_ioctls@[i].parser@,
        )
    &&& p.version_ioctl matches Some(d) ==> spec_known_parser(d.parser@)
    &&& p.gpu_info_ioctl matches Some(d) ==> spec_known_parser(d.parser@)
    &&& p.features_ioctl matches Some(d) ==> spec_known_parser(d.parser@)
}

impl IoctlProfile {
    /// Check at load time that every decoder the profile names is
    /// registered, so an unrecognized identifier fails fast instead of
    /// silently decoding to nothing during a match.
    pub fn validate(&self) -> (r: bool)
        ensures
            r == spec_profile_valid(*self),
    {
        let mut i: usize = 0;
        while i < self.detection_ioctls.len()
            invariant
                i <= self.detection_ioctls@.len(),
                forall|j: int|
                    0 <= j < i ==> spec_known_parser(self.detection_ioctls@[j].parser@),
            decreases self.detection_ioctls@.len() - i,
        {
            if !self.detection_ioctls[i].parser_known() {
                return false;
            }
            i += 1;
        }
        if let Some(d) = &self.version_ioctl {
            if !d.parser_known() {
                return false;
            }
        }
        if let Some(d) = &self.gpu_info_ioctl {
            if !d.parser_known() {
                return false;
            }
        }
        if let Some(d) = &self.features_ioctl {
            if !d.parser_known() {
                return false;
            }
        }
        true
    }
}

/// Build one command definition without extra parameters.
fn ioctl_def(name: &str, cmd: u32, buffer_size: u16, parser: &str) -> (d: IoctlDefinition)
    ensures
        d.name@ == name@,
        d.cmd == cmd,
        d.buffer_size == buffer_size,
        d.parser@ == parser@,
        d.params@.len() == 0,
{
    IoctlDefinition {
        name: String::from_str(name),
        cmd,
        buffer_size,
        parser: String::from_str(parser),
        params: Vec::new(),
    }
}

/// Build one textual metadata note.
fn note_text(key: &str, value: &str) -> (e: MetaEntry)
    ensures
        e.key@ == key@,
        e.value matches MetaValue::Text(s) && s@ == value@,
{
    MetaEntry { key: String::from_str(key), value: MetaValue::Text(String::from_str(value)) }
}

/// Build one numeric metadata note.
fn note_int(key: &str, value: i64) -> (e: MetaEntry)
    ensures
        e.key@ == key@,
        e.value == MetaValue::Int(value),
{
    MetaEntry { key: String::from_str(key), value: MetaValue::Int(value) }
}

/// The Mali-G71 profile, recorded from a Samsung SM-T510.
fn create_mali_g71_profile() -> (p: IoctlProfile)
    ensures
        p.vendor@ == "Mali"@,
        p.model@ == "Mali-G71"@,
        p.detection_ioctls@.len() == 2,
        p.detection_ioctls@[0].cmd == 0xC0048000u32,
        p.detection_ioctls@[1].cmd == 0x40108003u32,
        p.version_ioctl matches Some(d) && d.cmd == 0x40108003u32 && d.buffer_size == 16
            && d.parser@ == "parse_version_return_value"@,
        p.gpu_info_ioctl matches Some(d) && d.cmd == 0x8004800Cu32 && d.buffer_size == 4
            && d.parser@ == "parse_gpu_id_u32"@,
        p.features_ioctl matches Some(d) && d.cmd == 0xC0048000u32 && d.buffer_size == 4
            && d.parser@ == "parse_features_bitmask"@,
        p.metadata.core_count == Some(2u8),
        spec_profile_valid(p),
{
    let mut first = ioctl_def("GET_PROPS_00", 0xC0048000, 4, "parse_features_bitmask");
    let mut first_params: Vec<MetaEntry> = Vec::new();
    first_params.push(note_text("expected_core_mask", "0x3"));
    first.params = first_params;
    let mut second = ioctl_def("VERSION_CHECK", 0x40108003, 16, "parse_version_return_value");
    let mut second_params: Vec<MetaEntry> = Vec::new();
    second_params.push(note_int("expected_return", 711));
    second.params = second_params;
    let mut detection: Vec<IoctlDefinition> = Vec::new();
    detection.push(first);
    detection.push(second);

    let mut metadata = GpuMetadata::empty();
    metadata.architecture = Some(String::from_str("Bifrost"));
    metadata.arch_version = Some(String::from_str("6.0"));
    metadata.core_count = Some(2);
    metadata.l2_cache_count = Some(1);
    metadata.l2_cache_size = Some(262144);
    metadata.bus_width = Some(128);
    metadata.engines_per_core = Some(3);
    metadata.fp32_fmas_per_core = Some(12);
    metadata.fp16_fmas_per_core = Some(24);
    metadata.texels_per_core = Some(1);
    metadata.pixels_per_core = Some(1);
    let mut notes: Vec<MetaEntry> = Vec::new();
    notes.push(note_text("model_number", "0x6000"));
    notes.push(note_text("core_mask", "0x3"));
    notes.push(note_text("confirmed_by", "libgpuinfo_strace"));
    notes.push(note_text("device", "Samsung SM-T510"));
    notes.push(note_text("android_version", "11"));
    notes.push(note_text("kernel_version", "4.4.177"));
    notes.push(note_int("return_value_0x40108003", 711));
    notes.push(note_text("raw_features_0xC0048000", "0x001b000b"));
    notes.push(note_text("raw_gpu_id_0x8004800c", "0x00000021"));
    metadata.notes = notes;

    IoctlProfile {
        vendor: String::from_str("Mali"),
        model: String::from_str("Mali-G71"),
        detection_ioctls: detection,
        version_ioctl: Some(
            ioctl_def("VERSION_CHECK", 0x40108003, 16, "parse_version_return_value"),
        ),
        gpu_info_ioctl: Some(ioctl_def("GET_GPU_INFO", 0x8004800C, 4, "parse_gpu_id_u32")),
        features_ioctl: Some(ioctl_def("GET_PROPS_00", 0xC0048000, 4, "parse_features_bitmask")),
        metadata,
    }
}

/// The Mali-G720 profile, recorded from a Xiaomi device.
fn create_mali_g720_profile() -> (p: IoctlProfile)
    ensures
        p.vendor@ == "Mali"@,
        p.model@ == "Mali-G720"@,
        p.detection_ioctls@.len() == 2,
        p.detection_ioctls@[0].cmd == 0xC0048034u32,
        p.detection_ioctls@[1].cmd == 0x40108003u32,
        p.version_ioctl matches Some(d) && d.cmd == 0x40108003u32 && d.buffer_size == 16
            && d.parser@ == "parse_version_return_value"@,
        p.gpu_info_ioctl matches Some(d) && d.cmd == 0xC010800Bu32 && d.buffer_size == 16
            && d.parser@ == "parse_gpu_id_u32"@,
        p.features_ioctl matches Some(d) && d.cmd == 0xC0048034u32 && d.buffer_size == 4
            && d.parser@ == "parse_features_bitmask"@,
        p.metadata.core_count == Some(7u8),
        spec_profile_valid(p),
{
    let first = ioctl_def("GET_PROPS_34", 0xC0048034, 4, "parse_features_bitmask");
    let mut second = ioctl_def("VERSION_CHECK", 0x40108003, 16, "parse_version_return_value");
    let mut second_params: Vec<MetaEntry> = Vec::new();
    second_params.push(note_int("expected_return", 749));
    second.params = second_params;
    let mut detection: Vec<IoctlDefinition> = Vec::new();
    detection.push(first);
    detection.push(second);

    let mut metadata = GpuMetadata::empty();
    metadata.architecture = Some(String::from_str("Arm 5th Gen"));
    metadata.arch_version = Some(String::from_str("12.8"));
    metadata.core_count = Some(7);
    metadata.l2_cache_count = Some(4);
    metadata.l2_cache_size = Some(2097152);
    metadata.bus_width = Some(256);
    metadata.engines_per_core = Some(2);
    metadata.fp32_fmas_per_core = Some(128);
    metadata.fp16_fmas_per_core = Some(256);
    metadata.texels_per_core = Some(8);
    metadata.pixels_per_core = Some(4);
    let mut notes: Vec<MetaEntry> = Vec::new();
    notes.push(note_text("model_number", "0xc000"));
    notes.push(note_text("core_mask", "0x150055"));
    notes.push(note_text("confirmed_by", "libgpuinfo_strace"));
    notes.push(note_text("device", "Xiaomi device"));
    notes.push(note_text("android_version", "16"));
    notes.push(note_int("return_value_0x40108003", 749));
    metadata.notes = notes;

    IoctlProfile {
        vendor: String::from_str("Mali"),
        model: String::from_str("Mali-G720"),
        detection_ioctls: detection,
        version_ioctl: Some(
            ioctl_def("VERSION_CHECK", 0x40108003, 16, "parse_version_return_value"),
        ),
        gpu_info_ioctl: Some(ioctl_def("GET_GPU_INFO", 0xC010800B, 16, "parse_gpu_id_u32")),
        features_ioctl: Some(ioctl_def("GET_PROPS_34", 0xC0048034, 4, "parse_features_bitmask")),
        metadata,
    }
}

/// The generic Mali profile for unknown devices.
fn create_generic_mali_profile() -> (p: IoctlProfile)
    ensures
        p.vendor@ == "Mali"@,
        p.model@ == "Generic Mali"@,
        p.detection_ioctls@.len() == 1,
        p.detection_ioctls@[0].cmd == 0x40108003u32,
        p.version_ioctl matches Some(d) && d.cmd == 0x40108003u32 && d.buffer_size == 16
            && d.parser@ == "parse_version_return_value"@,
        p.gpu_info_ioctl matches Some(d) && d.cmd == 0x4008800Bu32 && d.buffer_size == 64
            && d.parser@ == "parse_gpu_id_u32"@,
        p.features_ioctl is None,
        p.metadata.core_count is None,
        spec_profile_valid(p),
{
    let mut detection: Vec<IoctlDefinition> = Vec::new();
    detection.push(ioctl_def("GET_VERSION", 0x40108003, 16, "parse_version_return_value"));

    let mut metadata = GpuMetadata::empty();
    let mut notes: Vec<MetaEntry> = Vec::new();
    notes.push(note_text("confidence", "0.5"));
    notes.push(note_text("description", "Generic Mali profile for unknown devices"));
    metadata.notes = notes;

    IoctlProfile {
        vendor: String::from_str("Mali"),
        model: String::from_str("Generic Mali"),
        detection_ioctls: detection,
        version_ioctl: Some(
            ioctl_def("GET_VERSION", 0x40108003, 16, "parse_version_return_value"),
        ),
        gpu_info_ioctl: Some(ioctl_def("GET_GPU_INFO", 0x4008800B, 64, "parse_gpu_id_u32")),
        features_ioctl: None,
        metadata,
    }
}

/// Load all embedded Mali profiles, most specific first; each names only
/// registered decoders.
pub fn load_mali_profiles() -> (r: Vec<IoctlProfile>)
    ensures
        r@.len() == 3,
        forall|i: int| 0 <= i < r@.len() ==> #[trigger] spec_profile_valid(r@[i]),
        forall|i: int| 0 <= i < r@.len() ==> (#[trigger] r@[i].vendor)@ == "Mali"@,
        forall|i: int| 0 <= i < r@.len() ==> (#[trigger] r@[i].detection_ioctls)@.len() > 0,
        forall|i: int|
            0 <= i < r@.len() ==> ((#[trigger] r@[i].version_ioctl) matches Some(d)
                && d.cmd == 0x40108003u32 && d.parser@ == "parse_version_return_value"@),
        r@[0].model@ == "Mali-G71"@,
        r@[0].metadata.core_count == Some(2u8),
        r@[1].model@ == "Mali-G720"@,
        r@[2].model@ == "Generic Mali"@,
{
    let mut profiles: Vec<IoctlProfile> = Vec::new();
    profiles.push(create_mali_g71_profile());
    profiles.push(create_mali_g720_profile());
    profiles.push(create_generic_mali_profile());
    profiles
}

/// Load all embedded Adreno profiles. None exist yet.
pub fn load_adreno_profiles() -> (r: Vec<IoctlProfile>)
    ensures
        r@.len() == 0,
{
    Vec::new()
}

} // verus!
