//! The profile matcher: replays a profile's ordered signature commands as a
//! short-circuiting AND over command existence, then enriches the descriptor
//! with independent, best-effort version, hardware-identifier and feature
//! queries. Like the scan engine it owns no device: it hands out probe
//! requests and consumes raw replies.

use vstd::prelude::*;
use vstd::string::StringExecFns;
use crate::config::{spec_options_valid, DiscoveryOptions};
use crate::engine::{spec_bumped, spec_throttle_delay};
use crate::error::DiscoveryError;
use crate::gpuinfo::{DetectedIoctl, GpuInfo, GpuMetadata, spec_meta_eq, spec_meta_eq_except_totals};
use crate::interpret::{spec_exists_errno, spec_looks_usable, EFAULT, EINVAL, EPERM, ENOTTY};
use crate::mappings::{identify_adreno_gpu, identify_mali_gpu, spec_first_match,
    spec_mali_catalog};
use crate::parsers::{extract_gpu_id, parse_features, parse_version, spec_extract_gpu_id,
    spec_parse_features, spec_parse_version};
use crate::profiles::IoctlProfile;
use crate::text::str_eq;

verus! {

/// One probe the driver must perform for the matcher.
#[derive(Debug, Clone, Copy, PartialEq, Eq, Structural)]
pub enum MatchRequest {
    /// Probe the command with a null argument, after the delay.
    Null {
        /// The packed command word.
        cmd: u32,
        /// Milliseconds to wait before the call.
        delay_ms: u64,
    },
    /// Probe the command with a zeroed buffer of this size, after the
    /// delay, and hand back the buffer contents.
    Buffer {
        /// The packed command word.
        cmd: u32,
        /// The buffer size in bytes.
        size: u16,
        /// Milliseconds to wait before the call.
        delay_ms: u64,
    },
}

/// Where the match stands.
#[derive(Debug, Clone, Copy, PartialEq, Eq, Structural)]
pub enum MatchPhase {
    /// Probing signature command `idx` with a null argument.
    Signature {
        /// Index into the profile's signature list.
        idx: usize,
    },
    /// Probing the version command with a null argument.
    VersionProbe,
    /// Reading the version command's buffer.
    VersionRead {
        /// Return value of the version command's null probe.
        null_ret: i32,
    },
    /// Reading the hardware-identifier command's buffer.
    InfoRead,
    /// Reading the feature command's buffer.
    FeaturesRead,
    /// The match succeeded; the descriptor is complete.
    Done,
    /// A signature command does not exist, or probing failed: no match.
    Failed,
}

/// The enrichment phase that follows the given completed step: 0 after the
/// signatures, 1 after the version query, 2 after the identifier query,
/// 3 after the feature query. Each optional query is visited in that order;
/// with none left the match is done.
pub open spec fn spec_phase_after(p: IoctlProfile, completed: int) -> MatchPhase {
    if completed <= 0 && p.version_ioctl is Some {
        MatchPhase::VersionProbe
    } else if completed <= 1 && p.gpu_info_ioctl is Some {
        MatchPhase::InfoRead
    } else if completed <= 2 && p.features_ioctl is Some {
        MatchPhase::FeaturesRead
    } else {
        MatchPhase::Done
    }
}

/// Equality of every descriptor field except the derived throughput totals
/// in the metadata.
pub open spec fn spec_info_eq_except_totals(a: GpuInfo, b: GpuInfo) -> bool {
    &&& a.vendor == b.vendor
    &&& a.model == b.model
    &&& a.architecture == b.architecture
    &&& a.driver_version == b.driver_version
    &&& a.gpu_id == b.gpu_id
    &&& a.cores == b.cores
    &&& a.features@ == b.features@
    &&& a.detected_ioctls@ == b.detected_ioctls@
    &&& a.arch_version == b.arch_version
    &&& a.core_mask == b.core_mask
    &&& a.l2_cache_count == b.l2_cache_count
    &&& a.l2_cache_size == b.l2_cache_size
    &&& a.bus_width == b.bus_width
    &&& a.engines_per_core == b.engines_per_core
    &&& a.fp32_fmas_per_core == b.fp32_fmas_per_core
    &&& a.fp16_fmas_per_core == b.fp16_fmas_per_core
    &&& a.texels_per_core == b.texels_per_core
    &&& a.pixels_per_core == b.pixels_per_core
    &&& a.metadata.architecture == b.metadata.architecture
    &&& a.metadata.arch_version == b.metadata.arch_version
    &&& a.metadata.core_count == b.metadata.core_count
    &&& a.metadata.core_mask == b.metadata.core_mask
    &&& a.metadata.l2_cache_count == b.metadata.l2_cache_count
    &&& a.metadata.l2_cache_size == b.metadata.l2_cache_size
    &&& a.metadata.bus_width == b.metadata.bus_width
    &&& a.metadata.engines_per_core == b.metadata.engines_per_core
    &&& a.metadata.fp32_fmas_per_core == b.metadata.fp32_fmas_per_core
    &&& a.metadata.fp16_fmas_per_core == b.metadata.fp16_fmas_per_core
    &&& a.metadata.texels_per_core == b.metadata.texels_per_core
    &&& a.metadata.pixels_per_core == b.metadata.pixels_per_core
    &&& a.metadata.notes@ == b.metadata.notes@
}

/// The derived totals rule: when the core count, the per-core FP32 rate and
/// the per-core FP16 rate are all known, the metadata carries the products
/// over all cores, and the texel and pixel totals when both per-core rates
/// are known too; otherwise the totals are left as they were.
pub open spec fn spec_totals_applied(pre: GpuInfo, post: GpuInfo) -> bool {
    if pre.cores is Some && pre.fp32_fmas_per_core is Some && pre.fp16_fmas_per_core is Some {
        &&& post.metadata.total_fp32_fmas == Some(
            ((pre.fp32_fmas_per_core->0 as u32) * (pre.cores->0 as u32)) as u32,
        )
        &&& post.metadata.total_fp16_fmas == Some(
            ((pre.fp16_fmas_per_core->0 as u32) * (pre.cores->0 as u32)) as u32,
        )
        &&& if pre.texels_per_core is Some && pre.pixels_per_core is Some {
            &&& post.metadata.total_texels_per_cycle == Some(
                ((pre.texels_per_core->0 as u32) * (pre.cores->0 as u32)) as u32,
            )
            &&& post.metadata.total_pixels_per_cycle == Some(
                ((pre.pixels_per_core->0 as u32) * (pre.cores->0 as u32)) as u32,
            )
        } else {
            &&& post.metadata.total_texels_per_cycle == pre.metadata.total_texels_per_cycle
            &&& post.metadata.total_pixels_per_cycle == pre.metadata.total_pixels_per_cycle
        }
    } else {
        &&& post.metadata.total_fp32_fmas == pre.metadata.total_fp32_fmas
        &&& post.metadata.total_fp16_fmas == pre.metadata.total_fp16_fmas
        &&& post.metadata.total_texels_per_cycle == pre.metadata.total_texels_per_cycle
        &&& post.metadata.total_pixels_per_cycle == pre.metadata.total_pixels_per_cycle
    }
}

/// Equality of the identity and per-core fields the catalog enrichment may
/// touch.
pub open spec fn spec_identity_unchanged(pre: GpuInfo, post: GpuInfo) -> bool {
    &&& post.architecture == pre.architecture
    &&& post.model == pre.model
    &&& post.cores == pre.cores
    &&& post.engines_per_core == pre.engines_per_core
    &&& post.fp32_fmas_per_core == pre.fp32_fmas_per_core
    &&& post.fp16_fmas_per_core == pre.fp16_fmas_per_core
    &&& post.texels_per_core == pre.texels_per_core
    &&& post.pixels_per_core == pre.pixels_per_core
}

/// How the catalog enriches a descriptor for an identifier: when the
/// priority-ordered catalog has a first qualifying entry, its architecture
/// always wins, its marketing name wins unless it is the unknown
/// placeholder, and each per-core figure fills in only where it was unset
/// (the FP16 rate defaulting to twice the entry's FP32 rate); with no
/// qualifying entry every identity field is left untouched.
pub open spec fn spec_catalog_enrichment(pre: GpuInfo, post: GpuInfo, gpu_id: u32) -> bool {
    let catalog = spec_mali_catalog();
    let idx = spec_first_match(catalog, gpu_id, 0);
    if idx < catalog.len() {
        let e = catalog[idx];
        &&& post.architecture matches Some(a) && a@ == e.architecture
        &&& post.model@ == (if e.name == "Unknown"@ {
            pre.model@
        } else {
            e.name
        })
        &&& post.cores == (if pre.cores is Some {
            pre.cores
        } else {
            Some(e.min_cores)
        })
        &&& post.engines_per_core == (if pre.engines_per_core is Some {
            pre.engines_per_core
        } else {
            Some(e.execution_engines)
        })
        &&& post.fp32_fmas_per_core == (if pre.fp32_fmas_per_core is Some {
            pre.fp32_fmas_per_core
        } else {
            Some(e.fma_per_engine)
        })
        &&& post.texels_per_core == (if pre.texels_per_core is Some {
            pre.texels_per_core
        } else {
            Some(e.texels_per_cycle as u16)
        })
        &&& post.pixels_per_core == (if pre.pixels_per_core is Some {
            pre.pixels_per_core
        } else {
            Some(e.pixels_per_cycle as u16)
        })
        &&& post.fp16_fmas_per_core == (if pre.fp16_fmas_per_core is Some {
            pre.fp16_fmas_per_core
        } else {
            Some((((e.fma_per_engine as u32) * 2) as u16))
        })
    } else {
        spec_identity_unchanged(pre, post)
    }
}

/// Seed a descriptor from a profile, before any live probing: names and
/// per-core figures come straight from the profile's metadata, and every
/// live-only field starts unset.
pub fn create_gpu_info_from_profile(profile: &IoctlProfile) -> (r: GpuInfo)
    ensures
        r.vendor == profile.vendor,
        r.model == profile.model,
        r.architecture == profile.metadata.architecture,
        r.driver_version is None,
        r.gpu_id is None,
        r.cores == profile.metadata.core_count,
        r.features@.len() == 0,
        r.detected_ioctls@.len() == 0,
        spec_meta_eq(r.metadata, profile.metadata),
        r.arch_version is None,
        r.core_mask == profile.metadata.core_mask,
        r.l2_cache_count == profile.metadata.l2_cache_count,
        r.l2_cache_size == profile.metadata.l2_cache_size,
        r.bus_width == profile.metadata.bus_width,
        r.engines_per_core == profile.metadata.engines_per_core,
        r.fp32_fmas_per_core == profile.metadata.fp32_fmas_per_core,
        r.fp16_fmas_per_core == profile.metadata.fp16_fmas_per_core,
        r.texels_per_core == profile.metadata.texels_per_core,
        r.pixels_per_core == profile.metadata.pixels_per_core,
{
    GpuInfo {
        vendor: profile.vendor.clone(),
        model: profile.model.clone(),
        architecture: match &profile.metadata.architecture {
            Some(s) => Some(s.clone()),
            None => None,
        },
        driver_version: None,
        gpu_id: None,
        cores: profile.metadata.core_count,
        features: Vec::new(),
        detected_ioctls: Vec::new(),
        metadata: profile.metadata.duplicate(),
        arch_version: None,
        core_mask: profile.metadata.core_mask,
        l2_cache_count: profile.metadata.l2_cache_count,
        l2_cache_size: profile.metadata.l2_cache_size,
        bus_width: profile.metadata.bus_width,
        engines_per_core: profile.metadata.engines_per_core,
        fp32_fmas_per_core: profile.metadata.fp32_fmas_per_core,
        fp16_fmas_per_core: profile.metadata.fp16_fmas_per_core,
        texels_per_core: profile.metadata.texels_per_core,
        pixels_per_core: profile.metadata.pixels_per_core,
    }
}

/// An empty descriptor, used before the signatures have matched.
fn empty_gpu_info() -> (r: GpuInfo)
    ensures
        r.vendor@.len() == 0,
        r.model@.len() == 0,
{
    GpuInfo {
        vendor: String::new(),
        model: String::new(),
        architecture: None,
        driver_version: None,
        gpu_id: None,
        cores: None,
        features: Vec::new(),
        detected_ioctls: Vec::new(),
        metadata: GpuMetadata::empty(),
        arch_version: None,
        core_mask: None,
        l2_cache_count: None,
        l2_cache_size: None,
        bus_width: None,
        engines_per_core: None,
        fp32_fmas_per_core: None,
        fp16_fmas_per_core: None,
        texels_per_core: None,
        pixels_per_core: None,
    }
}

/// The matcher. Evaluates the profile's signature commands in declared
/// order as a short-circuiting AND over command existence, then performs
/// the optional enrichment queries; every enrichment failure degrades only
/// its own field and never the overall match.
pub struct ProfileMatcher {
    /// The candidate profile being replayed.
    pub profile: IoctlProfile,
    /// The validated policy, for the budget and rate limits.
    pub options: DiscoveryOptions,
    /// Probe attempts made by this matcher, refused attempts included.
    pub calls_made: u32,
    /// One record per signature command probed so far.
    pub detected: Vec<DetectedIoctl>,
    /// The descriptor being assembled; seeded once the signatures match.
    pub info: GpuInfo,
    /// Where the match stands.
    pub phase: MatchPhase,
    /// Whether a granted request is still awaiting its reply.
    pub pending: bool,
}

impl ProfileMatcher {
    /// The matcher's invariant.
    pub open spec fn wf(self) -> bool {
        &&& spec_options_valid(self.options)
        &&& (self.phase matches MatchPhase::Signature { idx } ==> idx
            < self.profile.detection_ioctls@.len())
        &&& (self.phase is VersionProbe || self.phase is VersionRead
            ==> self.profile.version_ioctl is Some)
        &&& (self.phase is InfoRead ==> self.profile.gpu_info_ioctl is Some)
        &&& (self.phase is FeaturesRead ==> self.profile.features_ioctl is Some)
        &&& (self.pending ==> !(self.phase is Done) && !(self.phase is Failed))
    }

    /// Start matching a profile under a validated policy. The match begins
    /// at the first signature command; a profile with no signature commands
    /// matches vacuously and goes straight to enrichment, its descriptor
    /// already seeded from the profile.
    pub fn new(profile: IoctlProfile, options: DiscoveryOptions) -> (r: Result<
        ProfileMatcher,
        DiscoveryError,
    >)
        ensures
            r is Ok <==> spec_options_valid(options),
            r matches Ok(m) ==> m.wf() && m.calls_made == 0 && m.detected@.len() == 0
                && !m.pending && m.profile == profile,
            r matches Ok(m) ==> ({
                &&& (profile.detection_ioctls@.len() > 0 ==> m.phase == (MatchPhase::Signature {
                    idx: 0,
                }))
                &&& (profile.detection_ioctls@.len() == 0 ==> {
                    &&& m.phase == spec_phase_after(profile, 0)
                    &&& m.info.vendor == profile.vendor
                    &&& m.info.model == profile.model
                    &&& m.info.cores == profile.metadata.core_count
                    &&& m.info.driver_version is None
                    &&& m.info.gpu_id is None
                    &&& m.info.detected_ioctls@.len() == 0
                    &&& (m.phase is Done ==> spec_totals_applied(m.info, m.info))
                })
            }),
            r matches Err(e) ==> e is ConfigurationInvalid,
    {
        if let Err(msg) = options.validate() {
            return Err(DiscoveryError::ConfigurationInvalid(msg));
        }
        let mut m = ProfileMatcher {
            profile,
            options,
            calls_made: 0,
            detected: Vec::new(),
            info: empty_gpu_info(),
            phase: MatchPhase::Signature { idx: 0 },
            pending: false,
        };
        if m.profile.detection_ioctls.len() == 0 {
            m.enter_enrichment();
        }
        Ok(m)
    }

    /// Probe attempts made by this matcher, refused attempts included.
    pub fn get_call_count(&self) -> (r: u32)
        ensures
            r == self.calls_made,
    {
        self.calls_made
    }

    /// Whether the match has failed.
    pub fn is_failed(&self) -> (r: bool)
        ensures
            r == (self.phase is Failed),
    {
        matches!(self.phase, MatchPhase::Failed)
    }

    /// The completed descriptor, or nothing when the profile did not match.
    pub fn take_result(self) -> (r: Option<GpuInfo>)
        ensures
            r matches Some(info) ==> self.phase is Done && info == self.info,
            r is None <==> !(self.phase is Done),
    {
        if matches!(self.phase, MatchPhase::Done) {
            Some(self.info)
        } else {
            None
        }
    }

    /// Seed the descriptor from the profile and hand it the signature
    /// records, then move to the first enrichment phase.
    fn enter_enrichment(&mut self)
        requires
            spec_options_valid(old(self).options),
            !old(self).pending,
        ensures
            final(self).wf(),
            final(self).profile == old(self).profile,
            final(self).options == old(self).options,
            final(self).calls_made == old(self).calls_made,
            final(self).detected@ == old(self).detected@,
            final(self).pending == old(self).pending,
            final(self).phase == spec_phase_after(old(self).profile, 0),
            final(self).info.vendor == old(self).profile.vendor,
            final(self).info.model == old(self).profile.model,
            final(self).info.architecture == old(self).profile.metadata.architecture,
            final(self).info.cores == old(self).profile.metadata.core_count,
            final(self).info.driver_version is None,
            final(self).info.gpu_id is None,
            final(self).info.detected_ioctls@ == old(self).detected@,
            final(self).info.fp32_fmas_per_core == old(
                self,
            ).profile.metadata.fp32_fmas_per_core,
            final(self).info.fp16_fmas_per_core == old(
                self,
            ).profile.metadata.fp16_fmas_per_core,
            final(self).info.texels_per_core == old(self).profile.metadata.texels_per_core,
            final(self).info.pixels_per_core == old(self).profile.metadata.pixels_per_core,
            final(self).info.engines_per_core == old(self).profile.metadata.engines_per_core,
            spec_meta_eq_except_totals(final(self).info.metadata, old(self).profile.metadata),
            final(self).phase is Done ==> spec_totals_applied(final(self).info, final(self).info),
    {
        let mut info = create_gpu_info_from_profile(&self.profile);
        let mut detected_copy: Vec<DetectedIoctl> = Vec::new();
        let mut i: usize = 0;
        while i < self.detected.len()
            invariant
                i <= self.detected@.len(),
                detected_copy@ == self.detected@.subrange(0, i as int),
            decreases self.detected@.len() - i,
        {
            detected_copy.push(self.detected[i].clone());
            proof {
                assert(detected_copy@ =~= self.detected@.subrange(0, i + 1));
            }
            i += 1;
        }
        proof {
            assert(detected_copy@ =~= self.detected@);
        }
        info.detected_ioctls = detected_copy;
        self.info = info;
        if self.profile.version_ioctl.is_some() {
            self.phase = MatchPhase::VersionProbe;
        } else if self.profile.gpu_info_ioctl.is_some() {
            self.phase = MatchPhase::InfoRead;
        } else if self.profile.features_ioctl.is_some() {
            self.phase = MatchPhase::FeaturesRead;
        } else {
            self.finalize_totals();
            self.phase = MatchPhase::Done;
        }
    }

    /// Move to the enrichment phase after the given completed step,
    /// finishing the match when no query is left.
    fn proceed(&mut self, completed: u8)
        requires
            old(self).wf(),
            !old(self).pending,
            1 <= completed <= 3,
        ensures
            final(self).wf(),
            final(self).profile == old(self).profile,
            final(self).options == old(self).options,
            final(self).calls_made == old(self).calls_made,
            final(self).detected@ == old(self).detected@,
            final(self).pending == old(self).pending,
            final(self).phase == spec_phase_after(old(self).profile, completed as int),
            spec_info_eq_except_totals(final(self).info, old(self).info),
            if spec_phase_after(old(self).profile, completed as int) is Done {
                spec_totals_applied(old(self).info, final(self).info)
            } else {
                final(self).info == old(self).info
            },
    {
        if completed <= 1 && self.profile.gpu_info_ioctl.is_some() {
            self.phase = MatchPhase::InfoRead;
        } else if completed <= 2 && self.profile.features_ioctl.is_some() {
            self.phase = MatchPhase::FeaturesRead;
        } else {
            self.finalize_totals();
            self.phase = MatchPhase::Done;
        }
    }

    /// Derive the whole-GPU throughput totals, where the per-core figures
    /// and the core count allow it.
    fn finalize_totals(&mut self)
        ensures
            final(self).profile == old(self).profile,
            final(self).options == old(self).options,
            final(self).calls_made == old(self).calls_made,
            final(self).detected@ == old(self).detected@,
            final(self).pending == old(self).pending,
            final(self).phase == old(self).phase,
            spec_info_eq_except_totals(final(self).info, old(self).info),
            spec_totals_applied(old(self).info, final(self).info),
    {
        if let (Some(cores), Some(fp32_per_core)) = (self.info.cores, self.info.fp32_fmas_per_core)
            {
            if let Some(fp16_per_core) = self.info.fp16_fmas_per_core {
                proof {
                    assert((fp32_per_core as u32) * (cores as u32) < 0x1000000u32) by (
                    nonlinear_arith)
                        requires
                            fp32_per_core <= 0xFFFFu32,
                            cores <= 0xFFu32,
                    ;
                    assert((fp16_per_core as u32) * (cores as u32) < 0x1000000u32) by (
                    nonlinear_arith)
                        requires
                            fp16_per_core <= 0xFFFFu32,
                            cores <= 0xFFu32,
                    ;
                }
                let total_fp32: u32 = (fp32_per_core as u32) * (cores as u32);
                let total_fp16: u32 = (fp16_per_core as u32) * (cores as u32);
                self.info.metadata.total_fp32_fmas = Some(total_fp32);
                self.info.metadata.total_fp16_fmas = Some(total_fp16);
                if let (Some(texels), Some(pixels)) = (
                    self.info.texels_per_core,
                    self.info.pixels_per_core,
                ) {
                    proof {
                        assert((texels as u32) * (cores as u32) < 0x1000000u32) by (
                        nonlinear_arith)
                            requires
                                texels <= 0xFFFFu32,
                                cores <= 0xFFu32,
                        ;
                        assert((pixels as u32) * (cores as u32) < 0x1000000u32) by (
                        nonlinear_arith)
                            requires
                                pixels <= 0xFFFFu32,
                                cores <= 0xFFu32,
                        ;
                    }
                    self.info.metadata.total_texels_per_cycle = Some(
                        (texels as u32) * (cores as u32),
                    );
                    self.info.metadata.total_pixels_per_cycle = Some(
                        (pixels as u32) * (cores as u32),
                    );
                }
            }
        }
    }

    /// The probe the matcher wants performed now, if any.
    fn build_request(&self) -> (r: Option<MatchRequest>)
        requires
            self.wf(),
        ensures
            r == spec_match_request(*self),
    {
        let delay_ms: u64 = {
            let throttle: u64 = match self.options.max_calls_per_second {
                Some(m) => 1000u64 / (m as u64),
                None => 0,
            };
            if self.options.delay_between_calls_ms > u64::MAX - throttle {
                u64::MAX
            } else {
                self.options.delay_between_calls_ms + throttle
            }
        };
        match self.phase {
            MatchPhase::Signature { idx } => Some(
                MatchRequest::Null { cmd: self.profile.detection_ioctls[idx].cmd, delay_ms },
            ),
            MatchPhase::VersionProbe => {
                let d = self.profile.version_ioctl.as_ref().unwrap();
                Some(MatchRequest::Null { cmd: d.cmd, delay_ms })
            },
            MatchPhase::VersionRead { .. } => {
                let d = self.profile.version_ioctl.as_ref().unwrap();
                Some(MatchRequest::Buffer { cmd: d.cmd, size: d.buffer_size, delay_ms })
            },
            MatchPhase::InfoRead => {
                let d = self.profile.gpu_info_ioctl.as_ref().unwrap();
                Some(MatchRequest::Buffer { cmd: d.cmd, size: d.buffer_size, delay_ms })
            },
            MatchPhase::FeaturesRead => {
                let d = self.profile.features_ioctl.as_ref().unwrap();
                Some(MatchRequest::Buffer { cmd: d.cmd, size: d.buffer_size, delay_ms })
            },
            MatchPhase::Done | MatchPhase::Failed => None,
        }
    }

    /// Hand out the next probe to perform. While a reply is pending the
    /// same request is handed out again, uncharged. One attempt is charged
    /// against the budget per request, refused attempts counted too; a
    /// spent budget fails the match outright during the signature phase,
    /// and merely cuts the remaining enrichment queries short afterwards
    /// (the fields they would have filled stay unset).
    pub fn next_request(&mut self) -> (r: Result<Option<MatchRequest>, DiscoveryError>)
        requires
            old(self).wf(),
        ensures
            final(self).wf(),
            final(self).profile == old(self).profile,
            final(self).options == old(self).options,
            final(self).detected@ == old(self).detected@,
            ({
                let o = old(self).options;
                if old(self).phase is Done || old(self).phase is Failed {
                    r matches Ok(None) && *final(self) == *old(self)
                } else if old(self).pending {
                    &&& r matches Ok(q) && q == spec_match_request(*old(self))
                    &&& *final(self) == *old(self)
                } else if spec_at_match_budget(o, old(self).calls_made) {
                    &&& final(self).calls_made == spec_bumped(old(self).calls_made)
                    &&& !final(self).pending
                    &&& if old(self).phase is Signature {
                        &&& (r matches Err(e) && e is BudgetExceeded)
                        &&& final(self).phase is Failed
                    } else {
                        &&& r matches Ok(None)
                        &&& final(self).phase is Done
                        &&& spec_totals_applied(old(self).info, final(self).info)
                    }
                } else {
                    &&& r matches Ok(q) && q == spec_match_request(*old(self))
                    &&& final(self).calls_made == spec_bumped(old(self).calls_made)
                    &&& final(self).pending
                    &&& final(self).phase == old(self).phase
                    &&& final(self).info == old(self).info
                }
            }),
    {
        match self.phase {
            MatchPhase::Done | MatchPhase::Failed => {
                return Ok(None);
            },
            _ => {},
        }
        if self.pending {
            return Ok(self.build_request());
        }
        let at_budget = match self.options.max_total_calls {
            Some(m) => self.calls_made >= m,
            None => self.calls_made == u32::MAX,
        };
        // The counter records every attempt, refused ones included.
        if self.calls_made < u32::MAX {
            self.calls_made = self.calls_made + 1;
        }
        if at_budget {
            if matches!(self.phase, MatchPhase::Signature { .. }) {
                self.phase = MatchPhase::Failed;
                return Err(DiscoveryError::BudgetExceeded);
            }
            // Budget spent mid-enrichment: the remaining queries are
            // skipped, the match itself stands.
            self.finalize_totals();
            self.phase = MatchPhase::Done;
            return Ok(None);
        }
        self.pending = true;
        Ok(self.build_request())
    }

    /// Abort the match: the driver calls this when a probe could not be
    /// performed at all. The profile is treated as not matching.
    pub fn abort(&mut self)
        requires
            old(self).wf(),
        ensures
            final(self).wf(),
            final(self).phase is Failed,
            !final(self).pending,
            final(self).calls_made == old(self).calls_made,
            final(self).detected@ == old(self).detected@,
    {
        self.phase = MatchPhase::Failed;
        self.pending = false;
    }

    /// Enrich the descriptor from the hardware catalog entry for the
    /// identifier, if there is one: see [`spec_catalog_enrichment`].
    fn enrich_from_catalog(&mut self, gpu_id: u32)
        requires
            old(self).wf(),
        ensures
            final(self).wf(),
            final(self).profile == old(self).profile,
            final(self).options == old(self).options,
            final(self).calls_made == old(self).calls_made,
            final(self).detected@ == old(self).detected@,
            final(self).pending == old(self).pending,
            final(self).phase == old(self).phase,
            spec_catalog_enrichment(old(self).info, final(self).info, gpu_id),
            final(self).info.gpu_id == old(self).info.gpu_id,
            final(self).info.driver_version == old(self).info.driver_version,
            final(self).info.features@ == old(self).info.features@,
            final(self).info.detected_ioctls@ == old(self).info.detected_ioctls@,
            final(self).info.vendor == old(self).info.vendor,
            final(self).info.arch_version == old(self).info.arch_version,
            final(self).info.core_mask == old(self).info.core_mask,
            final(self).info.l2_cache_count == old(self).info.l2_cache_count,
            final(self).info.l2_cache_size == old(self).info.l2_cache_size,
            final(self).info.bus_width == old(self).info.bus_width,
            spec_meta_eq(final(self).info.metadata, old(self).info.metadata),
    {
        if let Some(model_info) = identify_mali_gpu(gpu_id) {
            self.info.architecture = Some(model_info.architecture);
            if !str_eq(model_info.name.as_str(), "Unknown") {
                self.info.model = model_info.name;
            }
            if self.info.cores.is_none() {
                self.info.cores = Some(model_info.min_cores);
            }
            if self.info.engines_per_core.is_none() {
                self.info.engines_per_core = Some(model_info.execution_engines);
            }
            if self.info.fp32_fmas_per_core.is_none() {
                self.info.fp32_fmas_per_core = Some(model_info.fma_per_engine);
            }
            if self.info.texels_per_core.is_none() {
                self.info.texels_per_core = Some(model_info.texels_per_cycle as u16);
            }
            if self.info.pixels_per_core.is_none() {
                self.info.pixels_per_core = Some(model_info.pixels_per_cycle as u16);
            }
            if self.info.fp16_fmas_per_core.is_none() {
                // FP16 throughput is usually twice FP32 on this hardware.
                self.info.fp16_fmas_per_core = Some(
                    #[verifier::truncate]
                    (((model_info.fma_per_engine as u32) * 2) as u16),
                );
            }
        }
    }

    /// Consume the raw reply of the pending probe: the return value, the
    /// errno, and the buffer contents for buffered probes (empty for null
    /// probes).
    pub fn on_reply(&mut self, ret: i32, errno: i32, data: &[u8])
        requires
            old(self).wf(),
            old(self).pending,
        ensures
            final(self).wf(),
            !final(self).pending,
            final(self).profile == old(self).profile,
            final(self).options == old(self).options,
            final(self).calls_made == old(self).calls_made,
            ({
                let p = old(self).profile;
                match old(self).phase {
                    MatchPhase::Signature { idx } => {
                        &&& final(self).detected@.len() == old(self).detected@.len() + 1
                        &&& final(self).detected@ == old(self).detected@.push(
                            final(self).detected@.last(),
                        )
                        &&& ({
                            let rec = final(self).detected@.last();
                            &&& rec.name == p.detection_ioctls@[idx as int].name
                            &&& rec.cmd == p.detection_ioctls@[idx as int].cmd
                            &&& rec.works == spec_looks_usable(errno)
                            &&& rec.returns_data == (errno != ENOTTY)
                            &&& rec.errno == (if errno != 0 {
                                Some(errno)
                            } else {
                                None
                            })
                            &&& rec.return_value == Some(ret)
                        })
                        &&& if !spec_exists_errno(errno) {
                            final(self).phase is Failed
                        } else if idx + 1 < p.detection_ioctls@.len() {
                            final(self).phase == MatchPhase::Signature { idx: (idx + 1) as usize }
                        } else {
                            &&& final(self).phase == spec_phase_after(p, 0)
                            &&& final(self).info.vendor == p.vendor
                            &&& final(self).info.model == p.model
                            &&& final(self).info.cores == p.metadata.core_count
                            &&& final(self).info.detected_ioctls@ == final(self).detected@
                        }
                    },
                    MatchPhase::VersionProbe => {
                        &&& final(self).detected@ == old(self).detected@
                        &&& if spec_exists_errno(errno) {
                            &&& final(self).phase == MatchPhase::VersionRead { null_ret: ret }
                            &&& final(self).info == old(self).info
                        } else {
                            &&& final(self).phase == spec_phase_after(p, 1)
                            &&& final(self).info.driver_version == old(self).info.driver_version
                            &&& spec_info_eq_except_totals(final(self).info, old(self).info)
                        }
                    },
                    MatchPhase::VersionRead { null_ret } => {
                        &&& final(self).detected@ == old(self).detected@
                        &&& final(self).phase == spec_phase_after(p, 1)
                        &&& ({
                            let parsed = spec_parse_version(
                                data@,
                                p.version_ioctl->0.parser@,
                                null_ret,
                            );
                            if ret >= 0 && parsed is Some {
                                final(self).info.driver_version matches Some(v) && v@ == parsed->0
                            } else {
                                final(self).info.driver_version == old(self).info.driver_version
                            }
                        })
                        &&& final(self).info.gpu_id == old(self).info.gpu_id
                        &&& final(self).info.features@ == old(self).info.features@
                        &&& final(self).info.detected_ioctls@ == old(self).info.detected_ioctls@
                    },
                    MatchPhase::InfoRead => {
                        &&& final(self).detected@ == old(self).detected@
                        &&& final(self).phase == spec_phase_after(p, 2)
                        &&& ({
                            let parsed = spec_extract_gpu_id(data@, p.gpu_info_ioctl->0.parser@);
                            if ret >= 0 && parsed is Some {
                                &&& final(self).info.gpu_id == Some(parsed->0)
                                &&& (old(self).info.vendor@ == "Mali"@
                                    ==> spec_catalog_enrichment(
                                    old(self).info,
                                    final(self).info,
                                    parsed->0,
                                ))
                                &&& (old(self).info.vendor@ != "Mali"@
                                    ==> spec_identity_unchanged(
                                    old(self).info,
                                    final(self).info,
                                ))
                            } else {
                                &&& final(self).info.gpu_id == old(self).info.gpu_id
                                &&& spec_identity_unchanged(old(self).info, final(self).info)
                            }
                        })
                        &&& final(self).info.vendor == old(self).info.vendor
                        &&& final(self).info.driver_version == old(self).info.driver_version
                        &&& final(self).info.features@ == old(self).info.features@
                        &&& final(self).info.detected_ioctls@ == old(self).info.detected_ioctls@
                        &&& (final(self).phase is Done ==> spec_totals_applied(
                            final(self).info,
                            final(self).info,
                        ))
                    },
                    MatchPhase::FeaturesRead => {
                        &&& final(self).detected@ == old(self).detected@
                        &&& final(self).phase == spec_phase_after(p, 3)
                        &&& if ret >= 0 {
                            final(self).info.features.deep_view() == spec_parse_features(
                                data@,
                                p.features_ioctl->0.parser@,
                            )
                        } else {
                            final(self).info.features@ == old(self).info.features@
                        }
                        &&& final(self).info.driver_version == old(self).info.driver_version
                        &&& final(self).info.gpu_id == old(self).info.gpu_id
                        &&& final(self).info.detected_ioctls@ == old(self).info.detected_ioctls@
                        &&& spec_totals_applied(final(self).info, final(self).info)
                    },
                    _ => false,
                }
            }),
    {
        self.pending = false;
        match self.phase {
            MatchPhase::Signature { idx } => {
                let def = &self.profile.detection_ioctls[idx];
                let rec = DetectedIoctl {
                    name: def.name.clone(),
                    cmd: def.cmd,
                    works: errno == 0 || errno == EFAULT || errno == EINVAL,
                    returns_data: errno != ENOTTY,
                    errno: if errno != 0 {
                        Some(errno)
                    } else {
                        None
                    },
                    return_value: Some(ret),
                };
                self.detected.push(rec);
                let exists_now = errno == 0 || errno == crate::interpret::EFAULT || errno
                    == crate::interpret::EINVAL || errno == crate::interpret::EPERM;
                assert(idx < self.profile.detection_ioctls.len());
                if !exists_now {
                    // Robust short-circuit: the first missing signature
                    // command aborts the whole match, saving budget.
                    self.phase = MatchPhase::Failed;
                } else if idx + 1 < self.profile.detection_ioctls.len() {
                    self.phase = MatchPhase::Signature { idx: idx + 1 };
                } else {
                    self.enter_enrichment();
                }
            },
            MatchPhase::VersionProbe => {
                let exists_now = errno == 0 || errno == EFAULT || errno == EINVAL || errno
                    == EPERM;
                if exists_now {
                    self.phase = MatchPhase::VersionRead { null_ret: ret };
                } else {
                    self.proceed(1);
                }
            },
            MatchPhase::VersionRead { null_ret } => {
                if ret >= 0 {
                    let parser = self.profile.version_ioctl.as_ref().unwrap().parser.clone();
                    if let Some(version_str) = parse_version(data, parser.as_str(), null_ret) {
                        self.info.driver_version = Some(version_str);
                    }
                }
                self.proceed(1);
            },
            MatchPhase::InfoRead => {
                if ret >= 0 {
                    let parser = self.profile.gpu_info_ioctl.as_ref().unwrap().parser.clone();
                    if let Some(gpu_id) = extract_gpu_id(data, parser.as_str()) {
                        self.info.gpu_id = Some(gpu_id);
                        if str_eq(self.info.vendor.as_str(), "Mali") {
                            self.enrich_from_catalog(gpu_id);
                        } else if str_eq(self.info.vendor.as_str(), "Adreno") {
                            if let Some(model_info) = identify_adreno_gpu(data) {
                                self.info.architecture = Some(model_info.architecture);
                                self.info.model = model_info.name;
                            }
                        }
                    }
                }
                self.proceed(2);
            },
            MatchPhase::FeaturesRead => {
                if ret >= 0 {
                    let parser = self.profile.features_ioctl.as_ref().unwrap().parser.clone();
                    self.info.features = parse_features(data, parser.as_str());
                }
                self.proceed(3);
            },
            MatchPhase::Done | MatchPhase::Failed => {
                proof {
                    assert(false);
                }
            },
        }
    }
}

/// Whether the matcher can grant no further probe.
pub open spec fn spec_at_match_budget(o: DiscoveryOptions, calls: u32) -> bool {
    match o.max_total_calls {
        Some(m) => calls >= m,
        None => calls == u32::MAX,
    }
}

/// The probe the matcher wants performed in its current phase, if any.
pub open spec fn spec_match_request(m: ProfileMatcher) -> Option<MatchRequest> {
    let delay = spec_throttle_delay(m.options);
    match m.phase {
        MatchPhase::Signature { idx } => Some(
            MatchRequest::Null { cmd: m.profile.detection_ioctls@[idx as int].cmd, delay_ms: delay },
        ),
        MatchPhase::VersionProbe => Some(
            MatchRequest::Null { cmd: m.profile.version_ioctl->0.cmd, delay_ms: delay },
        ),
        MatchPhase::VersionRead { .. } => Some(
            MatchRequest::Buffer {
                cmd: m.profile.version_ioctl->0.cmd,
                size: m.profile.version_ioctl->0.buffer_size,
                delay_ms: delay,
            },
        ),
        MatchPhase::InfoRead => Some(
            MatchRequest::Buffer {
                cmd: m.profile.gpu_info_ioctl->0.cmd,
                size: m.profile.gpu_info_ioctl->0.buffer_size,
                delay_ms: delay,
            },
        ),
        MatchPhase::FeaturesRead => Some(
            MatchRequest::Buffer {
                cmd: m.profile.features_ioctl->0.cmd,
                size: m.profile.features_ioctl->0.buffer_size,
                delay_ms: delay,
            },
        ),
        MatchPhase::Done | MatchPhase::Failed => None,
    }
}

} // verus!

