//! Discovery policy: verbosity, safety lists, rate limits and size-discovery
//! settings, validated once before any probing starts.

use vstd::prelude::*;
use vstd::string::StringExecFns;

verus! {

/// Verbosity level for output.
#[derive(Debug, Clone, Copy, PartialEq, Eq, Structural)]
pub enum Verbosity {
    /// Minimal output: only a summary.
    Minimal,
    /// Normal output: key findings.
    Normal,
    /// Detailed output: all results.
    Detailed,
    /// Debug output: everything, including progress.
    Debug,
}

/// Numeric rank of a verbosity level.
pub open spec fn spec_verbosity_value(v: Verbosity) -> u8 {
    match v {
        Verbosity::Minimal => 0,
        Verbosity::Normal => 1,
        Verbosity::Detailed => 2,
        Verbosity::Debug => 3,
    }
}

impl Verbosity {
    /// Numeric rank of this level, for comparison.
    pub fn value(&self) -> (r: u8)
        ensures
            r == spec_verbosity_value(*self),
    {
        match self {
            Verbosity::Minimal => 0,
            Verbosity::Normal => 1,
            Verbosity::Detailed => 2,
            Verbosity::Debug => 3,
        }
    }

    /// Whether this verbosity is at least the given level.
    pub fn is_at_least(&self, level: Verbosity) -> (r: bool)
        ensures
            r == (spec_verbosity_value(*self) >= spec_verbosity_value(level)),
    {
        self.value() >= level.value()
    }
}

/// Whether a byte occurs in a vector.
pub fn contains_byte(v: &Vec<u8>, x: u8) -> (r: bool)
    ensures
        r == v@.contains(x),
{
    let mut i: usize = 0;
    while i < v.len()
        invariant
            i <= v@.len(),
            forall|k: int| 0 <= k < i ==> v@[k] != x,
        decreases v@.len() - i,
    {
        if v[i] == x {
            return true;
        }
        i += 1;
    }
    false
}

/// The curated deny list of known-hazardous command types: operations
/// associated with resets, memory hazards and undocumented behaviour.
pub open spec fn spec_default_deny() -> Seq<u8> {
    seq![0x12u8, 0x88u8, 0x8Bu8, 0xFDu8, 0xFEu8, 0xFFu8]
}

/// The extended deny list used by the embedded preset.
pub open spec fn spec_embedded_deny() -> Seq<u8> {
    seq![0x12u8, 0x88u8, 0x8Bu8, 0xFDu8, 0xFEu8, 0xFFu8, 0x00u8, 0x01u8]
}

/// The default ordered candidate list for size discovery.
pub open spec fn spec_default_candidates() -> Seq<u16> {
    seq![4u16, 8u16, 16u16, 24u16, 32u16, 40u16, 48u16, 64u16, 80u16, 96u16, 128u16, 256u16]
}

/// Configuration options for the discovery process.
#[derive(Debug, Clone)]
pub struct DiscoveryOptions {
    /// Verbosity level for output.
    pub verbosity: Verbosity,
    /// Maximum results to show per category.
    pub max_results: usize,
    /// Skip detailed analysis.
    pub skip_details: bool,
    /// Focus on specific sequence (nr) values.
    pub focus_nr: Option<Vec<u8>>,
    /// Use parallel scanning (experimental).
    pub parallel: bool,
    /// Safety: explicitly allowed command types; authoritative when set.
    pub allow_types: Option<Vec<u8>>,
    /// Safety: denied command types, applied only when no allow list is set.
    pub deny_types: Vec<u8>,
    /// Safety: warn about dangerous types instead of failing.
    pub warn_only_on_dangerous: bool,
    /// Safety: attempt to find the exact argument size on EFAULT.
    pub try_find_size: bool,
    /// Rate limiting: fixed delay between calls, in milliseconds.
    pub delay_between_calls_ms: u64,
    /// Rate limiting: maximum calls per second (None = unlimited).
    pub max_calls_per_second: Option<u32>,
    /// Rate limiting: maximum total calls for the entire session.
    pub max_total_calls: Option<u32>,
    /// Size discovery: maximum extra probes per faulting command.
    pub max_size_discovery_attempts: u8,
    /// Size discovery: ordered candidate sizes to try.
    pub size_discovery_candidates: Vec<u16>,
}

/// The conditions a configuration must meet before any device is touched:
/// no contradictory allow/deny lists, size discovery only under the
/// permissive (warn-only) policy, and no zero budgets.
pub open spec fn spec_options_valid(o: DiscoveryOptions) -> bool {
    &&& !(o.allow_types is Some && o.deny_types@.len() > 0)
    &&& !(o.try_find_size && !o.warn_only_on_dangerous)
    &&& o.max_results != 0
    &&& o.max_calls_per_second != Some(0u32)
    &&& o.max_total_calls != Some(0u32)
    &&& o.max_size_discovery_attempts != 0
}

impl Default for DiscoveryOptions {
    /// The safe default configuration: curated deny list, 1000 calls per
    /// second, 10000 total calls, size discovery off.
    fn default() -> (r: Self)
        ensures
            r.verbosity == Verbosity::Normal,
            r.max_results == 10,
            !r.skip_details,
            r.focus_nr is None,
            !r.parallel,
            r.allow_types is None,
            r.deny_types@ == spec_default_deny(),
            !r.warn_only_on_dangerous,
            !r.try_find_size,
            r.delay_between_calls_ms == 0,
            r.max_calls_per_second == Some(1000u32),
            r.max_total_calls == Some(10000u32),
            r.max_size_discovery_attempts == 5,
            r.size_discovery_candidates@ == spec_default_candidates(),
            spec_options_valid(r),
    {
        let deny: Vec<u8> = vec![0x12, 0x88, 0x8B, 0xFD, 0xFE, 0xFF];
        let candidates: Vec<u16> = vec![4, 8, 16, 24, 32, 40, 48, 64, 80, 96, 128, 256];
        proof {
            assert(deny@ =~= spec_default_deny());
            assert(candidates@ =~= spec_default_candidates());
        }
        DiscoveryOptions {
            verbosity: Verbosity::Normal,
            max_results: 10,
            skip_details: false,
            focus_nr: None,
            parallel: false,
            allow_types: None,
            deny_types: deny,
            warn_only_on_dangerous: false,
            try_find_size: false,
            delay_between_calls_ms: 0,
            max_calls_per_second: Some(1000),
            max_total_calls: Some(10000),
            max_size_discovery_attempts: 5,
            size_discovery_candidates: candidates,
        }
    }
}

impl DiscoveryOptions {
    /// Validate the configuration; `Ok` exactly when every condition of
    /// [`spec_options_valid`] holds, `Err` with a message naming the first
    /// violated condition otherwise.
    pub fn validate(&self) -> (r: Result<(), String>)
        ensures
            r is Ok <==> spec_options_valid(*self),
    {
        if self.allow_types.is_some() && self.deny_types.len() > 0 {
            return Err(String::from_str(
                "Cannot specify both allow_types and deny_types - use one or the other",
            ));
        }
        if self.try_find_size && !self.warn_only_on_dangerous {
            return Err(String::from_str(
                "try_find_size requires warn_only_on_dangerous=true for safety",
            ));
        }
        if self.max_results == 0 {
            return Err(String::from_str("max_results must be at least 1"));
        }
        if let Some(max_calls) = self.max_calls_per_second {
            if max_calls == 0 {
                return Err(String::from_str("max_calls_per_second must be at least 1"));
            }
        }
        if let Some(max_total) = self.max_total_calls {
            if max_total == 0 {
                return Err(String::from_str("max_total_calls must be at least 1"));
            }
        }
        if self.max_size_discovery_attempts == 0 {
            return Err(String::from_str("max_size_discovery_attempts must be at least 1"));
        }
        Ok(())
    }

    /// Quick options for safe, minimal scanning.
    pub fn quick() -> (r: Self)
        ensures
            r.verbosity == Verbosity::Minimal,
            r.max_results == 5,
            r.skip_details,
            !r.warn_only_on_dangerous,
            r.max_calls_per_second == Some(100u32),
            r.max_total_calls == Some(1000u32),
            r.focus_nr is None,
            !r.parallel,
            r.allow_types is None,
            r.deny_types@ == spec_default_deny(),
            !r.try_find_size,
            r.delay_between_calls_ms == 0,
            r.max_size_discovery_attempts == 5,
            r.size_discovery_candidates@ == spec_default_candidates(),
            spec_options_valid(r),
    {
        let mut r = Self::default();
        r.verbosity = Verbosity::Minimal;
        r.max_results = 5;
        r.skip_details = true;
        r.warn_only_on_dangerous = false;
        r.max_calls_per_second = Some(100);
        r.max_total_calls = Some(1000);
        r
    }

    /// Debug options for full discovery, still budgeted.
    pub fn debug() -> (r: Self)
        ensures
            r.verbosity == Verbosity::Debug,
            r.max_results == usize::MAX,
            !r.skip_details,
            r.warn_only_on_dangerous,
            r.max_calls_per_second == Some(500u32),
            r.max_total_calls == Some(5000u32),
            r.focus_nr is None,
            !r.parallel,
            r.allow_types is None,
            r.deny_types@ == spec_default_deny(),
            !r.try_find_size,
            r.delay_between_calls_ms == 0,
            r.max_size_discovery_attempts == 5,
            r.size_discovery_candidates@ == spec_default_candidates(),
            spec_options_valid(r),
    {
        let mut r = Self::default();
        r.verbosity = Verbosity::Debug;
        r.max_results = usize::MAX;
        r.skip_details = false;
        r.warn_only_on_dangerous = true;
        r.max_calls_per_second = Some(500);
        r.max_total_calls = Some(5000);
        r
    }

    /// Options for embedded systems: very conservative budgets and an
    /// extended deny list.
    pub fn embedded() -> (r: Self)
        ensures
            r.verbosity == Verbosity::Minimal,
            r.max_results == 3,
            r.skip_details,
            !r.warn_only_on_dangerous,
            r.max_calls_per_second == Some(50u32),
            r.max_total_calls == Some(500u32),
            r.deny_types@ == spec_embedded_deny(),
            r.focus_nr is None,
            !r.parallel,
            r.allow_types is None,
            !r.try_find_size,
            r.delay_between_calls_ms == 0,
            r.max_size_discovery_attempts == 5,
            r.size_discovery_candidates@ == spec_default_candidates(),
            spec_options_valid(r),
    {
        let mut r = Self::default();
        r.verbosity = Verbosity::Minimal;
        r.max_results = 3;
        r.skip_details = true;
        r.warn_only_on_dangerous = false;
        r.max_calls_per_second = Some(50);
        r.max_total_calls = Some(500);
        let deny: Vec<u8> = vec![0x12, 0x88, 0x8B, 0xFD, 0xFE, 0xFF, 0x00, 0x01];
        proof {
            assert(deny@ =~= spec_embedded_deny());
        }
        r.deny_types = deny;
        r
    }
}

/// User-facing discovery configuration; converted into the scanner's own
/// option set before a session starts.
#[derive(Debug, Clone)]
pub struct DiscoveryConfig {
    /// Verbosity level.
    pub verbosity: Verbosity,
    /// Maximum results per category.
    pub max_results: usize,
    /// Skip detailed analysis.
    pub skip_details: bool,
    /// Focus on specific sequence (nr) values.
    pub focus_nr: Option<Vec<u8>>,
    /// Use parallel scanning.
    pub parallel: bool,
    /// Allow specific command types (overrides safety defaults).
    pub allow_types: Option<Vec<u8>>,
    /// Deny specific command types (added to the defaults).
    pub deny_types: Option<Vec<u8>>,
    /// Only warn about dangerous types instead of failing.
    pub warn_only_on_dangerous: bool,
    /// Try to discover correct buffer sizes.
    pub try_find_size: bool,
    /// Delay between calls in milliseconds.
    pub delay_between_calls_ms: u64,
    /// Maximum calls per second (None = unlimited).
    pub max_calls_per_second: Option<u32>,
    /// Maximum total calls for the scan.
    pub max_total_calls: Option<u32>,
}

impl Default for DiscoveryConfig {
    /// The default user configuration, mirroring the scanner defaults.
    fn default() -> (r: Self)
        ensures
            r.verbosity == Verbosity::Normal,
            r.max_results == 10,
            !r.skip_details,
            r.focus_nr is None,
            !r.parallel,
            r.allow_types is None,
            r.deny_types is None,
            !r.warn_only_on_dangerous,
            !r.try_find_size,
            r.delay_between_calls_ms == 0,
            r.max_calls_per_second == Some(1000u32),
            r.max_total_calls == Some(10000u32),
    {
        DiscoveryConfig {
            verbosity: Verbosity::Normal,
            max_results: 10,
            skip_details: false,
            focus_nr: None,
            parallel: false,
            allow_types: None,
            deny_types: None,
            warn_only_on_dangerous: false,
            try_find_size: false,
            delay_between_calls_ms: 0,
            max_calls_per_second: Some(1000),
            max_total_calls: Some(10000),
        }
    }
}

/// The conditions a user configuration must meet.
pub open spec fn spec_config_valid(c: DiscoveryConfig) -> bool {
    &&& c.max_results != 0
    &&& c.max_calls_per_second != Some(0u32)
    &&& c.max_total_calls != Some(0u32)
    &&& !(c.try_find_size && !c.warn_only_on_dangerous)
}

impl DiscoveryConfig {
    /// Quick options for profile matching: fast and minimal.
    pub fn quick() -> (r: Self)
        ensures
            r.verbosity == Verbosity::Minimal,
            r.max_results == 5,
            r.skip_details,
            r.focus_nr is None,
            !r.parallel,
            r.allow_types is None,
            r.deny_types is None,
            !r.warn_only_on_dangerous,
            !r.try_find_size,
            r.delay_between_calls_ms == 0,
            r.max_calls_per_second == Some(100u32),
            r.max_total_calls == Some(1000u32),
            spec_config_valid(r),
    {
        DiscoveryConfig {
            verbosity: Verbosity::Minimal,
            max_results: 5,
            skip_details: true,
            focus_nr: None,
            parallel: false,
            allow_types: None,
            deny_types: None,
            warn_only_on_dangerous: false,
            try_find_size: false,
            delay_between_calls_ms: 0,
            max_calls_per_second: Some(100),
            max_total_calls: Some(1000),
        }
    }

    /// Debug options for full discovery, with size discovery enabled.
    pub fn debug() -> (r: Self)
        ensures
            r.verbosity == Verbosity::Debug,
            r.max_results == usize::MAX,
            !r.skip_details,
            r.focus_nr is None,
            !r.parallel,
            r.allow_types is None,
            r.deny_types is None,
            r.warn_only_on_dangerous,
            r.try_find_size,
            r.delay_between_calls_ms == 1,
            r.max_calls_per_second == Some(500u32),
            r.max_total_calls == Some(5000u32),
            spec_config_valid(r),
    {
        DiscoveryConfig {
            verbosity: Verbosity::Debug,
            max_results: usize::MAX,
            skip_details: false,
            focus_nr: None,
            parallel: false,
            allow_types: None,
            deny_types: None,
            warn_only_on_dangerous: true,
            try_find_size: true,
            delay_between_calls_ms: 1,
            max_calls_per_second: Some(500),
            max_total_calls: Some(5000),
        }
    }

    /// Safe options for embedded systems.
    pub fn embedded() -> (r: Self)
        ensures
            r.verbosity == Verbosity::Minimal,
            r.max_results == 3,
            r.skip_details,
            r.focus_nr is None,
            !r.parallel,
            r.allow_types is None,
            r.deny_types matches Some(d) && d@ == spec_embedded_deny(),
            !r.warn_only_on_dangerous,
            !r.try_find_size,
            r.delay_between_calls_ms == 10,
            r.max_calls_per_second == Some(50u32),
            r.max_total_calls == Some(500u32),
            spec_config_valid(r),
    {
        let deny: Vec<u8> = vec![0x12, 0x88, 0x8B, 0xFD, 0xFE, 0xFF, 0x00, 0x01];
        proof {
            assert(deny@ =~= spec_embedded_deny());
        }
        DiscoveryConfig {
            verbosity: Verbosity::Minimal,
            max_results: 3,
            skip_details: true,
            focus_nr: None,
            parallel: false,
            allow_types: None,
            deny_types: Some(deny),
            warn_only_on_dangerous: false,
            try_find_size: false,
            delay_between_calls_ms: 10,
            max_calls_per_second: Some(50),
            max_total_calls: Some(500),
        }
    }

    /// Aggressive options for comprehensive scanning: no budgets, warn-only
    /// policy, size discovery on.
    pub fn aggressive() -> (r: Self)
        ensures
            r.verbosity == Verbosity::Detailed,
            r.max_results == usize::MAX,
            !r.skip_details,
            r.focus_nr is None,
            r.parallel,
            r.allow_types is None,
            r.deny_types matches Some(d) && d@ == Seq::<u8>::empty(),
            r.warn_only_on_dangerous,
            r.try_find_size,
            r.delay_between_calls_ms == 0,
            r.max_calls_per_second is None,
            r.max_total_calls is None,
            spec_config_valid(r),
    {
        DiscoveryConfig {
            verbosity: Verbosity::Detailed,
            max_results: usize::MAX,
            skip_details: false,
            focus_nr: None,
            parallel: true,
            allow_types: None,
            deny_types: Some(Vec::new()),
            warn_only_on_dangerous: true,
            try_find_size: true,
            delay_between_calls_ms: 0,
            max_calls_per_second: None,
            max_total_calls: None,
        }
    }

    /// Validate the user configuration; `Ok` exactly when every condition
    /// of [`spec_config_valid`] holds.
    pub fn validate(&self) -> (r: Result<(), String>)
        ensures
            r is Ok <==> spec_config_valid(*self),
    {
        if self.max_results == 0 {
            return Err(String::from_str("max_results must be at least 1"));
        }
        if let Some(max_calls) = self.max_calls_per_second {
            if max_calls == 0 {
                return Err(String::from_str("max_calls_per_second must be at least 1"));
            }
        }
        if let Some(max_total) = self.max_total_calls {
            if max_total == 0 {
                return Err(String::from_str("max_total_calls must be at least 1"));
            }
        }
        if self.try_find_size && !self.warn_only_on_dangerous {
            return Err(String::from_str(
                "try_find_size requires warn_only_on_dangerous=true for safety",
            ));
        }
        Ok(())
    }

    /// Convert into the scanner's option set. User settings override the
    /// scanner defaults; when an allow list is given the deny list is
    /// cleared, otherwise any extra deny entries are merged with the
    /// curated defaults into an ascending list without duplicates.
    pub fn to_scanner_options(self) -> (r: DiscoveryOptions)
        ensures
            r.verbosity == self.verbosity,
            r.max_results == self.max_results,
            r.skip_details == self.skip_details,
            r.focus_nr == self.focus_nr,
            r.parallel == self.parallel,
            r.warn_only_on_dangerous == self.warn_only_on_dangerous,
            r.try_find_size == self.try_find_size,
            r.delay_between_calls_ms == self.delay_between_calls_ms,
            r.max_calls_per_second == self.max_calls_per_second,
            r.max_total_calls == self.max_total_calls,
            r.max_size_discovery_attempts == 5,
            r.size_discovery_candidates@ == spec_default_candidates(),
            self.allow_types is Some ==> r.allow_types == self.allow_types
                && r.deny_types@.len() == 0,
            self.allow_types is None ==> r.allow_types is None && (forall|x: u8|
                r.deny_types@.contains(x) <==> (spec_default_deny().contains(x) || (
                self.deny_types matches Some(d) && d@.contains(x)))),
            self.allow_types is None ==> (forall|i: int, j: int|
                0 <= i < j < r.deny_types@.len() ==> r.deny_types@[i] < r.deny_types@[j]),
    {
        let mut options = DiscoveryOptions::default();
        options.verbosity = self.verbosity;
        options.max_results = self.max_results;
        options.skip_details = self.skip_details;
        options.focus_nr = self.focus_nr;
        options.parallel = self.parallel;
        options.warn_only_on_dangerous = self.warn_only_on_dangerous;
        options.try_find_size = self.try_find_size;
        options.delay_between_calls_ms = self.delay_between_calls_ms;
        options.max_calls_per_second = self.max_calls_per_second;
        options.max_total_calls = self.max_total_calls;
        if let Some(allow) = self.allow_types {
            options.allow_types = Some(allow);
            options.deny_types = Vec::new();
        } else {
            let base = options.deny_types;
            let mut merged: Vec<u8> = Vec::new();
            let mut b: u16 = 0;
            while b <= 255
                invariant
                    b <= 256,
                    forall|x: u8| (x as int) < b ==> (merged@.contains(x) <==> (
                        base@.contains(x) || (self.deny_types matches Some(d)
                        && d@.contains(x)))),
                    forall|i: int| 0 <= i < merged@.len() ==> (merged@[i] as int) < b,
                    forall|i: int, j: int| 0 <= i < j < merged@.len()
                        ==> merged@[i] < merged@[j],
                decreases 256 - b,
            {
                let byte: u8 = b as u8;
                let in_base = contains_byte(&base, byte);
                let in_extra = match &self.deny_types {
                    Some(extra) => contains_byte(extra, byte),
                    None => false,
                };
                if in_base || in_extra {
                    merged.push(byte);
                }
                proof {
                    broadcast use vstd::seq_lib::lemma_seq_contains_after_push;
                }
                b += 1;
            }
            options.deny_types = merged;
        }
        options
    }
}

} // verus!
