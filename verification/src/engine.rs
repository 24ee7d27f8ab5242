//! The scan engine: a budgeted, policy-gated walk over one command type's
//! probe space. The engine owns no device; it hands out probe requests and
//! consumes raw replies, so the driver around it performs the syscalls. Each
//! (sequence, size, direction) position is probed with a null argument
//! first; a buffered probe follows only when the null probe did not answer
//! ENOTTY, and a bounded size search follows a faulting buffered probe when
//! size discovery is enabled and the type is not flagged dangerous.

use vstd::prelude::*;
use crate::codec::{compose, spec_compose, SIZE_FIELD_LIMIT};
use crate::config::{contains_byte, spec_options_valid, DiscoveryOptions};
use crate::error::DiscoveryError;
use crate::interpret::{interpret, spec_interpret, spec_reinterpret, Interpretation, EFAULT,
    EINVAL, ENOTTY};
use crate::outcome::IoctlResult;

verus! {

/// The argument a probe carries: nothing, or a fresh zeroed buffer of the
/// given size, exclusively owned until the call returns.
#[derive(Debug, Clone, Copy, PartialEq, Eq, Structural)]
pub enum ProbeArg {
    /// Probe with a null argument.
    Null,
    /// Probe with a pointer to a zeroed buffer of this size.
    Buffer {
        /// The buffer size in bytes.
        size: u16,
    },
}

/// One probe the driver must perform, after waiting out the delay.
#[derive(Debug, Clone, Copy, PartialEq, Eq, Structural)]
pub struct ProbeRequest {
    /// The packed command word to issue.
    pub cmd: u32,
    /// The argument to carry.
    pub arg: ProbeArg,
    /// Milliseconds to wait before the call, for rate limiting.
    pub delay_ms: u64,
}

/// Where the engine stands within one command position's probe sequence.
#[derive(Debug, Clone, Copy, PartialEq, Eq, Structural)]
pub enum ProbeStage {
    /// Awaiting the null-argument probe.
    Null,
    /// Awaiting the buffered probe at the position's own size.
    Buffer {
        /// Return value of the null probe.
        null_ret: i32,
        /// Errno of the null probe.
        null_errno: i32,
    },
    /// Awaiting a size-discovery probe at one candidate size.
    SizeSearch {
        /// Return value of the null probe.
        null_ret: i32,
        /// Errno of the null probe.
        null_errno: i32,
        /// Return value of the first buffered probe.
        buf_ret: i32,
        /// Errno of the first buffered probe (EFAULT, or the search would
        /// not have started).
        buf_errno: i32,
        /// Index of the candidate size being probed.
        cand_idx: usize,
        /// Extra probes already spent on this position.
        attempts: u8,
    },
    /// Awaiting the repeated probe at the discovered size.
    Recheck {
        /// Return value of the null probe.
        null_ret: i32,
        /// Errno of the null probe.
        null_errno: i32,
        /// The size the search settled on.
        discovered: u16,
    },
}

/// The engine's position within one type's scan.
#[derive(Debug, Clone, Copy, PartialEq, Eq, Structural)]
pub struct ScanCursor {
    /// The type being scanned.
    pub ty: u8,
    /// Whether that type is on the deny list.
    pub dangerous: bool,
    /// Current sequence number; at most 255 while scanning.
    pub nr: u16,
    /// Index into the fixed size ladder, below 8.
    pub size_idx: u8,
    /// Current direction, below 4.
    pub dir_idx: u8,
    /// Where the position's probe sequence stands.
    pub stage: ProbeStage,
}

/// The engine's phase: between scans, mid-scan, or aborted by a budget or
/// liveness failure (outcomes gathered so far stay valid).
#[derive(Debug, Clone, Copy, PartialEq, Eq, Structural)]
pub enum ScanPhase {
    /// No scan in progress.
    Idle,
    /// Scanning, at the given position.
    Scanning(ScanCursor),
    /// The current scan was aborted; prior outcomes remain.
    Aborted,
}

/// The fixed ladder of sizes every position is scanned at.
pub open spec fn spec_scan_size(i: int) -> u16 {
    if i == 0 {
        1
    } else if i == 1 {
        2
    } else if i == 2 {
        4
    } else if i == 3 {
        8
    } else if i == 4 {
        16
    } else if i == 5 {
        32
    } else if i == 6 {
        64
    } else {
        128
    }
}

/// The size at one rung of the scan ladder.
fn scan_size_at(i: u8) -> (r: u16)
    requires
        i < 8,
    ensures
        r == spec_scan_size(i as int),
{
    if i == 0 {
        1
    } else if i == 1 {
        2
    } else if i == 2 {
        4
    } else if i == 3 {
        8
    } else if i == 4 {
        16
    } else if i == 5 {
        32
    } else if i == 6 {
        64
    } else {
        128
    }
}

/// Whether a sequence number passes the focus filter.
pub open spec fn spec_nr_included(o: DiscoveryOptions, nr: u8) -> bool {
    match o.focus_nr {
        Some(f) => f@.contains(nr),
        None => true,
    }
}

/// The first sequence number at or after `from` that passes the focus
/// filter, or 256 when none is left.
pub open spec fn spec_next_included_nr(o: DiscoveryOptions, from: int) -> int
    decreases 256 - from,
    when 0 <= from <= 256
{
    if from >= 256 {
        256
    } else if spec_nr_included(o, from as u8) {
        from
    } else {
        spec_next_included_nr(o, from + 1)
    }
}

/// Find the first focused sequence number at or after `from`.
fn next_included_nr(o: &DiscoveryOptions, from: u16) -> (r: u16)
    requires
        from <= 256,
    ensures
        r == spec_next_included_nr(*o, from as int),
        from <= r <= 256,
        r < 256 ==> spec_nr_included(*o, r as u8),
    decreases 256 - from,
{
    if from >= 256 {
        256
    } else {
        let included = match &o.focus_nr {
            Some(f) => contains_byte(f, from as u8),
            None => true,
        };
        if included {
            from
        } else {
            next_included_nr(o, from + 1)
        }
    }
}

/// The first usable size candidate at or after index `from`: one that
/// differs from the size already tried and fits the command word's 14-bit
/// size field. The candidate count when none is left.
pub open spec fn spec_next_candidate(o: DiscoveryOptions, from: int, orig: u16) -> int
    decreases o.size_discovery_candidates@.len() - from,
    when 0 <= from <= o.size_discovery_candidates@.len()
{
    if from >= o.size_discovery_candidates@.len() {
        o.size_discovery_candidates@.len() as int
    } else if o.size_discovery_candidates@[from] != orig && o.size_discovery_candidates@[from]
        < SIZE_FIELD_LIMIT {
        from
    } else {
        spec_next_candidate(o, from + 1, orig)
    }
}

/// Find the first usable size candidate at or after index `from`.
fn next_candidate(o: &DiscoveryOptions, from: usize, orig: u16) -> (r: usize)
    requires
        from <= o.size_discovery_candidates@.len(),
    ensures
        r == spec_next_candidate(*o, from as int, orig),
        from <= r <= o.size_discovery_candidates@.len(),
        r < o.size_discovery_candidates@.len() ==> o.size_discovery_candidates@[r as int] != orig
            && o.size_discovery_candidates@[r as int] < SIZE_FIELD_LIMIT,
    decreases o.size_discovery_candidates@.len() - from,
{
    if from >= o.size_discovery_candidates.len() {
        o.size_discovery_candidates.len()
    } else {
        let c = o.size_discovery_candidates[from];
        if c != orig && c < SIZE_FIELD_LIMIT {
            from
        } else {
            next_candidate(o, from + 1, orig)
        }
    }
}

/// Whether the type is permitted: an explicit allow list is authoritative;
/// otherwise the type must be absent from the deny list.
pub open spec fn spec_allowed(o: DiscoveryOptions, ty: u8) -> bool {
    match o.allow_types {
        Some(a) => a@.contains(ty),
        None => !o.deny_types@.contains(ty),
    }
}

/// A type on the explicit allow list is always permitted, even if it is
/// also deny-listed; a type on neither list is permitted by default.
pub proof fn lemma_allow_list_precedence(o: DiscoveryOptions, ty: u8)
    ensures
        (o.allow_types matches Some(a) && a@.contains(ty)) ==> spec_allowed(o, ty),
        o.allow_types is None && !o.deny_types@.contains(ty) ==> spec_allowed(o, ty),
{
}

/// A cursor that is about to issue a probe: every index in range, and a
/// size-search position pointing at a usable candidate with budget left.
pub open spec fn spec_cursor_wf(c: ScanCursor, o: DiscoveryOptions) -> bool {
    &&& c.nr < 256
    &&& c.size_idx < 8
    &&& c.dir_idx < 4
    &&& c.dangerous == o.deny_types@.contains(c.ty)
    &&& spec_scan_size(c.size_idx as int) < SIZE_FIELD_LIMIT
    &&& match c.stage {
        ProbeStage::SizeSearch { cand_idx, attempts, buf_errno, .. } => {
            &&& cand_idx < o.size_discovery_candidates@.len()
            &&& o.size_discovery_candidates@[cand_idx as int] != spec_scan_size(
                c.size_idx as int,
            )
            &&& o.size_discovery_candidates@[cand_idx as int] < SIZE_FIELD_LIMIT
            &&& attempts < o.max_size_discovery_attempts
            &&& buf_errno == EFAULT
            &&& o.try_find_size && !c.dangerous
        },
        ProbeStage::Recheck { discovered, .. } => discovered < SIZE_FIELD_LIMIT,
        _ => true,
    }
}

/// The throttle delay before one probe: the configured inter-call delay
/// plus the coarse per-second limit's pause, saturating.
pub open spec fn spec_throttle_delay(o: DiscoveryOptions) -> u64 {
    let throttle: u64 = match o.max_calls_per_second {
        Some(m) => (1000u64 / (m as u64)) as u64,
        None => 0u64,
    };
    if o.delay_between_calls_ms > u64::MAX - throttle {
        u64::MAX
    } else {
        (o.delay_between_calls_ms + throttle) as u64
    }
}

/// The command word at the cursor's own position.
pub open spec fn spec_scan_cmd(c: ScanCursor) -> u32 {
    spec_compose(c.dir_idx, c.ty, c.nr as u8, spec_scan_size(c.size_idx as int))
}

/// The probe the engine wants performed at this cursor.
pub open spec fn spec_current_request(c: ScanCursor, o: DiscoveryOptions) -> ProbeRequest {
    let delay = spec_throttle_delay(o);
    match c.stage {
        ProbeStage::Null => ProbeRequest {
            cmd: spec_scan_cmd(c),
            arg: ProbeArg::Null,
            delay_ms: delay,
        },
        ProbeStage::Buffer { .. } => ProbeRequest {
            cmd: spec_scan_cmd(c),
            arg: ProbeArg::Buffer { size: spec_scan_size(c.size_idx as int) },
            delay_ms: delay,
        },
        ProbeStage::SizeSearch { cand_idx, .. } => {
            let cand = o.size_discovery_candidates@[cand_idx as int];
            ProbeRequest {
                cmd: spec_compose(c.dir_idx, c.ty, c.nr as u8, cand),
                arg: ProbeArg::Buffer { size: cand },
                delay_ms: delay,
            }
        },
        ProbeStage::Recheck { discovered, .. } => ProbeRequest {
            cmd: spec_compose(c.dir_idx, c.ty, c.nr as u8, discovered),
            arg: ProbeArg::Buffer { size: discovered },
            delay_ms: delay,
        },
    }
}

/// The phase after one position is finished: the next direction, then the
/// next size rung, then the next focused sequence number; Idle when the
/// type's scan is complete.
pub open spec fn spec_advanced_phase(c: ScanCursor, o: DiscoveryOptions) -> ScanPhase {
    if c.dir_idx < 3 {
        ScanPhase::Scanning(
            ScanCursor {
                ty: c.ty,
                dangerous: c.dangerous,
                nr: c.nr,
                size_idx: c.size_idx,
                dir_idx: (c.dir_idx + 1) as u8,
                stage: ProbeStage::Null,
            },
        )
    } else if c.size_idx < 7 {
        ScanPhase::Scanning(
            ScanCursor {
                ty: c.ty,
                dangerous: c.dangerous,
                nr: c.nr,
                size_idx: (c.size_idx + 1) as u8,
                dir_idx: 0,
                stage: ProbeStage::Null,
            },
        )
    } else {
        let n = spec_next_included_nr(o, c.nr + 1);
        if n >= 256 {
            ScanPhase::Idle
        } else {
            ScanPhase::Scanning(
                ScanCursor {
                    ty: c.ty,
                    dangerous: c.dangerous,
                    nr: n as u16,
                    size_idx: 0,
                    dir_idx: 0,
                    stage: ProbeStage::Null,
                },
            )
        }
    }
}

/// The phase a scan of `ty` starts in: the first focused sequence number at
/// the first size rung and direction, or Idle when the focus filter admits
/// no sequence number at all.
pub open spec fn spec_initial_phase(o: DiscoveryOptions, ty: u8) -> ScanPhase {
    let n = spec_next_included_nr(o, 0);
    if n >= 256 {
        ScanPhase::Idle
    } else {
        ScanPhase::Scanning(
            ScanCursor {
                ty,
                dangerous: o.deny_types@.contains(ty),
                nr: n as u16,
                size_idx: 0,
                dir_idx: 0,
                stage: ProbeStage::Null,
            },
        )
    }
}

/// The curated risk rationale per hazardous type.
pub open spec fn spec_risk_description(ty: u8) -> Option<Seq<char>> {
    if ty == 0xFF {
        Some("HIGH RISK: May cause hardware damage or system crashes"@)
    } else if ty == 0xFD {
        Some("MEDIUM RISK: May cause driver instability or data corruption"@)
    } else if ty == 0xFE {
        Some("UNKNOWN RISK: Experimental or undocumented functionality"@)
    } else if ty == 0x88 {
        Some("MEDIUM RISK: Memory operations that could cause instability"@)
    } else if ty == 0x8B {
        Some("MEDIUM RISK: Potential hardware configuration changes"@)
    } else if ty == 0x12 {
        Some("MEDIUM RISK: May trigger hardware resets"@)
    } else {
        None
    }
}

/// Whether an error names exactly this refused type.
pub open spec fn spec_is_policy_violation(e: DiscoveryError, ty: u8) -> bool {
    e matches DiscoveryError::PolicyViolation { ty: t } && t == ty
}

/// Whether the session can grant no further probe: the configured total
/// budget is spent, or an unlimited session has exhausted the 32-bit
/// attempt counter and refuses rather than wrap it.
pub open spec fn spec_at_budget(o: DiscoveryOptions, counter: u32) -> bool {
    match o.max_total_calls {
        Some(m) => counter >= m,
        None => counter == u32::MAX,
    }
}

/// The attempt counter after one more charge: it counts every attempt,
/// refused ones included, and saturates rather than wrap.
pub open spec fn spec_bumped(counter: u32) -> u32 {
    if counter == u32::MAX {
        u32::MAX
    } else {
        (counter + 1) as u32
    }
}

/// Whether one appended record carries the given call results for the
/// cursor's own position.
pub open spec fn spec_outcome_matches(
    rec: IoctlResult,
    c: ScanCursor,
    null_result: (i32, i32),
    ptr_result: Option<(i32, i32)>,
    interpretation: Interpretation,
    discovered_size: Option<u16>,
) -> bool {
    &&& rec.cmd == spec_scan_cmd(c)
    &&& rec.dir == c.dir_idx
    &&& rec.ty == c.ty
    &&& rec.nr == c.nr as u8
    &&& rec.size == spec_scan_size(c.size_idx as int)
    &&& rec.null_result == null_result
    &&& rec.ptr_result == ptr_result
    &&& rec.interpretation == interpretation
    &&& rec.discovered_size == discovered_size
    &&& rec.is_potentially_dangerous == c.dangerous
}

/// The discovery scan engine. It validates its policy once, then walks one
/// type's command space probe by probe: the driver asks it for the next
/// request, performs the syscall, and hands the raw reply back.
pub struct IoctlDiscovery {
    /// Every outcome recorded so far, across all scanned types.
    pub results: Vec<IoctlResult>,
    /// The validated configuration.
    pub options: DiscoveryOptions,
    /// Probe attempts made in this session; refused attempts are counted
    /// too, as the governor charges before it decides.
    pub call_counter: u32,
    /// Types that were scanned against the policy under warn-only mode:
    /// the append-only warning side channel.
    pub warned_types: Vec<u8>,
    /// The engine's phase.
    pub phase: ScanPhase,
    /// Whether a granted request is still awaiting its reply.
    pub pending: bool,
}

impl IoctlDiscovery {
    /// The engine's invariant: a validated configuration, a call counter
    /// within the budget, a well-formed cursor while scanning, and a
    /// pending reply only mid-scan.
    pub open spec fn wf(self) -> bool {
        &&& spec_options_valid(self.options)
        &&& (self.phase matches ScanPhase::Scanning(c) ==> spec_cursor_wf(c, self.options))
        &&& (self.pending ==> self.phase is Scanning)
    }

    /// Create an engine over a validated configuration; a configuration
    /// that fails validation is rejected here, before any device I/O.
    pub fn new(options: DiscoveryOptions) -> (r: Result<IoctlDiscovery, DiscoveryError>)
        ensures
            r matches Ok(e) ==> e.wf() && e.options == options && e.results@.len() == 0
                && e.call_counter == 0 && e.warned_types@.len() == 0 && e.phase is Idle
                && !e.pending,
            r is Ok <==> spec_options_valid(options),
            r matches Err(e) ==> e is ConfigurationInvalid,
    {
        match options.validate() {
            Ok(()) => Ok(
                IoctlDiscovery {
                    results: Vec::new(),
                    options,
                    call_counter: 0,
                    warned_types: Vec::new(),
                    phase: ScanPhase::Idle,
                    pending: false,
                },
            ),
            Err(m) => Err(DiscoveryError::ConfigurationInvalid(m)),
        }
    }

    /// Re-validate the configuration.
    pub fn validate_configuration(&self) -> (r: Result<(), String>)
        ensures
            r is Ok <==> spec_options_valid(self.options),
    {
        self.options.validate()
    }

    /// Whether the type is on the deny list.
    pub fn is_potentially_dangerous(&self, ty: u8) -> (r: bool)
        ensures
            r == self.options.deny_types@.contains(ty),
    {
        contains_byte(&self.options.deny_types, ty)
    }

    /// Whether scanning the type is permitted: the allow list is
    /// authoritative when configured, otherwise the deny list applies.
    pub fn is_allowed(&self, ty: u8) -> (r: bool)
        ensures
            r == spec_allowed(self.options, ty),
    {
        match &self.options.allow_types {
            Some(allowed) => contains_byte(allowed, ty),
            None => !self.is_potentially_dangerous(ty),
        }
    }

    /// The curated rationale for a risky type, if one is recorded. The
    /// description is informational only and independent of the permission
    /// decision.
    pub fn get_risk_description(&self, ty: u8) -> (r: Option<&'static str>)
        ensures
            r matches Some(s) ==> spec_risk_description(ty) == Some(s@),
            (r is None) == (spec_risk_description(ty) is None),
    {
        match ty {
            0xFF => Some("HIGH RISK: May cause hardware damage or system crashes"),
            0xFD => Some("MEDIUM RISK: May cause driver instability or data corruption"),
            0xFE => Some("UNKNOWN RISK: Experimental or undocumented functionality"),
            0x88 => Some("MEDIUM RISK: Memory operations that could cause instability"),
            0x8B => Some("MEDIUM RISK: Potential hardware configuration changes"),
            0x12 => Some("MEDIUM RISK: May trigger hardware resets"),
            _ => None,
        }
    }

    /// Probe attempts made in this session, refused attempts included.
    pub fn get_call_count(&self) -> (r: u32)
        ensures
            r == self.call_counter,
    {
        self.call_counter
    }

    /// Charge one probe attempt against the total budget: the counter
    /// advances on every attempt, a refused one included, and the attempt
    /// is refused exactly when the counter had already reached the budget.
    /// Granted probes therefore never exceed the budget, while the counter
    /// keeps recording refused attempts beyond it.
    fn charge_call(&mut self) -> (r: Result<(), DiscoveryError>)
        requires
            old(self).wf(),
        ensures
            final(self).wf(),
            final(self).results == old(self).results,
            final(self).options == old(self).options,
            final(self).warned_types == old(self).warned_types,
            final(self).phase == old(self).phase,
            final(self).pending == old(self).pending,
            final(self).call_counter == spec_bumped(old(self).call_counter),
            r is Err <==> spec_at_budget(old(self).options, old(self).call_counter),
            r matches Err(e) ==> e is BudgetExceeded,
    {
        let at_budget = match self.options.max_total_calls {
            Some(max_total) => self.call_counter >= max_total,
            // An unlimited session cannot outgrow the counter: refuse
            // rather than wrap it.
            None => self.call_counter == u32::MAX,
        };
        if self.call_counter < u32::MAX {
            self.call_counter = self.call_counter + 1;
        }
        if at_budget {
            Err(DiscoveryError::BudgetExceeded)
        } else {
            Ok(())
        }
    }

    /// Build the probe request for the current cursor.
    fn build_request(&self, c: &ScanCursor) -> (r: ProbeRequest)
        requires
            spec_options_valid(self.options),
            spec_cursor_wf(*c, self.options),
        ensures
            r == spec_current_request(*c, self.options),
    {
        let throttle: u64 = match self.options.max_calls_per_second {
            Some(m) => 1000u64 / (m as u64),
            None => 0,
        };
        let delay_ms: u64 = if self.options.delay_between_calls_ms > u64::MAX - throttle {
            u64::MAX
        } else {
            self.options.delay_between_calls_ms + throttle
        };
        let own_size = scan_size_at(c.size_idx);
        match c.stage {
            ProbeStage::Null => ProbeRequest {
                cmd: compose(c.dir_idx, c.ty, c.nr as u8, own_size),
                arg: ProbeArg::Null,
                delay_ms,
            },
            ProbeStage::Buffer { .. } => ProbeRequest {
                cmd: compose(c.dir_idx, c.ty, c.nr as u8, own_size),
                arg: ProbeArg::Buffer { size: own_size },
                delay_ms,
            },
            ProbeStage::SizeSearch { cand_idx, .. } => {
                let cand = self.options.size_discovery_candidates[cand_idx];
                ProbeRequest {
                    cmd: compose(c.dir_idx, c.ty, c.nr as u8, cand),
                    arg: ProbeArg::Buffer { size: cand },
                    delay_ms,
                }
            },
            ProbeStage::Recheck { discovered, .. } => ProbeRequest {
                cmd: compose(c.dir_idx, c.ty, c.nr as u8, discovered),
                arg: ProbeArg::Buffer { size: discovered },
                delay_ms,
            },
        }
    }

    /// Begin scanning one type. A type the policy refuses is rejected up
    /// front under the strict policy, with no outcome appended; under the
    /// warn-only policy the refusal is recorded on the warning side channel
    /// and the scan proceeds.
    pub fn begin_type(&mut self, ty: u8) -> (r: Result<(), DiscoveryError>)
        requires
            old(self).wf(),
            !(old(self).phase is Scanning),
        ensures
            final(self).wf(),
            final(self).results == old(self).results,
            final(self).call_counter == old(self).call_counter,
            final(self).options == old(self).options,
            !spec_allowed(old(self).options, ty) && !old(self).options.warn_only_on_dangerous
                ==> (r matches Err(e) && spec_is_policy_violation(e, ty) && *final(self) == *old(
                self,
            )),
            spec_allowed(old(self).options, ty) || old(self).options.warn_only_on_dangerous ==> {
                &&& r is Ok
                &&& final(self).phase == spec_initial_phase(old(self).options, ty)
                &&& !final(self).pending
                &&& if spec_allowed(old(self).options, ty) {
                    final(self).warned_types == old(self).warned_types
                } else {
                    final(self).warned_types@ == old(self).warned_types@.push(ty)
                }
            },
    {
        if !self.is_allowed(ty) {
            if !self.options.warn_only_on_dangerous {
                return Err(DiscoveryError::PolicyViolation { ty });
            }
            // Best-effort, append-only warning channel: recording the type
            // never aborts the scan.
            self.warned_types.push(ty);
        }
        let dangerous = self.is_potentially_dangerous(ty);
        let first_nr = next_included_nr(&self.options, 0);
        if first_nr >= 256 {
            self.phase = ScanPhase::Idle;
        } else {
            self.phase = ScanPhase::Scanning(
                ScanCursor {
                    ty,
                    dangerous,
                    nr: first_nr,
                    size_idx: 0,
                    dir_idx: 0,
                    stage: ProbeStage::Null,
                },
            );
        }
        self.pending = false;
        Ok(())
    }

    /// Hand out the next probe to perform. Between scans there is nothing
    /// to do; while a reply is pending the same request is handed out
    /// again, uncharged; otherwise one attempt is charged against the
    /// budget (the counter records refused attempts too), and once the
    /// budget is spent the scan aborts with the outcomes gathered so far
    /// preserved.
    pub fn next_request(&mut self) -> (r: Result<Option<ProbeRequest>, DiscoveryError>)
        requires
            old(self).wf(),
        ensures
            final(self).wf(),
            final(self).results == old(self).results,
            final(self).options == old(self).options,
            final(self).warned_types == old(self).warned_types,
            ({
                let o = old(self).options;
                match old(self).phase {
                    ScanPhase::Scanning(c) => {
                        if old(self).pending {
                            &&& r matches Ok(Some(q)) && q == spec_current_request(c, o)
                            &&& *final(self) == *old(self)
                        } else if spec_at_budget(o, old(self).call_counter) {
                            &&& r matches Err(e) && e is BudgetExceeded
                            &&& final(self).phase is Aborted
                            &&& !final(self).pending
                            &&& final(self).call_counter == spec_bumped(old(self).call_counter)
                        } else {
                            &&& r matches Ok(Some(q)) && q == spec_current_request(c, o)
                            &&& final(self).phase == old(self).phase
                            &&& final(self).pending
                            &&& final(self).call_counter == spec_bumped(old(self).call_counter)
                        }
                    },
                    _ => r matches Ok(None) && *final(self) == *old(self),
                }
            }),
    {
        let cursor = match &self.phase {
            ScanPhase::Scanning(c) => *c,
            _ => {
                return Ok(None);
            },
        };
        if self.pending {
            return Ok(Some(self.build_request(&cursor)));
        }
        match self.charge_call() {
            Ok(()) => {
                self.pending = true;
                Ok(Some(self.build_request(&cursor)))
            },
            Err(e) => {
                self.phase = ScanPhase::Aborted;
                self.pending = false;
                Err(e)
            },
        }
    }

    /// Abort the current scan: the driver calls this when the device fails
    /// its liveness check. Outcomes gathered so far stay valid.
    pub fn abort_scan(&mut self)
        requires
            old(self).wf(),
        ensures
            final(self).wf(),
            final(self).results == old(self).results,
            final(self).call_counter == old(self).call_counter,
            final(self).options == old(self).options,
            final(self).warned_types == old(self).warned_types,
            final(self).phase is Aborted,
            !final(self).pending,
    {
        self.phase = ScanPhase::Aborted;
        self.pending = false;
    }

    /// Move past a finished position.
    fn advance(&mut self, Ghost(c0): Ghost<ScanCursor>)
        requires
            old(self).wf(),
            !old(self).pending,
            old(self).phase matches ScanPhase::Scanning(c) && c == c0,
        ensures
            final(self).wf(),
            final(self).results == old(self).results,
            final(self).call_counter == old(self).call_counter,
            final(self).options == old(self).options,
            final(self).warned_types == old(self).warned_types,
            final(self).pending == old(self).pending,
            final(self).phase == spec_advanced_phase(c0, old(self).options),
    {
        let c = match &self.phase {
            ScanPhase::Scanning(c) => *c,
            _ => {
                proof {
                    assert(false);
                }
                return ;
            },
        };
        if c.dir_idx < 3 {
            self.phase = ScanPhase::Scanning(
                ScanCursor {
                    ty: c.ty,
                    dangerous: c.dangerous,
                    nr: c.nr,
                    size_idx: c.size_idx,
                    dir_idx: c.dir_idx + 1,
                    stage: ProbeStage::Null,
                },
            );
        } else if c.size_idx < 7 {
            self.phase = ScanPhase::Scanning(
                ScanCursor {
                    ty: c.ty,
                    dangerous: c.dangerous,
                    nr: c.nr,
                    size_idx: c.size_idx + 1,
                    dir_idx: 0,
                    stage: ProbeStage::Null,
                },
            );
        } else {
            let n = next_included_nr(&self.options, c.nr + 1);
            if n >= 256 {
                self.phase = ScanPhase::Idle;
            } else {
                self.phase = ScanPhase::Scanning(
                    ScanCursor {
                        ty: c.ty,
                        dangerous: c.dangerous,
                        nr: n,
                        size_idx: 0,
                        dir_idx: 0,
                        stage: ProbeStage::Null,
                    },
                );
            }
        }
    }

    /// Record one finished position and move past it.
    fn record_and_advance(
        &mut self,
        Ghost(c0): Ghost<ScanCursor>,
        null_result: (i32, i32),
        ptr_result: Option<(i32, i32)>,
        interpretation: Interpretation,
        discovered_size: Option<u16>,
    )
        requires
            old(self).wf(),
            !old(self).pending,
            old(self).phase matches ScanPhase::Scanning(c) && c == c0,
        ensures
            final(self).wf(),
            final(self).call_counter == old(self).call_counter,
            final(self).options == old(self).options,
            final(self).warned_types == old(self).warned_types,
            final(self).pending == old(self).pending,
            final(self).results@.len() == old(self).results@.len() + 1,
            final(self).results@ == old(self).results@.push(final(self).results@.last()),
            spec_outcome_matches(
                final(self).results@.last(),
                c0,
                null_result,
                ptr_result,
                interpretation,
                discovered_size,
            ),
            final(self).phase == spec_advanced_phase(c0, old(self).options),
    {
        let c = match &self.phase {
            ScanPhase::Scanning(c) => *c,
            _ => {
                proof {
                    assert(false);
                }
                return ;
            },
        };
        let size = scan_size_at(c.size_idx);
        let cmd = compose(c.dir_idx, c.ty, c.nr as u8, size);
        let rec = IoctlResult::new(
            cmd,
            c.dir_idx,
            c.ty,
            c.nr as u8,
            size,
            null_result,
            ptr_result,
            interpretation,
            discovered_size,
            c.dangerous,
        );
        self.results.push(rec);
        self.advance(Ghost(c0));
    }

    /// Consume the raw reply of the pending probe and move the scan
    /// forward. An ENOTTY on the null probe records the position outright
    /// (budget economy: the buffered probe is skipped); any other null
    /// reply leads to the buffered probe. The buffered reply is classified,
    /// and when it faulted with EFAULT, size discovery is enabled and the
    /// type is not dangerous, the bounded candidate search begins. Each
    /// search probe either settles on a size (success confidently, EINVAL
    /// tentatively but immediately, to bound cost) and leads to one
    /// recheck probe at that size, or spends one of the bounded attempts;
    /// an exhausted search records the original faulting outcome
    /// unchanged.
    pub fn on_reply(&mut self, ret: i32, errno: i32)
        requires
            old(self).wf(),
            old(self).pending,
            old(self).phase is Scanning,
        ensures
            final(self).wf(),
            !final(self).pending,
            final(self).call_counter == old(self).call_counter,
            final(self).options == old(self).options,
            final(self).warned_types == old(self).warned_types,
            ({
                let c = old(self).phase->Scanning_0;
                let o = old(self).options;
                match c.stage {
                    ProbeStage::Null => {
                        if errno == ENOTTY {
                            &&& final(self).results@ == old(self).results@.push(
                                final(self).results@.last(),
                            )
                            &&& spec_outcome_matches(
                                final(self).results@.last(),
                                c,
                                (ret, errno),
                                None,
                                Interpretation::NotExist,
                                None,
                            )
                            &&& final(self).phase == spec_advanced_phase(c, o)
                        } else {
                            &&& final(self).results == old(self).results
                            &&& final(self).phase == ScanPhase::Scanning(
                                ScanCursor {
                                    stage: ProbeStage::Buffer {
                                        null_ret: ret,
                                        null_errno: errno,
                                    },
                                    ..c
                                },
                            )
                        }
                    },
                    ProbeStage::Buffer { null_ret, null_errno } => {
                        let enter_search = o.try_find_size && !c.dangerous && errno == EFAULT;
                        let idx = spec_next_candidate(o, 0, spec_scan_size(c.size_idx as int));
                        if enter_search && idx < o.size_discovery_candidates@.len() {
                            &&& final(self).results == old(self).results
                            &&& final(self).phase == ScanPhase::Scanning(
                                ScanCursor {
                                    stage: ProbeStage::SizeSearch {
                                        null_ret,
                                        null_errno,
                                        buf_ret: ret,
                                        buf_errno: errno,
                                        cand_idx: idx as usize,
                                        attempts: 0,
                                    },
                                    ..c
                                },
                            )
                        } else {
                            &&& final(self).results@ == old(self).results@.push(
                                final(self).results@.last(),
                            )
                            &&& spec_outcome_matches(
                                final(self).results@.last(),
                                c,
                                (null_ret, null_errno),
                                Some((ret, errno)),
                                spec_interpret(ret, errno),
                                None,
                            )
                            &&& final(self).phase == spec_advanced_phase(c, o)
                        }
                    },
                    ProbeStage::SizeSearch {
                        null_ret,
                        null_errno,
                        buf_ret,
                        buf_errno,
                        cand_idx,
                        attempts,
                    } => {
                        if (errno == 0 && ret >= 0) || errno == EINVAL {
                            &&& final(self).results == old(self).results
                            &&& final(self).phase == ScanPhase::Scanning(
                                ScanCursor {
                                    stage: ProbeStage::Recheck {
                                        null_ret,
                                        null_errno,
                                        discovered: o.size_discovery_candidates@[
                                            cand_idx as int
                                        ],
                                    },
                                    ..c
                                },
                            )
                        } else {
                            let idx = spec_next_candidate(
                                o,
                                cand_idx + 1,
                                spec_scan_size(c.size_idx as int),
                            );
                            if attempts + 1 < o.max_size_discovery_attempts && idx
                                < o.size_discovery_candidates@.len() {
                                &&& final(self).results == old(self).results
                                &&& final(self).phase == ScanPhase::Scanning(
                                    ScanCursor {
                                        stage: ProbeStage::SizeSearch {
                                            null_ret,
                                            null_errno,
                                            buf_ret,
                                            buf_errno,
                                            cand_idx: idx as usize,
                                            attempts: (attempts + 1) as u8,
                                        },
                                        ..c
                                    },
                                )
                            } else {
                                // The search is exhausted: the original
                                // outcome stands unchanged.
                                &&& final(self).results@ == old(self).results@.push(
                                    final(self).results@.last(),
                                )
                                &&& spec_outcome_matches(
                                    final(self).results@.last(),
                                    c,
                                    (null_ret, null_errno),
                                    Some((buf_ret, buf_errno)),
                                    spec_interpret(buf_ret, buf_errno),
                                    None,
                                )
                                &&& final(self).phase == spec_advanced_phase(c, o)
                            }
                        }
                    },
                    ProbeStage::Recheck { null_ret, null_errno, discovered } => {
                        &&& final(self).results@ == old(self).results@.push(
                            final(self).results@.last(),
                        )
                        &&& spec_outcome_matches(
                            final(self).results@.last(),
                            c,
                            (null_ret, null_errno),
                            Some((ret, errno)),
                            spec_reinterpret(ret, errno),
                            Some(discovered),
                        )
                        &&& final(self).phase == spec_advanced_phase(c, o)
                    },
                }
            }),
    {
        let c = match &self.phase {
            ScanPhase::Scanning(c) => *c,
            _ => {
                proof {
                    assert(false);
                }
                return ;
            },
        };
        proof {
            assert(spec_cursor_wf(c, self.options));
        }
        self.pending = false;
        match c.stage {
            ProbeStage::Null => {
                if errno == ENOTTY {
                    self.record_and_advance(
                        Ghost(c),
                        (ret, errno),
                        None,
                        Interpretation::NotExist,
                        None,
                    );
                } else {
                    self.phase = ScanPhase::Scanning(
                        ScanCursor {
                            stage: ProbeStage::Buffer { null_ret: ret, null_errno: errno },
                            ..c
                        },
                    );
                }
            },
            ProbeStage::Buffer { null_ret, null_errno } => {
                let interpretation = interpret(ret, errno);
                if self.options.try_find_size && !c.dangerous && errno == EFAULT {
                    let own_size = scan_size_at(c.size_idx);
                    let idx = next_candidate(&self.options, 0, own_size);
                    if idx < self.options.size_discovery_candidates.len() {
                        self.phase = ScanPhase::Scanning(
                            ScanCursor {
                                stage: ProbeStage::SizeSearch {
                                    null_ret,
                                    null_errno,
                                    buf_ret: ret,
                                    buf_errno: errno,
                                    cand_idx: idx,
                                    attempts: 0,
                                },
                                ..c
                            },
                        );
                        return ;
                    }
                }
                self.record_and_advance(
                    Ghost(c),
                    (null_ret, null_errno),
                    Some((ret, errno)),
                    interpretation,
                    None,
                );
            },
            ProbeStage::SizeSearch {
                null_ret,
                null_errno,
                buf_ret,
                buf_errno,
                cand_idx,
                attempts,
            } => {
                if (errno == 0 && ret >= 0) || errno == EINVAL {
                    let discovered = self.options.size_discovery_candidates[cand_idx];
                    self.phase = ScanPhase::Scanning(
                        ScanCursor {
                            stage: ProbeStage::Recheck { null_ret, null_errno, discovered },
                            ..c
                        },
                    );
                } else {
                    let own_size = scan_size_at(c.size_idx);
                    assert(cand_idx < self.options.size_discovery_candidates.len());
                    let idx = next_candidate(&self.options, cand_idx + 1, own_size);
                    if attempts + 1 < self.options.max_size_discovery_attempts && idx
                        < self.options.size_discovery_candidates.len() {
                        self.phase = ScanPhase::Scanning(
                            ScanCursor {
                                stage: ProbeStage::SizeSearch {
                                    null_ret,
                                    null_errno,
                                    buf_ret,
                                    buf_errno,
                                    cand_idx: idx,
                                    attempts: attempts + 1,
                                },
                                ..c
                            },
                        );
                    } else {
                        self.record_and_advance(
                            Ghost(c),
                            (null_ret, null_errno),
                            Some((buf_ret, buf_errno)),
                            interpret(buf_ret, buf_errno),
                            None,
                        );
                    }
                }
            },
            ProbeStage::Recheck { null_ret, null_errno, discovered } => {
                let interpretation = if ret >= 0 && errno == 0 {
                    Interpretation::Success
                } else if errno == EINVAL {
                    Interpretation::Exists
                } else {
                    Interpretation::Unknown(errno)
                };
                self.record_and_advance(
                    Ghost(c),
                    (null_ret, null_errno),
                    Some((ret, errno)),
                    interpretation,
                    Some(discovered),
                );
            },
        }
    }
}

/// After exactly the budgeted number of probes has been granted in one
/// session, the very next probe is refused, whatever the probing pattern
/// was: the attempt counter equals the budget, and the budget predicate
/// that makes [`IoctlDiscovery::next_request`] fail with BudgetExceeded
/// holds.
pub proof fn lemma_budget_exhaustion(e: IoctlDiscovery, m: u32)
    requires
        e.wf(),
        e.options.max_total_calls == Some(m),
        e.call_counter == m,
    ensures
        spec_at_budget(e.options, e.call_counter),
{
}

/// The size resolver never spends more than the configured number of extra
/// probes on one faulting position: in every reachable mid-search state the
/// attempts already spent stay below the cap, so with the probe in flight
/// they never pass it.
pub proof fn lemma_size_search_bounded(e: IoctlDiscovery)
    requires
        e.wf(),
    ensures
        e.phase matches ScanPhase::Scanning(c) ==> (c.stage matches ProbeStage::SizeSearch {
            attempts,
            ..
        } ==> attempts < e.options.max_size_discovery_attempts),
{
}

} // verus!
