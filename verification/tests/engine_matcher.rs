//! Scenario tests that drive the scan engine and the profile matcher with
//! synthetic probe replies, plus the pattern analyzer and the statistics.

use iodisco::analyzer::PatternAnalyzer;
use iodisco::api::{default_scan_types, DiscoveryResult};
use iodisco::config::DiscoveryOptions;
use iodisco::engine::{IoctlDiscovery, ProbeArg, ProbeRequest, ScanPhase};
use iodisco::error::DiscoveryError;
use iodisco::gpuinfo::GpuMetadata;
use iodisco::interpret::Interpretation;
use iodisco::matcher::{MatchRequest, ProfileMatcher};
use iodisco::outcome::IoctlResult;
use iodisco::profiles::{IoctlDefinition, IoctlProfile};
use iodisco::stats::summarize;

fn definition(name: &str, cmd: u32, buffer_size: u16, parser: &str) -> IoctlDefinition {
    IoctlDefinition {
        name: name.to_string(),
        cmd,
        buffer_size,
        parser: parser.to_string(),
        params: Vec::new(),
    }
}

fn bare_profile(detection: Vec<IoctlDefinition>) -> IoctlProfile {
    IoctlProfile {
        vendor: "Mali".to_string(),
        model: "Test Model".to_string(),
        detection_ioctls: detection,
        version_ioctl: None,
        gpu_info_ioctl: None,
        features_ioctl: None,
        metadata: GpuMetadata::empty(),
    }
}

fn next(engine: &mut IoctlDiscovery) -> ProbeRequest {
    engine.next_request().unwrap().unwrap()
}

#[test]
fn test_engine_rejects_invalid_configuration() {
    let mut options = DiscoveryOptions::default();
    options.max_total_calls = Some(0);
    assert!(matches!(
        IoctlDiscovery::new(options),
        Err(DiscoveryError::ConfigurationInvalid(_))
    ));
}

#[test]
fn test_policy_violation_appends_nothing() {
    // 0x12 sits on the default deny list; under the strict policy the whole
    // type is rejected up front with zero outcomes.
    let mut engine = IoctlDiscovery::new(DiscoveryOptions::default()).unwrap();
    let r = engine.begin_type(0x12);
    assert!(matches!(r, Err(DiscoveryError::PolicyViolation { ty: 0x12 })));
    assert_eq!(engine.results.len(), 0);
    assert_eq!(engine.get_call_count(), 0);
}

#[test]
fn test_warn_only_records_and_scans() {
    let mut options = DiscoveryOptions::default();
    options.warn_only_on_dangerous = true;
    options.focus_nr = Some(vec![0x00]);
    let mut engine = IoctlDiscovery::new(options).unwrap();
    engine.begin_type(0x12).unwrap();
    assert_eq!(engine.warned_types, vec![0x12]);
    let req = next(&mut engine);
    assert!(matches!(req.arg, ProbeArg::Null));
    engine.on_reply(-1, 25);
    assert_eq!(engine.results.len(), 1);
    assert!(engine.results[0].is_potentially_dangerous);
}

#[test]
fn test_allow_list_beats_deny_list() {
    // A type on the explicit allow list is permitted even when it is also
    // deny-listed; a type on neither list is permitted by default.
    let mut options = DiscoveryOptions::default();
    options.allow_types = Some(vec![0x12]);
    let engine = IoctlDiscovery {
        results: Vec::new(),
        options,
        call_counter: 0,
        warned_types: Vec::new(),
        phase: ScanPhase::Idle,
        pending: false,
    };
    assert!(engine.is_allowed(0x12));
    assert!(engine.is_potentially_dangerous(0x12));
    assert!(!engine.is_allowed(0x80));

    let neutral = IoctlDiscovery::new(DiscoveryOptions::default()).unwrap();
    assert!(neutral.is_allowed(0x42));
    assert!(!neutral.is_allowed(0x12));
}

#[test]
fn test_budget_exhaustion_fails_next_probe() {
    // After exactly the budgeted number of probes, the next one fails with
    // BudgetExceeded, and the gathered outcomes stay valid.
    let mut options = DiscoveryOptions::default();
    options.max_total_calls = Some(2);
    let mut engine = IoctlDiscovery::new(options).unwrap();
    engine.begin_type(0x80).unwrap();
    let _ = next(&mut engine);
    engine.on_reply(-1, 25);
    let _ = next(&mut engine);
    engine.on_reply(-1, 25);
    assert_eq!(engine.get_call_count(), 2);
    assert!(matches!(engine.next_request(), Err(DiscoveryError::BudgetExceeded)));
    assert_eq!(engine.results.len(), 2);
    assert!(matches!(engine.phase, ScanPhase::Aborted));
    // The counter records the refused attempt too, as probes attempted.
    assert_eq!(engine.get_call_count(), 3);
    // The scan of another type may start, but its first probe is refused
    // just the same.
    engine.begin_type(0x80).unwrap();
    assert!(matches!(engine.next_request(), Err(DiscoveryError::BudgetExceeded)));
    assert_eq!(engine.get_call_count(), 4);
}

#[test]
fn test_null_probe_economy() {
    // An ENOTTY on the null probe records the position without spending a
    // buffered probe; anything else leads to the buffered probe.
    let mut options = DiscoveryOptions::default();
    options.focus_nr = Some(vec![0x03]);
    let mut engine = IoctlDiscovery::new(options).unwrap();
    engine.begin_type(0x80).unwrap();

    let req = next(&mut engine);
    assert!(matches!(req.arg, ProbeArg::Null));
    engine.on_reply(-1, 25);
    assert_eq!(engine.results.len(), 1);
    assert_eq!(engine.results[0].interpretation, Interpretation::NotExist);
    assert_eq!(engine.results[0].ptr_result, None);

    let req = next(&mut engine);
    assert!(matches!(req.arg, ProbeArg::Null));
    engine.on_reply(-1, 22);
    assert_eq!(engine.results.len(), 1);
    let req = next(&mut engine);
    assert!(matches!(req.arg, ProbeArg::Buffer { size: 1 }));
    engine.on_reply(-1, 22);
    assert_eq!(engine.results.len(), 2);
    assert_eq!(engine.results[1].interpretation, Interpretation::Exists);
    assert_eq!(engine.results[1].null_result, (-1, 22));
    assert_eq!(engine.results[1].ptr_result, Some((-1, 22)));
}

#[test]
fn test_full_scan_of_one_focused_nr() {
    // One focused sequence number over 8 sizes and 4 directions: 32
    // positions, each settled by its null probe here.
    let mut options = DiscoveryOptions::default();
    options.focus_nr = Some(vec![0x05]);
    let mut engine = IoctlDiscovery::new(options).unwrap();
    engine.begin_type(0x80).unwrap();
    let mut probes = 0;
    loop {
        match engine.next_request().unwrap() {
            Some(req) => {
                assert!(matches!(req.arg, ProbeArg::Null));
                probes += 1;
                engine.on_reply(-1, 25);
            }
            None => break,
        }
    }
    assert_eq!(probes, 32);
    assert_eq!(engine.results.len(), 32);
    assert!(matches!(engine.phase, ScanPhase::Idle));
    assert_eq!(engine.get_call_count(), 32);
}

#[test]
fn test_size_resolver_bounded_attempts() {
    // The size resolver spends at most the configured number of extra
    // probes per faulting position; when they are exhausted, the original
    // outcome stands unchanged.
    let mut options = DiscoveryOptions::default();
    options.warn_only_on_dangerous = true;
    options.try_find_size = true;
    options.max_size_discovery_attempts = 2;
    options.size_discovery_candidates = vec![4, 8, 16, 24];
    options.focus_nr = Some(vec![0x00]);
    let mut engine = IoctlDiscovery::new(options).unwrap();
    engine.begin_type(0x80).unwrap();

    let req = next(&mut engine);
    assert!(matches!(req.arg, ProbeArg::Null));
    engine.on_reply(-1, 14);
    let req = next(&mut engine);
    assert!(matches!(req.arg, ProbeArg::Buffer { size: 1 }));
    engine.on_reply(-1, 14);

    // Two candidate probes, then the search gives up.
    let req = next(&mut engine);
    assert!(matches!(req.arg, ProbeArg::Buffer { size: 4 }));
    engine.on_reply(-1, 13);
    let req = next(&mut engine);
    assert!(matches!(req.arg, ProbeArg::Buffer { size: 8 }));
    engine.on_reply(-1, 13);

    assert_eq!(engine.results.len(), 1);
    let rec = &engine.results[0];
    assert_eq!(rec.discovered_size, None);
    assert_eq!(rec.interpretation, Interpretation::Exists);
    assert_eq!(rec.ptr_result, Some((-1, 14)));
    // The next request already belongs to the next position.
    let req = next(&mut engine);
    assert!(matches!(req.arg, ProbeArg::Null));
}

#[test]
fn test_size_resolver_finds_size() {
    // EINVAL on a candidate is accepted immediately, and the position is
    // rechecked once at the discovered size.
    let mut options = DiscoveryOptions::default();
    options.warn_only_on_dangerous = true;
    options.try_find_size = true;
    options.size_discovery_candidates = vec![4, 8];
    options.focus_nr = Some(vec![0x00]);
    let mut engine = IoctlDiscovery::new(options).unwrap();
    engine.begin_type(0x80).unwrap();

    let _ = next(&mut engine);
    engine.on_reply(-1, 14);
    let _ = next(&mut engine);
    engine.on_reply(-1, 14);
    let req = next(&mut engine);
    assert!(matches!(req.arg, ProbeArg::Buffer { size: 4 }));
    engine.on_reply(-1, 22);
    // Recheck at the discovered size.
    let req = next(&mut engine);
    assert!(matches!(req.arg, ProbeArg::Buffer { size: 4 }));
    engine.on_reply(0, 0);

    assert_eq!(engine.results.len(), 1);
    let rec = &engine.results[0];
    assert_eq!(rec.discovered_size, Some(4));
    assert_eq!(rec.interpretation, Interpretation::Success);
    assert_eq!(rec.size, 1);
}

#[test]
fn test_abort_preserves_outcomes() {
    let mut options = DiscoveryOptions::default();
    options.focus_nr = Some(vec![0x00]);
    let mut engine = IoctlDiscovery::new(options).unwrap();
    engine.begin_type(0x80).unwrap();
    let _ = next(&mut engine);
    engine.on_reply(-1, 25);
    engine.abort_scan();
    assert!(matches!(engine.phase, ScanPhase::Aborted));
    assert_eq!(engine.results.len(), 1);
}

#[test]
fn test_default_scan_types_respect_policy() {
    let engine = IoctlDiscovery::new(DiscoveryOptions::default()).unwrap();
    assert_eq!(default_scan_types(&engine), vec![0x80, 0x64, 0x46, 0x4B, 0x54, 0x6D]);

    let mut options = DiscoveryOptions::default();
    options.deny_types = vec![0x64, 0x54];
    let engine = IoctlDiscovery::new(options).unwrap();
    assert_eq!(default_scan_types(&engine), vec![0x80, 0x46, 0x4B, 0x6D]);
}

#[test]
fn test_matcher_short_circuits_on_missing_signature() {
    // A profile with 3 signature commands where the 2nd does not exist:
    // exactly 2 probes are issued, and there is no match.
    let profile = bare_profile(vec![
        definition("SIG_A", 0xC0048000, 4, "parse_features_bitmask"),
        definition("SIG_B", 0x40108003, 16, "parse_version_return_value"),
        definition("SIG_C", 0x8004800C, 4, "parse_gpu_id_u32"),
    ]);
    let options = iodisco::config::DiscoveryConfig::quick().to_scanner_options();
    let mut m = ProfileMatcher::new(profile, options).unwrap();

    let q = m.next_request().unwrap().unwrap();
    assert!(matches!(q, MatchRequest::Null { cmd: 0xC0048000, .. }));
    m.on_reply(0, 0, &[]);
    assert!(!m.is_failed());

    let q = m.next_request().unwrap().unwrap();
    assert!(matches!(q, MatchRequest::Null { cmd: 0x40108003, .. }));
    m.on_reply(-1, 25, &[]);
    assert!(m.is_failed());

    assert!(m.next_request().unwrap().is_none());
    assert_eq!(m.get_call_count(), 2);
    assert_eq!(m.detected.len(), 2);
    assert!(!m.detected[1].returns_data);
    assert!(m.take_result().is_none());
}

#[test]
fn test_matcher_version_from_return_value() {
    // A mock device where command 0x40108003 answers errno 0, return 711,
    // matched against a profile whose version command is that command with
    // the return-value decoder: the resolved version string is "2.199".
    let mut profile = bare_profile(vec![definition(
        "VERSION_CHECK",
        0x40108003,
        16,
        "parse_version_return_value",
    )]);
    profile.version_ioctl = Some(definition(
        "VERSION_CHECK",
        0x40108003,
        16,
        "parse_version_return_value",
    ));
    let options = iodisco::config::DiscoveryConfig::quick().to_scanner_options();
    let mut m = ProfileMatcher::new(profile, options).unwrap();

    // Signature probe.
    let q = m.next_request().unwrap().unwrap();
    assert!(matches!(q, MatchRequest::Null { cmd: 0x40108003, .. }));
    m.on_reply(711, 0, &[]);
    // Version null probe.
    let q = m.next_request().unwrap().unwrap();
    assert!(matches!(q, MatchRequest::Null { cmd: 0x40108003, .. }));
    m.on_reply(711, 0, &[]);
    // Version buffer read.
    let q = m.next_request().unwrap().unwrap();
    assert!(matches!(q, MatchRequest::Buffer { cmd: 0x40108003, size: 16, .. }));
    m.on_reply(711, 0, &[0u8; 16]);

    assert!(m.next_request().unwrap().is_none());
    let info = m.take_result().unwrap();
    assert_eq!(info.driver_version, Some("2.199".to_string()));
    assert_eq!(info.vendor, "Mali");
    assert_eq!(info.detected_ioctls.len(), 1);
    assert!(info.detected_ioctls[0].works);
}

#[test]
fn test_matcher_enrichment_failure_degrades_field_only() {
    // A failing version read leaves the version unset; the match stands.
    let mut profile = bare_profile(vec![definition(
        "VERSION_CHECK",
        0x40108003,
        16,
        "parse_version_return_value",
    )]);
    profile.version_ioctl = Some(definition(
        "VERSION_CHECK",
        0x40108003,
        16,
        "parse_version_return_value",
    ));
    let options = iodisco::config::DiscoveryConfig::quick().to_scanner_options();
    let mut m = ProfileMatcher::new(profile, options).unwrap();

    let _ = m.next_request().unwrap().unwrap();
    m.on_reply(711, 0, &[]);
    let _ = m.next_request().unwrap().unwrap();
    m.on_reply(711, 0, &[]);
    let _ = m.next_request().unwrap().unwrap();
    m.on_reply(-1, 14, &[]);

    assert!(m.next_request().unwrap().is_none());
    let info = m.take_result().unwrap();
    assert_eq!(info.driver_version, None);
}

#[test]
fn test_matcher_identifier_enrichment() {
    // The identifier query feeds the catalog lookup: hardware ID 0xc000
    // with 7 cores resolves to the Mali-G720 entry.
    let mut profile = bare_profile(vec![definition(
        "GET_GPU_INFO",
        0xC010800B,
        16,
        "parse_gpu_id_u32",
    )]);
    profile.gpu_info_ioctl = Some(definition(
        "GET_GPU_INFO",
        0xC010800B,
        16,
        "parse_gpu_id_u32",
    ));
    let options = iodisco::config::DiscoveryConfig::quick().to_scanner_options();
    let mut m = ProfileMatcher::new(profile, options).unwrap();

    let _ = m.next_request().unwrap().unwrap();
    m.on_reply(0, 0, &[]);
    let q = m.next_request().unwrap().unwrap();
    assert!(matches!(q, MatchRequest::Buffer { cmd: 0xC010800B, size: 16, .. }));
    m.on_reply(0, 0, &[0x00, 0xC0, 0x07, 0x00, 0, 0, 0, 0, 0, 0, 0, 0, 0, 0, 0, 0]);

    assert!(m.next_request().unwrap().is_none());
    let info = m.take_result().unwrap();
    assert_eq!(info.gpu_id, Some(0x0007C000));
    assert_eq!(info.model, "Mali-G720");
    assert_eq!(info.architecture, Some("Arm 5th Gen".to_string()));
    assert_eq!(info.cores, Some(6));
    assert_eq!(info.fp32_fmas_per_core, Some(64));
    assert_eq!(info.fp16_fmas_per_core, Some(128));
    // Derived totals are the per-core figures over all six cores.
    assert_eq!(info.metadata.total_fp32_fmas, Some(64 * 6));
    assert_eq!(info.metadata.total_fp16_fmas, Some(128 * 6));
    assert_eq!(info.metadata.total_texels_per_cycle, Some(8 * 6));
    assert_eq!(info.metadata.total_pixels_per_cycle, Some(4 * 6));
}

#[test]
fn test_discovery_result_accessors() {
    let mut options = DiscoveryOptions::default();
    options.focus_nr = Some(vec![0x00]);
    let mut engine = IoctlDiscovery::new(options).unwrap();
    engine.begin_type(0x80).unwrap();
    let _ = next(&mut engine);
    engine.on_reply(-1, 25);
    let result = DiscoveryResult::new(engine);
    assert_eq!(result.results().len(), 1);
    assert_eq!(result.call_count(), 1);
    assert_eq!(result.scanner().results.len(), 1);
}

#[test]
fn test_statistics() {
    let outcome = |nr: u8, interpretation: Interpretation, dangerous: bool| {
        IoctlResult::new(
            0,
            0,
            0x80,
            nr,
            4,
            (-1, 25),
            None,
            interpretation,
            None,
            dangerous,
        )
    };
    let results = vec![
        outcome(0, Interpretation::NotExist, false),
        outcome(1, Interpretation::NotExist, false),
        outcome(2, Interpretation::Success, false),
        outcome(3, Interpretation::Exists, true),
    ];
    let stats = summarize(&results);
    assert_eq!(stats.total, 4);
    assert_eq!(stats.not_existent, 2);
    assert_eq!(stats.potentially_existent, 2);
    assert_eq!(stats.dangerous, 1);
    assert_eq!(stats.successful, 1);
}

#[test]
fn test_best_type_and_interesting_nrs() {
    let outcome = |ty: u8, nr: u8, interpretation: Interpretation| {
        IoctlResult::new(0, 0, ty, nr, 4, (-1, 25), None, interpretation, None, false)
    };
    let mut engine = IoctlDiscovery::new(DiscoveryOptions::default()).unwrap();
    engine.results = vec![
        outcome(0x80, 3, Interpretation::Success),
        outcome(0x80, 1, Interpretation::Exists),
        outcome(0x80, 3, Interpretation::Exists),
        outcome(0x64, 9, Interpretation::Success),
        outcome(0x64, 2, Interpretation::NotExist),
    ];
    assert_eq!(engine.find_best_type(), Some(0x80));
    assert_eq!(engine.get_interesting_nrs(0x80), vec![1, 3]);
    assert_eq!(engine.get_interesting_nrs(0x64), vec![9]);
    assert_eq!(engine.get_interesting_nrs(0x46), Vec::<u8>::new());

    let empty = IoctlDiscovery::new(DiscoveryOptions::default()).unwrap();
    assert_eq!(empty.find_best_type(), None);
}

#[test]
fn test_pattern_analyzer_ranges() {
    let analyzer = PatternAnalyzer::new();
    assert_eq!(
        analyzer.find_consecutive_ranges(&vec![1, 2, 3, 7, 9, 10]),
        vec![1, 3, 9, 10]
    );
    assert_eq!(analyzer.find_consecutive_ranges(&vec![5]), Vec::<u8>::new());
    assert_eq!(analyzer.find_consecutive_ranges(&Vec::new()), Vec::<u8>::new());
}

#[test]
fn test_pattern_analyzer_groups() {
    let outcome = |nr: u8, interpretation: Interpretation| {
        IoctlResult::new(0, 0, 0x80, nr, 4, (-1, 25), None, interpretation, None, false)
    };
    let results = vec![
        outcome(10, Interpretation::NotExist),
        outcome(11, Interpretation::NotExist),
        outcome(12, Interpretation::NotExist),
        outcome(13, Interpretation::NotExist),
        outcome(14, Interpretation::NotExist),
        outcome(20, Interpretation::Success),
        outcome(21, Interpretation::Success),
    ];
    let mut analyzer = PatternAnalyzer::new();
    analyzer.analyze_results(&results);
    // Only the NotExist group has more than three distinct numbers.
    assert_eq!(analyzer.patterns().len(), 1);
    assert_eq!(analyzer.patterns()[0].interpretation, Interpretation::NotExist);
    assert_eq!(analyzer.patterns()[0].ranges, vec![10, 14]);
}

#[test]
fn test_risk_descriptions() {
    let engine = IoctlDiscovery::new(DiscoveryOptions::default()).unwrap();
    // Every deny-listed type has a recorded rationale; the description is
    // independent of the permission decision.
    for ty in [0x12u8, 0x88, 0x8B, 0xFD, 0xFE, 0xFF] {
        assert!(engine.get_risk_description(ty).is_some());
        assert!(!engine.is_allowed(ty));
    }
    assert_eq!(
        engine.get_risk_description(0x12),
        Some("MEDIUM RISK: May trigger hardware resets")
    );
    assert!(engine.get_risk_description(0x80).is_none());
}

#[test]
fn test_matcher_features_enrichment() {
    let mut profile = bare_profile(vec![definition(
        "GET_PROPS_00",
        0xC0048000,
        4,
        "parse_features_bitmask",
    )]);
    profile.features_ioctl = Some(definition(
        "GET_PROPS_00",
        0xC0048000,
        4,
        "parse_features_bitmask",
    ));
    let options = iodisco::config::DiscoveryConfig::quick().to_scanner_options();
    let mut m = ProfileMatcher::new(profile, options).unwrap();

    let _ = m.next_request().unwrap().unwrap();
    m.on_reply(0, 0, &[]);
    let q = m.next_request().unwrap().unwrap();
    assert!(matches!(q, MatchRequest::Buffer { cmd: 0xC0048000, size: 4, .. }));
    m.on_reply(0, 0, &[0b111, 0, 0, 0]);

    assert!(m.next_request().unwrap().is_none());
    let info = m.take_result().unwrap();
    assert_eq!(
        info.features,
        vec!["JOB_CHAINING".to_string(), "TILER".to_string(), "COHERENCY".to_string()]
    );
}

#[test]
fn test_matcher_budget_fails_signature_phase() {
    // With no budget at all, the very first signature probe is refused and
    // the profile does not match.
    let profile = bare_profile(vec![definition("SIG_A", 0xC0048000, 4, "parse_features_bitmask")]);
    let mut options = iodisco::config::DiscoveryConfig::quick().to_scanner_options();
    options.max_total_calls = Some(1);
    let mut m = ProfileMatcher::new(profile, options).unwrap();
    let _ = m.next_request().unwrap().unwrap();
    m.on_reply(0, 0, &[]);
    // The signature matched, but the version of enrichment never runs: the
    // budget is spent, and a match with no enrichment is still a match.
    assert!(m.next_request().unwrap().is_none());
    assert!(m.take_result().is_some());

    let profile = bare_profile(vec![definition("SIG_A", 0xC0048000, 4, "parse_features_bitmask")]);
    let mut options = iodisco::config::DiscoveryConfig::quick().to_scanner_options();
    options.max_total_calls = Some(1);
    let mut m = ProfileMatcher::new(profile, options).unwrap();
    m.calls_made = 1;
    assert!(matches!(m.next_request(), Err(DiscoveryError::BudgetExceeded)));
    assert!(m.is_failed());
    // The refused attempt is counted as well.
    assert_eq!(m.get_call_count(), 2);
}
