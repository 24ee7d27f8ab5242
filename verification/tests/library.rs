//! Library-level tests: version, configuration, codec, interpreter, errors,
//! the model catalog and the profile catalog.

use iodisco::codec::{compose, decompose};
use iodisco::config::{DiscoveryConfig, DiscoveryOptions, Verbosity};
use iodisco::error::{error_from_os, DiscoveryError, OsErrorKind};
use iodisco::interpret::{interpret, Interpretation, IoctlTestResult};
use iodisco::mappings::{identify_adreno_gpu, identify_mali_gpu, parse_mali_core_count,
    parse_mali_gpu_id, parse_mali_variant, GpuVendor};
use iodisco::profiles::{load_adreno_profiles, load_mali_profiles};
use iodisco::text::u32_to_dec;
use iodisco::{find_gpu_device, get_gpu_info_static, init, version, VERSION};

#[test]
fn test_version() {
    assert!(!VERSION.is_empty());
    assert!(!version().is_empty());
}

#[test]
fn test_init() {
    // Just ensure it runs without panic.
    init();
}

#[test]
fn test_codec_round_trip() {
    let cmd = compose(3, 0x80, 0x03, 16);
    assert_eq!(cmd, 0xC0108003);
    assert_eq!(decompose(cmd), (3, 0x80, 0x03, 16));

    let cmd = compose(0, 0x00, 0x00, 0);
    assert_eq!(cmd, 0);
    assert_eq!(decompose(cmd), (0, 0, 0, 0));

    // Largest in-range fields survive the trip too.
    let cmd = compose(3, 0xFF, 0xFF, 0x3FFF);
    assert_eq!(decompose(cmd), (3, 0xFF, 0xFF, 0x3FFF));
}

#[test]
fn test_interpreter_taxonomy() {
    assert_eq!(interpret(-1, 25), Interpretation::NotExist);
    assert_eq!(interpret(-1, 14), Interpretation::Exists);
    assert_eq!(interpret(-1, 22), Interpretation::Exists);
    assert_eq!(interpret(-1, 1), Interpretation::Permission);
    assert_eq!(interpret(-1, 13), Interpretation::Permission);
    assert_eq!(interpret(5, 0), Interpretation::Success);
    assert_eq!(interpret(0, 0), Interpretation::Success);
    assert_eq!(interpret(-1, 99), Interpretation::Unknown(99));
}

#[test]
fn test_existence_weaker_than_success() {
    // Every successful probe also satisfies the existence predicate.
    let success = IoctlTestResult { cmd: 1, result: 0, errno: 0, returns_data: true };
    assert!(success.is_success());
    assert!(success.command_exists());

    // Permission-gated commands exist but are not usable.
    let gated = IoctlTestResult { cmd: 1, result: -1, errno: 1, returns_data: true };
    assert!(!gated.is_success());
    assert!(gated.command_exists());

    // The canonical ENOTTY means the command does not exist.
    let missing = IoctlTestResult { cmd: 1, result: -1, errno: 25, returns_data: false };
    assert!(!missing.is_success());
    assert!(!missing.command_exists());
}

#[test]
fn test_verbosity_ordering() {
    assert_eq!(Verbosity::Minimal.value(), 0);
    assert_eq!(Verbosity::Normal.value(), 1);
    assert_eq!(Verbosity::Detailed.value(), 2);
    assert_eq!(Verbosity::Debug.value(), 3);
    assert!(Verbosity::Debug.is_at_least(Verbosity::Normal));
    assert!(Verbosity::Normal.is_at_least(Verbosity::Normal));
    assert!(!Verbosity::Minimal.is_at_least(Verbosity::Normal));
}

#[test]
fn test_options_validation() {
    assert!(DiscoveryOptions::default().validate().is_ok());
    assert!(DiscoveryOptions::quick().validate().is_ok());
    assert!(DiscoveryOptions::debug().validate().is_ok());
    assert!(DiscoveryOptions::embedded().validate().is_ok());

    let mut o = DiscoveryOptions::default();
    o.allow_types = Some(vec![0x80]);
    assert_eq!(
        o.validate(),
        Err("Cannot specify both allow_types and deny_types - use one or the other".to_string())
    );

    let mut o = DiscoveryOptions::default();
    o.try_find_size = true;
    assert_eq!(
        o.validate(),
        Err("try_find_size requires warn_only_on_dangerous=true for safety".to_string())
    );

    let mut o = DiscoveryOptions::default();
    o.max_results = 0;
    assert_eq!(o.validate(), Err("max_results must be at least 1".to_string()));

    let mut o = DiscoveryOptions::default();
    o.max_calls_per_second = Some(0);
    assert_eq!(o.validate(), Err("max_calls_per_second must be at least 1".to_string()));

    let mut o = DiscoveryOptions::default();
    o.max_total_calls = Some(0);
    assert_eq!(o.validate(), Err("max_total_calls must be at least 1".to_string()));

    let mut o = DiscoveryOptions::default();
    o.max_size_discovery_attempts = 0;
    assert_eq!(o.validate(), Err("max_size_discovery_attempts must be at least 1".to_string()));
}

#[test]
fn test_config_validation_and_presets() {
    assert!(DiscoveryConfig::default().validate().is_ok());
    assert!(DiscoveryConfig::quick().validate().is_ok());
    assert!(DiscoveryConfig::debug().validate().is_ok());
    assert!(DiscoveryConfig::embedded().validate().is_ok());
    assert!(DiscoveryConfig::aggressive().validate().is_ok());

    let mut c = DiscoveryConfig::default();
    c.try_find_size = true;
    assert!(c.validate().is_err());
}

#[test]
fn test_config_deny_merge() {
    // Extra deny entries are merged with the curated defaults, ascending
    // and without duplicates.
    let mut c = DiscoveryConfig::default();
    c.deny_types = Some(vec![0x01, 0x88]);
    let o = c.to_scanner_options();
    assert_eq!(o.deny_types, vec![0x01, 0x12, 0x88, 0x8B, 0xFD, 0xFE, 0xFF]);
    assert!(o.allow_types.is_none());

    // An allow list clears the deny list entirely.
    let mut c = DiscoveryConfig::default();
    c.allow_types = Some(vec![0x80]);
    let o = c.to_scanner_options();
    assert_eq!(o.allow_types, Some(vec![0x80]));
    assert!(o.deny_types.is_empty());
}

#[test]
fn test_error_messages() {
    assert_eq!(DiscoveryError::NoDevice.message(), "No GPU device found");
    assert_eq!(DiscoveryError::NoProfile.message(), "No matching GPU profile found");
    assert_eq!(
        DiscoveryError::Permission("denied".to_string()).message(),
        "Permission denied: denied"
    );
    assert_eq!(DiscoveryError::BudgetExceeded.message(), "Exceeded maximum call limit");
    assert_eq!(
        DiscoveryError::DeviceUnresponsive.message(),
        "Device appears to be unresponsive"
    );
}

#[test]
fn test_error_from_os() {
    assert!(matches!(
        error_from_os(OsErrorKind::PermissionDenied, "x".to_string()),
        DiscoveryError::Permission(_)
    ));
    assert!(matches!(
        error_from_os(OsErrorKind::NotFound, "x".to_string()),
        DiscoveryError::NoDevice
    ));
    assert!(matches!(
        error_from_os(OsErrorKind::Other, "x".to_string()),
        DiscoveryError::DeviceOpen(_)
    ));
}

#[test]
fn test_mali_id_fields() {
    let gpu_id: u32 = 0x0A07C000;
    assert_eq!(parse_mali_gpu_id(gpu_id), 0xC000);
    assert_eq!(parse_mali_core_count(gpu_id), 0x07);
    assert_eq!(parse_mali_variant(gpu_id), 0x0A);
}

#[test]
fn test_identify_mali_models() {
    // Hardware ID 0xc000 with 7 cores: too few for the Immortalis floor of
    // 10, so the next entry wins.
    let model = identify_mali_gpu(0x0007C000).unwrap();
    assert_eq!(model.name, "Mali-G720");

    // The same hardware with exactly the 10-core floor is the flagship:
    // higher-floor variants are listed first, so the most specific
    // marketing name wins.
    let model = identify_mali_gpu(0x000AC000).unwrap();
    assert_eq!(model.name, "Immortalis-G720");
    assert_eq!(model.architecture, "Arm 5th Gen");
    assert_eq!(model.min_cores, 10);

    // And with a single core, the low-power variant.
    let model = identify_mali_gpu(0x0001C000).unwrap();
    assert_eq!(model.name, "Mali-G620");

    // A Bifrost part, matched on the full 16 identifier bits.
    let model = identify_mali_gpu(0x00026000).unwrap();
    assert_eq!(model.name, "Mali-G71");
    assert_eq!(model.architecture, "Bifrost");

    // Midgard parts are matched under a coarser mask.
    let model = identify_mali_gpu(0x00010723).unwrap();
    assert_eq!(model.name, "Mali-T720");

    // Unknown hardware bits match nothing.
    assert!(identify_mali_gpu(0x0001FFFF).is_none());
}

#[test]
fn test_identify_adreno_is_unimplemented() {
    assert!(identify_adreno_gpu(&[1, 2, 3, 4]).is_none());
}

#[test]
fn test_vendor_labels() {
    assert_eq!(GpuVendor::Mali.label(), "ARM Mali");
    assert_eq!(GpuVendor::Adreno.label(), "Qualcomm Adreno");
    assert_eq!(GpuVendor::Unknown.label(), "Unknown");
}

#[test]
fn test_decimal_rendering() {
    assert_eq!(u32_to_dec(0), "0");
    assert_eq!(u32_to_dec(7), "7");
    assert_eq!(u32_to_dec(12345), "12345");
    assert_eq!(u32_to_dec(u32::MAX), "4294967295");
}

#[test]
fn test_load_profiles() {
    let profiles = load_mali_profiles();
    assert_eq!(profiles.len(), 3);
    assert_eq!(profiles[0].vendor, "Mali");
    assert_eq!(profiles[0].model, "Mali-G71");
    assert_eq!(profiles[1].model, "Mali-G720");
    assert_eq!(profiles[2].model, "Generic Mali");
    for p in &profiles {
        assert!(p.validate());
    }
    let version = profiles[0].version_ioctl.as_ref().unwrap();
    assert_eq!(version.cmd, 0x40108003);
    assert_eq!(version.parser, "parse_version_return_value");

    assert!(load_adreno_profiles().is_empty());
}

#[test]
fn test_get_gpu_info_static() {
    let info = get_gpu_info_static().unwrap();
    assert_eq!(info.vendor, "Mali");
    assert_eq!(info.model, "Mali-G71");
    assert_eq!(info.cores, Some(2));
    assert!(info.driver_version.is_none());
    assert!(info.gpu_id.is_none());
}

#[test]
fn test_find_gpu_device_picks_first() {
    assert_eq!(find_gpu_device(Vec::new()), None);
    assert_eq!(
        find_gpu_device(vec!["/dev/mali0".to_string(), "/dev/dri/renderD128".to_string()]),
        Some("/dev/mali0".to_string())
    );
}

#[test]
fn test_options_presets() {
    let q = DiscoveryOptions::quick();
    assert_eq!(q.max_results, 5);
    assert_eq!(q.max_calls_per_second, Some(100));
    assert_eq!(q.max_total_calls, Some(1000));

    let d = DiscoveryOptions::debug();
    assert!(d.warn_only_on_dangerous);
    assert_eq!(d.max_total_calls, Some(5000));

    let e = DiscoveryOptions::embedded();
    assert_eq!(e.max_total_calls, Some(500));
    assert_eq!(e.deny_types, vec![0x12, 0x88, 0x8B, 0xFD, 0xFE, 0xFF, 0x00, 0x01]);

    let a = DiscoveryConfig::aggressive();
    assert!(a.max_total_calls.is_none());
    assert!(a.try_find_size);
}

#[test]
fn test_profile_validation_rejects_unknown_parser() {
    let mut profiles = load_mali_profiles();
    let mut p = profiles.remove(0);
    p.version_ioctl.as_mut().unwrap().parser = "parse_generic".to_string();
    assert!(!p.validate());
}
