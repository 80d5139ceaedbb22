use rinuxcore::boot::{banner_class, BannerClass, KERNEL_VERSION};
use rinuxcore::{
    alloc_error_handler, BootError, BootSequencer, BootStage, BuildType, Config, ConfigType,
    ConsoleRegistry, ScreenChar, BUFFER_HEIGHT, BUFFER_WIDTH,
};

fn default_config() -> Config {
    Config::new("demo-project", "0.4.2", false)
}

fn row_text(console: &ConsoleRegistry, row: usize) -> Vec<u8> {
    let mut out = Vec::new();
    for col in 0..BUFFER_WIDTH {
        let c: ScreenChar = console.grid.cells[row * BUFFER_WIDTH + col];
        out.push(c.ascii_character);
    }
    while out.last() == Some(&0x20) {
        out.pop();
    }
    out
}

#[test]
fn configure_resolves_the_default_source() {
    let mut seq = BootSequencer::new(BuildType::Debug, false, default_config());
    let mut console = ConsoleRegistry::new();
    assert_eq!(seq.configure(&mut console), Ok(()));
    assert_eq!(seq.stage, BootStage::Configured);
    assert_eq!(seq.config.project_name, b"demo-project".to_vec());
    assert_eq!(seq.config.project_version, b"0.4.2".to_vec());
    assert!(!seq.config.quiet_boot);
}

#[test]
fn configure_twice_keeps_the_first_resolution() {
    let mut seq = BootSequencer::new(BuildType::Debug, false, default_config());
    let mut console = ConsoleRegistry::new();
    assert_eq!(seq.configure(&mut console), Ok(()));
    let cells_after_first = console.grid.cells.clone();
    // a different source requested after the fact changes nothing: the
    // boot-state guard prevents re-resolution
    seq.set_config_type(ConfigType::Custom(Config::new("other", "9.9", true)));
    assert_eq!(seq.configure(&mut console), Ok(()));
    assert_eq!(seq.config.project_name, b"demo-project".to_vec());
    assert_eq!(seq.config.project_version, b"0.4.2".to_vec());
    assert_eq!(console.grid.cells, cells_after_first);
}

#[test]
fn custom_source_is_validated_and_returned_untouched() {
    let mut seq = BootSequencer::new(BuildType::Debug, false, default_config());
    seq.set_config_type(ConfigType::Custom(Config::new("hand-made", "7.7.7", true)));
    let mut console = ConsoleRegistry::new();
    assert_eq!(seq.configure(&mut console), Ok(()));
    assert_eq!(seq.config.project_name, b"hand-made".to_vec());
    assert_eq!(seq.config.project_version, b"7.7.7".to_vec());
    assert!(seq.config.quiet_boot);
}

#[test]
fn forced_identity_wins_over_requested_source() {
    let mut seq = BootSequencer::new(BuildType::Debug, true, default_config());
    seq.set_config_type(ConfigType::Custom(Config::new("other", "9.9", true)));
    let mut console = ConsoleRegistry::new();
    assert_eq!(seq.configure(&mut console), Ok(()));
    assert_eq!(seq.config.project_name, b"PureOS".to_vec());
    assert_eq!(seq.config.project_version, KERNEL_VERSION.as_bytes().to_vec());
    assert!(!seq.config.quiet_boot);
}

#[test]
fn empty_project_name_is_a_fatal_defect() {
    let mut seq = BootSequencer::new(BuildType::Debug, false, default_config());
    seq.set_config_type(ConfigType::Custom(Config::new("", "1.0", false)));
    let mut console = ConsoleRegistry::new();
    let fresh = console.grid.cells.clone();
    assert_eq!(seq.configure(&mut console), Err(BootError::InvalidConfig));
    assert_eq!(seq.stage, BootStage::Unconfigured);
    // nothing was rendered and no stage ran
    assert_eq!(console.grid.cells, fresh);
}

#[test]
fn empty_version_stops_the_whole_sequence() {
    let mut seq = BootSequencer::new(BuildType::Debug, false, default_config());
    seq.set_config_type(ConfigType::Custom(Config::new("name", "", false)));
    let mut console = ConsoleRegistry::new();
    let fresh = console.grid.cells.clone();
    assert_eq!(seq.init(&mut console, true), Err(BootError::InvalidConfig));
    assert_eq!(seq.stage, BootStage::Unconfigured);
    assert_eq!(console.grid.cells, fresh);
}

#[test]
fn version_identity_matrix() {
    assert_eq!(
        banner_class(BuildType::Release, b"v1.3.1-RELEASE"),
        BannerClass::Normal
    );
    assert_eq!(banner_class(BuildType::Release, b"v1.3.1"), BannerClass::Mismatch);
    assert_eq!(banner_class(BuildType::Debug, b"v1.3.1"), BannerClass::Warning);
    assert_eq!(
        banner_class(BuildType::Debug, b"v1.3.1-RELEASE"),
        BannerClass::Warning
    );
    assert_eq!(banner_class(BuildType::Release, b"-RELEASE"), BannerClass::Normal);
    assert_eq!(banner_class(BuildType::Release, b"RELEASE"), BannerClass::Mismatch);
}

#[test]
fn release_build_reports_a_tagged_version() {
    let mut seq = BootSequencer::new(BuildType::Release, false, default_config());
    let mut console = ConsoleRegistry::new();
    assert_eq!(seq.configure(&mut console), Ok(()));
    assert_eq!(seq.version, b"v1.3.1-RELEASE".to_vec());
}

#[test]
fn debug_build_keeps_the_untagged_version() {
    let mut seq = BootSequencer::new(BuildType::Debug, false, default_config());
    let mut console = ConsoleRegistry::new();
    assert_eq!(seq.configure(&mut console), Ok(()));
    assert_eq!(seq.version, b"v1.3.1".to_vec());
}

#[test]
fn banner_ends_with_project_identity() {
    let mut seq = BootSequencer::new(BuildType::Debug, false, default_config());
    let mut console = ConsoleRegistry::new();
    assert_eq!(seq.configure(&mut console), Ok(()));
    // the banner tail ends with an empty line: the identity lines sit just
    // above the blank bottom row
    assert_eq!(row_text(&console, BUFFER_HEIGHT - 5), b"Rinux Authors: [Atomic]".to_vec());
    assert_eq!(row_text(&console, BUFFER_HEIGHT - 4), b"Script: demo-project".to_vec());
    assert_eq!(row_text(&console, BUFFER_HEIGHT - 3), b"Script Version: 0.4.2".to_vec());
    assert_eq!(row_text(&console, BUFFER_HEIGHT - 2), b"".to_vec());
    assert_eq!(row_text(&console, BUFFER_HEIGHT - 1), b"".to_vec());
}

#[test]
fn full_init_reports_each_stage() {
    let mut seq = BootSequencer::new(BuildType::Debug, false, default_config());
    let mut console = ConsoleRegistry::new();
    assert_eq!(seq.init(&mut console, true), Ok(()));
    assert_eq!(seq.stage, BootStage::HardwareReady);
    assert_eq!(row_text(&console, BUFFER_HEIGHT - 5), b"[OK] Interupts initialized".to_vec());
    assert_eq!(row_text(&console, BUFFER_HEIGHT - 4), b"[OK] Instructions initialized".to_vec());
    assert_eq!(row_text(&console, BUFFER_HEIGHT - 3), b"[OK] VRAM initialized".to_vec());
    assert_eq!(row_text(&console, BUFFER_HEIGHT - 2), b"[OK] Heap Initialization".to_vec());
}

#[test]
fn heap_failure_is_reported_and_not_fatal() {
    let mut seq = BootSequencer::new(BuildType::Debug, false, default_config());
    let mut console = ConsoleRegistry::new();
    // heap initialization failed: the error channel reports it, and the
    // sequence still completes
    assert_eq!(seq.init(&mut console, false), Ok(()));
    assert_eq!(seq.stage, BootStage::HardwareReady);
    assert_eq!(row_text(&console, BUFFER_HEIGHT - 2), b"[ERR] Heap Initialization".to_vec());
    // the error line carries the error channel's color
    let cell = console.grid.cells[(BUFFER_HEIGHT - 2) * BUFFER_WIDTH];
    assert_eq!(cell.color_code.0, 0x04);
}

#[test]
fn quiet_boot_suppresses_success_reports_only() {
    let quiet = Config::new("demo-project", "0.4.2", true);
    let mut seq = BootSequencer::new(BuildType::Debug, false, quiet);
    let mut console = ConsoleRegistry::new();
    assert_eq!(seq.configure(&mut console), Ok(()));
    let after_banner = console.grid.cells.clone();
    assert_eq!(seq.init(&mut console, true), Ok(()));
    // no success report was rendered
    assert_eq!(console.grid.cells, after_banner);
    // but a heap failure is still reported
    let mut seq2 = BootSequencer::new(BuildType::Debug, false, Config::new("p", "1", true));
    let mut console2 = ConsoleRegistry::new();
    assert_eq!(seq2.init(&mut console2, false), Ok(()));
    assert_eq!(row_text(&console2, BUFFER_HEIGHT - 2), b"[ERR] Heap Initialization".to_vec());
}

#[test]
fn second_init_skips_configure_but_repeats_stage_reports() {
    let mut seq = BootSequencer::new(BuildType::Debug, false, default_config());
    let mut console = ConsoleRegistry::new();
    assert_eq!(seq.init(&mut console, true), Ok(()));
    let after_first = console.grid.cells.clone();
    // the guard wraps only the configure stage: the hardware stages are
    // sequenced and reported anew, the configuration is not re-resolved
    assert_eq!(seq.init(&mut console, true), Ok(()));
    assert_eq!(seq.config.project_name, b"demo-project".to_vec());
    assert_eq!(seq.stage, BootStage::HardwareReady);
    assert_ne!(console.grid.cells, after_first);
    assert_eq!(row_text(&console, BUFFER_HEIGHT - 2), b"[OK] Heap Initialization".to_vec());
    assert_eq!(row_text(&console, BUFFER_HEIGHT - 5), b"[OK] Interupts initialized".to_vec());
}

#[test]
fn allocation_failure_diagnostic() {
    assert_eq!(alloc_error_handler(64, 8), b"allocation error: size 64, align 8".to_vec());
    assert_eq!(
        alloc_error_handler(1048576, 4096),
        b"allocation error: size 1048576, align 4096".to_vec()
    );
    assert_eq!(alloc_error_handler(0, 1), b"allocation error: size 0, align 1".to_vec());
}

#[test]
fn boot_error_messages() {
    assert_eq!(
        BootError::InvalidConfig.message(),
        "Please use the enderpearl build system"
    );
    assert_eq!(
        BootError::VersionMismatch.message(),
        "Please match VERSION and ENV.BUILD_TYPE"
    );
}

#[test]
fn placeholder_config_is_invalid() {
    let c = Config::cnst();
    assert!(!c.is_valid());
    assert!(Config::new("a", "b", false).is_valid());
    assert!(!Config::new("a", "", false).is_valid());
}
