use svbony_ai_assistant::autostart::{AutostartDirective, AutostartManager};
use svbony_ai_assistant::cli::{CliArgs, CliError, SpecialCommand};

#[test]
fn test_autostart_manager_creation() {
    let manager = AutostartManager::new();
    // Just test that we can create the manager
    let _ = manager;
    assert!(true);
}

#[test]
fn test_setup_first_run_directives() {
    let manager = AutostartManager::new();
    assert_eq!(manager.setup_first_run(true, false), AutostartDirective::Enable);
    assert_eq!(manager.setup_first_run(false, true), AutostartDirective::Disable);
    assert_eq!(manager.setup_first_run(true, true), AutostartDirective::Nothing);
    assert_eq!(manager.setup_first_run(false, false), AutostartDirective::Nothing);
}

#[test]
fn test_background_is_the_default_mode() {
    let args = CliArgs::default();
    assert!(args.should_run_in_background());

    let mut foreground = CliArgs::default();
    foreground.foreground = true;
    assert!(!foreground.should_run_in_background());
}

#[test]
fn test_validate_rejects_conflicting_flags() {
    let mut args = CliArgs::default();
    args.foreground = true;
    args.background = true;
    assert_eq!(args.validate(), Err(CliError::ConflictingModes));

    let mut args = CliArgs::default();
    args.verbose = true;
    args.quiet = true;
    assert_eq!(args.validate(), Err(CliError::ConflictingVerbosity));

    let mut args = CliArgs::default();
    args.enable_autostart = Some(true);
    args.disable_autostart = true;
    assert_eq!(args.validate(), Err(CliError::ConflictingAutostart));

    assert!(CliArgs::default().validate().is_ok());
}

#[test]
fn test_special_command_priority() {
    assert!(CliArgs::default().special_command().is_none());

    let mut args = CliArgs::default();
    args.version = true;
    args.show_config = true;
    assert_eq!(args.special_command(), Some(SpecialCommand::ShowVersion));

    let mut args = CliArgs::default();
    args.show_config = true;
    args.regenerate_config = true;
    assert_eq!(args.special_command(), Some(SpecialCommand::ShowConfig));

    let mut args = CliArgs::default();
    args.regenerate_config = true;
    assert_eq!(args.special_command(), Some(SpecialCommand::RegenerateConfig));

    let mut args = CliArgs::default();
    args.enable_autostart = Some(true);
    assert_eq!(args.special_command(), Some(SpecialCommand::ConfigureAutostart { enable: true }));

    let mut args = CliArgs::default();
    args.disable_autostart = true;
    assert_eq!(args.special_command(), Some(SpecialCommand::ConfigureAutostart { enable: false }));
}
