use svbony_ai_assistant::config::{
    resolve_config_source, ActionConfig, ActionParameters, ActionType, Config, ConfigError,
    ConfigSource, CONFIG_VERSION,
};

fn extra_action() -> ActionConfig {
    ActionConfig {
        name: "run something".to_owned(),
        action_type: ActionType::RunCommand,
        parameters: ActionParameters {
            url: None,
            command: Some("true".to_owned()),
            args: None,
            keys: None,
            message: None,
            title: None,
        },
        enabled: true,
    }
}

#[test]
fn test_default_config_contents() {
    let config = Config::default();

    assert_eq!(config.version, CONFIG_VERSION);
    assert!(config.settings.auto_start);
    assert!(config.settings.minimize_to_tray);
    assert_eq!(config.settings.log_level, "info");
    assert!(config.settings.check_updates);

    assert_eq!(config.actions.len(), 2);
    assert_eq!(config.actions[0].name, "Open app.notta.ai");
    assert!(matches!(config.actions[0].action_type, ActionType::OpenUrl));
    assert!(config.actions[0].enabled);
    assert_eq!(config.actions[0].parameters.url.as_deref(), Some("https://app.notta.ai"));

    assert_eq!(config.actions[1].name, "Show AI Assistant Notification");
    assert!(matches!(config.actions[1].action_type, ActionType::ShowNotification));
    assert!(config.actions[1].enabled);
    assert_eq!(config.actions[1].parameters.message.as_deref(), Some("AI Assistant activated!"));
    assert_eq!(config.actions[1].parameters.title.as_deref(), Some("SVBONY AI Assistant"));
}

#[test]
fn test_add_action_appends() {
    let mut config = Config::default();
    assert!(config.add_action(extra_action()).is_ok());
    assert_eq!(config.actions.len(), 3);
    assert_eq!(config.actions[2].name, "run something");
}

#[test]
fn test_remove_action_shifts_and_checks_bounds() {
    let mut config = Config::default();
    assert!(config.remove_action(0).is_ok());
    assert_eq!(config.actions.len(), 1);
    assert_eq!(config.actions[0].name, "Show AI Assistant Notification");

    assert_eq!(config.remove_action(1), Err(ConfigError::ActionIndexOutOfBounds));
    assert_eq!(config.actions.len(), 1);
}

#[test]
fn test_update_action_replaces_in_place() {
    let mut config = Config::default();
    assert!(config.update_action(1, extra_action()).is_ok());
    assert_eq!(config.actions.len(), 2);
    assert_eq!(config.actions[1].name, "run something");

    assert_eq!(config.update_action(2, extra_action()), Err(ConfigError::ActionIndexOutOfBounds));
}

#[test]
fn test_config_source_precedence() {
    // The system location wins whenever its file loads.
    assert_eq!(resolve_config_source(Some(true), None), ConfigSource::SystemFile);
    assert_eq!(resolve_config_source(Some(true), Some(true)), ConfigSource::SystemFile);

    // A present but unloadable file forces a factory reset, never a fall
    // through to the other location.
    assert_eq!(resolve_config_source(Some(false), Some(true)), ConfigSource::FactoryReset);
    assert_eq!(resolve_config_source(None, Some(false)), ConfigSource::FactoryReset);

    assert_eq!(resolve_config_source(None, Some(true)), ConfigSource::ExeFile);
    assert_eq!(resolve_config_source(None, None), ConfigSource::FreshDefaults);
}

#[test]
fn test_toggle_action_flips_enabled() {
    let mut config = Config::default();
    assert!(config.actions[0].enabled);
    assert!(config.toggle_action(0).is_ok());
    assert!(!config.actions[0].enabled);
    assert!(config.toggle_action(0).is_ok());
    assert!(config.actions[0].enabled);

    assert_eq!(config.toggle_action(9), Err(ConfigError::ActionIndexOutOfBounds));
}
