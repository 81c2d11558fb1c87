//! The configuration data model: the ordered list of actions a trigger
//! dispatches, the application settings, and the mutations the application
//! performs on them. Reading and writing the configuration file is the
//! surrounding application's business; this module owns the values and the
//! rules that change them.

use vstd::prelude::*;

verus! {

/// The configuration version the defaults are written with; a loaded file
/// whose version differs is replaced by the defaults.
pub const CONFIG_VERSION: &'static str = "0.1.0";

/// Errors of configuration mutations.
#[derive(Debug, Clone, Copy, PartialEq, Eq, Structural)]
pub enum ConfigError {
    /// The given action index does not name an existing action.
    ActionIndexOutOfBounds,
}

/// The kind of reaction to a recognized trigger.
#[derive(Debug, Clone, Copy, PartialEq, Eq, Structural)]
pub enum ActionType {
    OpenUrl,
    RunCommand,
    SendKeys,
    ShowNotification,
}

/// The parameters an action may carry; which ones are required depends on
/// the action's type.
#[derive(Debug, Clone)]
pub struct ActionParameters {
    pub url: Option<String>,
    pub command: Option<String>,
    pub args: Option<Vec<String>>,
    pub keys: Option<String>,
    pub message: Option<String>,
    pub title: Option<String>,
}

/// One configured action: a display name, its type, its parameters, and
/// whether it is currently enabled.
#[derive(Debug, Clone)]
pub struct ActionConfig {
    pub name: String,
    pub action_type: ActionType,
    pub parameters: ActionParameters,
    pub enabled: bool,
}

/// Application-wide settings.
#[derive(Debug, Clone)]
pub struct AppSettings {
    pub auto_start: bool,
    pub minimize_to_tray: bool,
    pub log_level: String,
    pub check_updates: bool,
}

/// The whole configuration: the ordered action list, the settings, and the
/// version the file was written with.
#[derive(Debug, Clone)]
pub struct Config {
    pub actions: Vec<ActionConfig>,
    pub settings: AppSettings,
    pub version: String,
}

/// What the default settings hold.
pub open spec fn is_default_settings(s: AppSettings) -> bool {
    &&& s.auto_start == true
    &&& s.minimize_to_tray == true
    &&& s.log_level@ == "info"@
    &&& s.check_updates == true
}

/// What the default configuration holds: an enabled open-URL action, an
/// enabled notification action, the default settings, and the current
/// version string.
pub open spec fn is_default_config(c: Config) -> bool {
    &&& c.actions@.len() == 2
    &&& c.actions@[0].name@ == "Open app.notta.ai"@
    &&& c.actions@[0].action_type is OpenUrl
    &&& c.actions@[0].enabled == true
    &&& (c.actions@[0].parameters.url matches Some(u) && u@ == "https://app.notta.ai"@)
    &&& c.actions@[0].parameters.command is None
    &&& c.actions@[0].parameters.args is None
    &&& c.actions@[0].parameters.keys is None
    &&& c.actions@[0].parameters.message is None
    &&& c.actions@[0].parameters.title is None
    &&& c.actions@[1].name@ == "Show AI Assistant Notification"@
    &&& c.actions@[1].action_type is ShowNotification
    &&& c.actions@[1].enabled == true
    &&& c.actions@[1].parameters.url is None
    &&& c.actions@[1].parameters.command is None
    &&& c.actions@[1].parameters.args is None
    &&& c.actions@[1].parameters.keys is None
    &&& (c.actions@[1].parameters.message matches Some(m) && m@ == "AI Assistant activated!"@)
    &&& (c.actions@[1].parameters.title matches Some(t) && t@ == "SVBONY AI Assistant"@)
    &&& is_default_settings(c.settings)
    &&& c.version@ == CONFIG_VERSION@
}

/// Where the startup configuration comes from. Two file locations are
/// probed; a file that does not load cleanly is backed up and replaced by
/// the factory settings.
#[derive(Debug, Clone, Copy, PartialEq, Eq, Structural)]
pub enum ConfigSource {
    /// Use the file in the user's configuration directory.
    SystemFile,
    /// Use the file beside the executable.
    ExeFile,
    /// A file exists but did not load: back it up and reset to factory.
    FactoryReset,
    /// No file exists: write fresh defaults to both locations.
    FreshDefaults,
}

/// Decides where the startup configuration comes from. Each argument probes
/// one location: `None` when no file is there, otherwise whether the file
/// loaded cleanly with a matching version. The system location wins over
/// the executable's; a present but unloadable file forces a factory reset
/// rather than falling through to the other location.
pub fn resolve_config_source(system_file: Option<bool>, exe_file: Option<bool>) -> (r: ConfigSource)
    ensures
        system_file == Some(true) ==> r is SystemFile,
        system_file == Some(false) ==> r is FactoryReset,
        system_file is None && exe_file == Some(true) ==> r is ExeFile,
        system_file is None && exe_file == Some(false) ==> r is FactoryReset,
        system_file is None && exe_file is None ==> r is FreshDefaults,
{
    match system_file {
        Some(true) => ConfigSource::SystemFile,
        Some(false) => ConfigSource::FactoryReset,
        None => match exe_file {
            Some(true) => ConfigSource::ExeFile,
            Some(false) => ConfigSource::FactoryReset,
            None => ConfigSource::FreshDefaults,
        },
    }
}

impl Default for AppSettings {
    /// The settings a fresh configuration starts with.
    fn default() -> (r: AppSettings)
        ensures
            is_default_settings(r),
    {
        AppSettings {
            auto_start: true,
            minimize_to_tray: true,
            log_level: "info".to_owned(),
            check_updates: true,
        }
    }
}

impl Default for Config {
    /// The factory configuration: open the assistant's page and show a
    /// notification on every trigger.
    fn default() -> (r: Config)
        ensures
            is_default_config(r),
    {
        let open_url_action = ActionConfig {
            name: "Open app.notta.ai".to_owned(),
            action_type: ActionType::OpenUrl,
            parameters: ActionParameters {
                url: Some("https://app.notta.ai".to_owned()),
                command: None,
                args: None,
                keys: None,
                message: None,
                title: None,
            },
            enabled: true,
        };
        let notify_action = ActionConfig {
            name: "Show AI Assistant Notification".to_owned(),
            action_type: ActionType::ShowNotification,
            parameters: ActionParameters {
                url: None,
                command: None,
                args: None,
                keys: None,
                message: Some("AI Assistant activated!".to_owned()),
                title: Some("SVBONY AI Assistant".to_owned()),
            },
            enabled: true,
        };
        let mut actions: Vec<ActionConfig> = Vec::new();
        actions.push(open_url_action);
        actions.push(notify_action);
        Config {
            actions,
            settings: AppSettings::default(),
            version: CONFIG_VERSION.to_owned(),
        }
    }
}

impl Config {
    /// Appends an action at the end of the list.
    pub fn add_action(&mut self, action: ActionConfig) -> (r: Result<(), ConfigError>)
        ensures
            r is Ok,
            final(self).actions@ == old(self).actions@.push(action),
            final(self).settings == old(self).settings,
            final(self).version == old(self).version,
    {
        self.actions.push(action);
        Ok(())
    }

    /// Removes the action at `index`, shifting the later ones down; fails
    /// exactly when `index` names no action, leaving everything unchanged.
    pub fn remove_action(&mut self, index: usize) -> (r: Result<(), ConfigError>)
        ensures
            r is Ok <==> index < old(self).actions@.len(),
            r is Ok ==> final(self).actions@ == old(self).actions@.remove(index as int),
            r is Err ==> *final(self) == *old(self) && r == Err::<(), ConfigError>(
                ConfigError::ActionIndexOutOfBounds,
            ),
            final(self).settings == old(self).settings,
            final(self).version == old(self).version,
    {
        if index < self.actions.len() {
            self.actions.remove(index);
            Ok(())
        } else {
            Err(ConfigError::ActionIndexOutOfBounds)
        }
    }

    /// Replaces the action at `index`; fails exactly when `index` names no
    /// action, leaving everything unchanged.
    pub fn update_action(&mut self, index: usize, action: ActionConfig) -> (r: Result<
        (),
        ConfigError,
    >)
        ensures
            r is Ok <==> index < old(self).actions@.len(),
            r is Ok ==> final(self).actions@ == old(self).actions@.update(index as int, action),
            r is Err ==> *final(self) == *old(self) && r == Err::<(), ConfigError>(
                ConfigError::ActionIndexOutOfBounds,
            ),
            final(self).settings == old(self).settings,
            final(self).version == old(self).version,
    {
        if index < self.actions.len() {
            self.actions[index] = action;
            Ok(())
        } else {
            Err(ConfigError::ActionIndexOutOfBounds)
        }
    }

    /// Flips the enabled flag of the action at `index`; fails exactly when
    /// `index` names no action, leaving everything unchanged.
    pub fn toggle_action(&mut self, index: usize) -> (r: Result<(), ConfigError>)
        ensures
            r is Ok <==> index < old(self).actions@.len(),
            r is Ok ==> final(self).actions@ == old(self).actions@.update(
                index as int,
                (ActionConfig {
                    enabled: !old(self).actions@[index as int].enabled,
                    ..old(self).actions@[index as int]
                }),
            ),
            r is Err ==> *final(self) == *old(self) && r == Err::<(), ConfigError>(
                ConfigError::ActionIndexOutOfBounds,
            ),
            final(self).settings == old(self).settings,
            final(self).version == old(self).version,
    {
        if index < self.actions.len() {
            let flipped = !self.actions[index].enabled;
            self.actions[index].enabled = flipped;
            Ok(())
        } else {
            Err(ConfigError::ActionIndexOutOfBounds)
        }
    }
}

} // verus!
