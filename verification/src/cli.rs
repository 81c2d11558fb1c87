//! Command-line options as plain values, and the decisions taken on them:
//! which mode to run in, whether the combination of flags is consistent,
//! and which special command, if any, replaces the monitoring loop.
//! Reading the actual command line belongs to the surrounding application.

use vstd::prelude::*;

verus! {

/// Errors of flag validation: combinations the command line rejects.
#[derive(Debug, Clone, Copy, PartialEq, Eq, Structural)]
pub enum CliError {
    /// Both foreground and background mode were requested.
    ConflictingModes,
    /// Both verbose and quiet logging were requested.
    ConflictingVerbosity,
    /// Autostart was asked to be both enabled and disabled.
    ConflictingAutostart,
}

/// A command that runs instead of the monitoring loop and then exits.
#[derive(Debug, Clone, Copy, PartialEq, Eq, Structural)]
pub enum SpecialCommand {
    ShowVersion,
    ShowConfig,
    RegenerateConfig,
    ConfigureAutostart { enable: bool },
}

/// The command-line options, already parsed into plain flags.
#[derive(Debug)]
pub struct CliArgs {
    pub foreground: bool,
    pub background: bool,
    pub help_requested: bool,
    pub enable_autostart: Option<bool>,
    pub disable_autostart: bool,
    pub show_config: bool,
    pub regenerate_config: bool,
    pub version: bool,
    pub verbose: bool,
    pub quiet: bool,
}

impl Default for CliArgs {
    /// No flag set: the default invocation.
    fn default() -> (r: CliArgs)
        ensures
            !r.foreground && !r.background && !r.help_requested,
            r.enable_autostart is None && !r.disable_autostart,
            !r.show_config && !r.regenerate_config && !r.version,
            !r.verbose && !r.quiet,
    {
        CliArgs {
            foreground: false,
            background: false,
            help_requested: false,
            enable_autostart: None,
            disable_autostart: false,
            show_config: false,
            regenerate_config: false,
            version: false,
            verbose: false,
            quiet: false,
        }
    }
}

impl CliArgs {
    /// Background mode is the default; only an explicit foreground request
    /// keeps the process attached to the terminal.
    pub fn should_run_in_background(&self) -> (r: bool)
        ensures
            r == !self.foreground,
    {
        if self.foreground {
            false
        } else {
            true
        }
    }

    /// Rejects contradictory flag combinations, checking the run mode
    /// first, the verbosity second, and the autostart switches last.
    pub fn validate(&self) -> (r: Result<(), CliError>)
        ensures
            self.foreground && self.background ==> r == Err::<(), CliError>(
                CliError::ConflictingModes,
            ),
            !(self.foreground && self.background) && (self.verbose && self.quiet) ==> r == Err::<
                (),
                CliError,
            >(CliError::ConflictingVerbosity),
            !(self.foreground && self.background) && !(self.verbose && self.quiet) && (
            self.enable_autostart is Some && self.disable_autostart) ==> r == Err::<(), CliError>(
                CliError::ConflictingAutostart,
            ),
            !(self.foreground && self.background) && !(self.verbose && self.quiet) && !(
            self.enable_autostart is Some && self.disable_autostart) ==> r is Ok,
    {
        if self.foreground && self.background {
            Err(CliError::ConflictingModes)
        } else if self.verbose && self.quiet {
            Err(CliError::ConflictingVerbosity)
        } else if self.enable_autostart.is_some() && self.disable_autostart {
            Err(CliError::ConflictingAutostart)
        } else {
            Ok(())
        }
    }

    /// Which special command, if any, handles this invocation instead of
    /// the monitoring loop, in the fixed priority order: version, show
    /// configuration, regenerate configuration, then the autostart
    /// switches.
    pub fn special_command(&self) -> (r: Option<SpecialCommand>)
        ensures
            self.version ==> r == Some(SpecialCommand::ShowVersion),
            !self.version && self.show_config ==> r == Some(SpecialCommand::ShowConfig),
            !self.version && !self.show_config && self.regenerate_config ==> r == Some(
                SpecialCommand::RegenerateConfig,
            ),
            !self.version && !self.show_config && !self.regenerate_config ==> match self.enable_autostart {
                Some(enable) => r == Some(SpecialCommand::ConfigureAutostart { enable }),
                None => {
                    if self.disable_autostart {
                        r == Some(SpecialCommand::ConfigureAutostart { enable: false })
                    } else {
                        r is None
                    }
                },
            },
    {
        if self.version {
            Some(SpecialCommand::ShowVersion)
        } else if self.show_config {
            Some(SpecialCommand::ShowConfig)
        } else if self.regenerate_config {
            Some(SpecialCommand::RegenerateConfig)
        } else {
            match self.enable_autostart {
                Some(enable) => Some(SpecialCommand::ConfigureAutostart { enable }),
                None => {
                    if self.disable_autostart {
                        Some(SpecialCommand::ConfigureAutostart { enable: false })
                    } else {
                        None
                    }
                },
            }
        }
    }
}

} // verus!
