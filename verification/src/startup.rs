//! From the command line to the session: the configuration is loaded and checked,
//! the log is opened, a local model provider is made ready, and the session runs.
//!
//! [`Startup`] decides what comes next. Whoever drives it does the work that
//! [`Startup::work`] names and reports back with [`Startup::advance`].

use std::path::PathBuf;

use vstd::prelude::*;

use crate::overrides::{
    backend_address, chatgpt_base_url, config_overrides, effective_overrides, overrides_say,
    raw_overrides,
};
use crate::settings::Settings;
use crate::types::{AppExitInfo, Cli, CloudRequirements, Config, ConfigOverrides, ConfigToml};

verus! {

/// The name of the log file in the log directory.
pub const LOG_FILE_NAME: &'static str = "codex-tui.log";

/// Only the current user may read and write the log file.
pub const LOG_FILE_MODE: u32 = 0o600;

/// What is logged unless the environment says otherwise.
pub const DEFAULT_LOG_FILTER: &'static str = "codex_core=info,codex_tui=info,codex_rmcp_client=info";

/// The error for a user who did not choose a local model provider.
pub const SELECTION_CANCELLED: &'static str = "OSS provider selection was cancelled by user";

/// The status of a program that exits with a message on stderr.
pub const EXIT_STATUS: i32 = 1;

/// Why the program exits with a message on stderr.
pub enum ExitCause {
    /// The `-c` overrides could not be parsed.
    Overrides(String),
    /// There is no home directory for the program.
    Home(String),
    /// `config.toml` could not be loaded. Where the place of the mistake is
    /// known, `rendered` shows it.
    Toml { rendered: Option<String>, error: String },
    /// The configuration could not be loaded.
    Config(String),
    /// Directories cannot be added under the sandbox in effect.
    AddedDirs(String),
    /// The way the user is logged in is not allowed.
    Login(String),
}

impl ExitCause {
    /// The message for the user.
    pub open spec fn text(self) -> Seq<char> {
        match self {
            ExitCause::Overrides(error) => "Error parsing -c overrides: "@ + error@,
            ExitCause::Home(error) => "Error finding codex home: "@ + error@,
            ExitCause::Toml { rendered: Some(rendered), .. } => "Error loading config.toml:\n"@
                + rendered@,
            ExitCause::Toml { rendered: None, error } => "Error loading config.toml: "@ + error@,
            ExitCause::Config(error) => "Error loading configuration: "@ + error@,
            ExitCause::AddedDirs(warning) => "Error adding directories: "@ + warning@,
            ExitCause::Login(error) => error@,
        }
    }

    /// The message for the user.
    pub fn message(&self) -> (message: String)
        ensures
            message@ == self.text(),
    {
        match self {
            ExitCause::Overrides(error) => "Error parsing -c overrides: ".to_owned().concat(error.as_str()),
            ExitCause::Home(error) => "Error finding codex home: ".to_owned().concat(error.as_str()),
            ExitCause::Toml { rendered, error } => match rendered {
                Some(rendered) => "Error loading config.toml:\n".to_owned().concat(
                    rendered.as_str(),
                ),
                None => "Error loading config.toml: ".to_owned().concat(error.as_str()),
            },
            ExitCause::Config(error) => "Error loading configuration: ".to_owned().concat(error.as_str()),
            ExitCause::AddedDirs(warning) => "Error adding directories: ".to_owned().concat(
                warning.as_str(),
            ),
            ExitCause::Login(error) => error.clone(),
        }
    }
}

/// Why there is no telemetry.
pub enum TelemetryFailure {
    Error(String),
    Panicked,
}

impl TelemetryFailure {
    /// The message for the user.
    pub open spec fn text(self) -> Seq<char> {
        match self {
            TelemetryFailure::Error(error) => "Could not create otel exporter: "@ + error@,
            TelemetryFailure::Panicked => "Could not create otel exporter: panicked during initialization"@,
        }
    }

    /// The message for the user.
    pub fn message(&self) -> (message: String)
        ensures
            message@ == self.text(),
    {
        match self {
            TelemetryFailure::Error(error) => "Could not create otel exporter: ".to_owned().concat(
                error.as_str(),
            ),
            TelemetryFailure::Panicked => "Could not create otel exporter: panicked during initialization".to_owned(),
        }
    }
}

/// How the start ends.
pub enum StartupEnd {
    /// The program exits with [`EXIT_STATUS`], after a message on stderr.
    Exit(ExitCause),
    /// The error that came back is returned. This is its text.
    Error(String),
    /// The user did not choose a local model provider: an error that says so is returned.
    Cancelled,
    /// What the session returned is returned, or else an error with the text of its error.
    Session(Result<AppExitInfo, String>),
}

/// What comes of a session, or of the start as a whole.
pub enum Outcome {
    /// This is returned, or an error with this text.
    Returned(Result<AppExitInfo, String>),
    /// The program exits with [`EXIT_STATUS`], after a message on stderr.
    Exited(ExitCause),
}

impl StartupEnd {
    /// The outcome is what comes of this end.
    pub open spec fn comes_to(self, outcome: Outcome) -> bool {
        match self {
            StartupEnd::Exit(cause) => outcome == Outcome::Exited(cause),
            StartupEnd::Error(error) => outcome == Outcome::Returned(Err(error)),
            StartupEnd::Cancelled => outcome matches Outcome::Returned(Err(error)) && error@
                == SELECTION_CANCELLED@,
            StartupEnd::Session(result) => outcome == Outcome::Returned(result),
        }
    }

    /// What comes of the start.
    pub fn outcome(self) -> (outcome: Outcome)
        ensures
            self.comes_to(outcome),
    {
        match self {
            StartupEnd::Exit(cause) => Outcome::Exited(cause),
            StartupEnd::Error(error) => Outcome::Returned(Err(error)),
            StartupEnd::Cancelled => Outcome::Returned(Err(SELECTION_CANCELLED.to_owned())),
            StartupEnd::Session(result) => Outcome::Returned(result),
        }
    }
}

/// What the start is waiting for.
pub enum StartupStep {
    ParseOverrides,
    FindHome,
    LocateCwd { home: PathBuf },
    LoadToml { home: PathBuf, cwd: PathBuf },
    MigratePersonality { home: PathBuf, toml: ConfigToml },
    PrepareCloud { home: PathBuf, toml: ConfigToml },
    ResolveProvider { home: PathBuf, toml: ConfigToml },
    SelectProvider { home: PathBuf },
    DefaultModel,
    LoadConfig,
    ApplyResidency { config: Config },
    CheckAddedDirs { config: Config },
    CheckLogin { config: Config },
    OpenLog { config: Config },
    ReadyProvider { config: Config, provider: String },
    BuildTelemetry { config: Config },
    InstallLogging { config: Config },
    RunSession { config: Config },
    Ended(StartupEnd),
}

/// What has come back from the outside.
pub enum StartupEvent {
    /// The work is done.
    Done,
    /// The work failed.
    Failed(String),
    OverridesParsed(Settings),
    HomeFound(PathBuf),
    /// The directory to work in, resolved.
    CwdLocated(PathBuf),
    TomlLoaded(ConfigToml),
    TomlFailed { rendered: Option<String>, error: String },
    /// The local model provider that the command line or the configuration names.
    ProviderResolved(Option<String>),
    /// The local model provider that the user chose, or the mark of no choice.
    ProviderSelected(String),
    /// The default model of the provider.
    DefaultModel(Option<String>),
    ConfigLoaded(Config),
    /// What speaks against the directories to be added.
    AddedDirsChecked(Option<String>),
    /// What the session returned, or the text of its error.
    SessionReturned(Result<AppExitInfo, String>),
}

/// What is to be done next.
pub enum StartupWork<'a> {
    /// Parse the `-c` overrides.
    ParseOverrides { raw: Vec<String> },
    /// Find the home directory of the program.
    FindHome,
    /// Resolve the directory given on the command line.
    Canonicalize(&'a PathBuf),
    /// Ask for the current directory.
    CurrentDir,
    /// Load `config.toml` from the home directory, for the directory to work in.
    LoadToml { home: &'a PathBuf, cwd: &'a PathBuf, cli_overrides: &'a Settings },
    /// Carry an old personality setting over. Failing to is only worth a warning.
    MigratePersonality { home: &'a PathBuf, toml: &'a ConfigToml },
    /// Prepare to ask this address for the requirements of the user's organisation.
    PrepareCloud { home: &'a PathBuf, toml: &'a ConfigToml, chatgpt_base_url: String },
    /// Look for a local model provider on the command line and in the configuration.
    ResolveProvider {
        provider: &'a Option<String>,
        toml: &'a ConfigToml,
        profile: &'a Option<String>,
    },
    /// Ask the user for a local model provider.
    SelectProvider { home: &'a PathBuf },
    /// Look up the default model of the provider.
    DefaultModel { provider: &'a Option<String> },
    /// Load the configuration with these overrides and requirements.
    LoadConfig {
        cli_overrides: &'a Settings,
        overrides: ConfigOverrides,
        requirements: CloudRequirements,
    },
    /// Apply the residency requirement of the configuration.
    ApplyResidency { requirement: &'a Option<String> },
    /// Check the directories to be added against the sandbox policy of the configuration.
    CheckAddedDirs { add_dir: &'a Vec<PathBuf>, config: &'a Config },
    /// Check that the way the user is logged in is allowed.
    CheckLogin { config: &'a Config },
    /// Open the log file, for appending.
    OpenLog { config: &'a Config },
    /// Make the local model provider ready.
    ReadyProvider { provider: &'a String, config: &'a Config },
    /// Set up telemetry. Failing to is reported, and the start goes on without.
    BuildTelemetry { config: &'a Config },
    /// Install the loggers.
    InstallLogging { config: &'a Config },
    /// Run the session.
    RunSession { config: &'a Config, cli_overrides: &'a Settings, overrides: ConfigOverrides },
    /// Nothing: the start is over.
    End(&'a StartupEnd),
}

/// The start of the program.
pub struct Startup {
    pub cli: Cli,
    pub linux_sandbox_exe: Option<PathBuf>,
    /// The `-c` overrides, once they are parsed.
    pub cli_overrides: Settings,
    /// The local model provider, once there is one.
    pub provider: Option<String>,
    /// The default model of the provider.
    pub default_model: Option<String>,
    pub step: StartupStep,
}

/// What the provider prompt gives for no choice.
pub open spec fn is_cancelled(choice: Seq<char>) -> bool {
    choice == "__CANCELLED__"@
}

impl Startup {
    /// At most how many more events the start can take.
    pub open spec fn rank(self) -> nat {
        match self.step {
            StartupStep::ParseOverrides => 18,
            StartupStep::FindHome => 17,
            StartupStep::LocateCwd { .. } => 16,
            StartupStep::LoadToml { .. } => 15,
            StartupStep::MigratePersonality { .. } => 14,
            StartupStep::PrepareCloud { .. } => 13,
            StartupStep::ResolveProvider { .. } => 12,
            StartupStep::SelectProvider { .. } => 11,
            StartupStep::DefaultModel => 10,
            StartupStep::LoadConfig => 9,
            StartupStep::ApplyResidency { .. } => 8,
            StartupStep::CheckAddedDirs { .. } => 7,
            StartupStep::CheckLogin { .. } => 6,
            StartupStep::OpenLog { .. } => 5,
            StartupStep::ReadyProvider { .. } => 4,
            StartupStep::BuildTelemetry { .. } => 3,
            StartupStep::InstallLogging { .. } => 2,
            StartupStep::RunSession { .. } => 1,
            StartupStep::Ended(_) => 0,
        }
    }

    /// The event is what the step waits for.
    pub open spec fn awaits(self, event: StartupEvent) -> bool {
        match self.step {
            StartupStep::ParseOverrides => event is OverridesParsed || event is Failed,
            StartupStep::FindHome => event is HomeFound || event is Failed,
            StartupStep::LocateCwd { .. } => event is CwdLocated || event is Failed,
            StartupStep::LoadToml { .. } => event is TomlLoaded || event is TomlFailed,
            StartupStep::ResolveProvider { .. } => event is ProviderResolved,
            StartupStep::SelectProvider { .. } => event is ProviderSelected || event is Failed,
            StartupStep::DefaultModel => event is DefaultModel,
            StartupStep::LoadConfig => event is ConfigLoaded || event is Failed,
            StartupStep::CheckAddedDirs { .. } => event is AddedDirsChecked,
            StartupStep::PrepareCloud { .. } | StartupStep::ApplyResidency { .. }
            | StartupStep::InstallLogging { .. } => event is Done,
            StartupStep::MigratePersonality { .. } | StartupStep::CheckLogin { .. }
            | StartupStep::OpenLog { .. } | StartupStep::ReadyProvider { .. }
            | StartupStep::BuildTelemetry { .. } => event is Done || event is Failed,
            StartupStep::RunSession { .. } => event is SessionReturned,
            StartupStep::Ended(_) => false,
        }
    }

    /// The same start, at another step.
    pub open spec fn at(self, step: StartupStep) -> Startup {
        Startup { step, ..self }
    }

    /// The same start, about to exit.
    pub open spec fn exits(self, cause: ExitCause) -> Startup {
        self.at(StartupStep::Ended(StartupEnd::Exit(cause)))
    }

    /// The provider is settled. A local one brings a default model, unless the
    /// command line names one.
    pub open spec fn with_provider(self, provider: Option<String>) -> Startup {
        Startup {
            provider,
            step: if self.cli.oss && self.cli.model is None {
                StartupStep::DefaultModel
            } else {
                StartupStep::LoadConfig
            },
            ..self
        }
    }

    /// The start after a failure.
    pub open spec fn after_failure(self, error: String) -> Startup {
        match self.step {
            StartupStep::ParseOverrides => self.exits(ExitCause::Overrides(error)),
            StartupStep::FindHome => self.exits(ExitCause::Home(error)),
            StartupStep::LoadConfig => self.exits(ExitCause::Config(error)),
            StartupStep::CheckLogin { .. } => self.exits(ExitCause::Login(error)),
            StartupStep::MigratePersonality { home, toml } => self.at(
                StartupStep::PrepareCloud { home, toml },
            ),
            StartupStep::BuildTelemetry { config } => self.at(
                StartupStep::InstallLogging { config },
            ),
            _ => self.at(StartupStep::Ended(StartupEnd::Error(error))),
        }
    }

    /// The start after an event. One that the step does not wait for changes nothing.
    pub open spec fn after(self, event: StartupEvent) -> Startup {
        if !self.awaits(event) {
            self
        } else if let StartupEvent::Failed(error) = event {
            self.after_failure(error)
        } else {
            match (self.step, event) {
                (StartupStep::ParseOverrides, StartupEvent::OverridesParsed(parsed)) => Startup {
                    cli_overrides: parsed,
                    step: StartupStep::FindHome,
                    ..self
                },
                (StartupStep::FindHome, StartupEvent::HomeFound(home)) => self.at(
                    StartupStep::LocateCwd { home },
                ),
                (StartupStep::LocateCwd { home }, StartupEvent::CwdLocated(cwd)) => self.at(
                    StartupStep::LoadToml { home, cwd },
                ),
                (StartupStep::LoadToml { home, .. }, StartupEvent::TomlLoaded(toml)) => self.at(
                    StartupStep::MigratePersonality { home, toml },
                ),
                (
                    StartupStep::LoadToml { .. },
                    StartupEvent::TomlFailed { rendered, error },
                ) => self.exits(ExitCause::Toml { rendered, error }),
                (StartupStep::MigratePersonality { home, toml }, _) => self.at(
                    StartupStep::PrepareCloud { home, toml },
                ),
                (StartupStep::PrepareCloud { home, toml }, _) => if self.cli.oss {
                    self.at(StartupStep::ResolveProvider { home, toml })
                } else {
                    self.with_provider(None)
                },
                (
                    StartupStep::ResolveProvider { home, .. },
                    StartupEvent::ProviderResolved(provider),
                ) => if provider is Some {
                    self.with_provider(provider)
                } else {
                    self.at(StartupStep::SelectProvider { home })
                },
                (
                    StartupStep::SelectProvider { .. },
                    StartupEvent::ProviderSelected(choice),
                ) => if is_cancelled(choice@) {
                    self.at(StartupStep::Ended(StartupEnd::Cancelled))
                } else {
                    self.with_provider(Some(choice))
                },
                (StartupStep::DefaultModel, StartupEvent::DefaultModel(model)) => Startup {
                    default_model: model,
                    step: StartupStep::LoadConfig,
                    ..self
                },
                (StartupStep::LoadConfig, StartupEvent::ConfigLoaded(config)) => self.at(
                    StartupStep::ApplyResidency { config },
                ),
                (StartupStep::ApplyResidency { config }, _) => self.at(
                    StartupStep::CheckAddedDirs { config },
                ),
                (
                    StartupStep::CheckAddedDirs { config },
                    StartupEvent::AddedDirsChecked(warning),
                ) => match warning {
                    Some(warning) => self.exits(ExitCause::AddedDirs(warning)),
                    None => self.at(StartupStep::CheckLogin { config }),
                },
                (StartupStep::CheckLogin { config }, _) => self.at(StartupStep::OpenLog { config }),
                (StartupStep::OpenLog { config }, _) => if self.cli.oss && self.provider is Some {
                    self.at(StartupStep::ReadyProvider { config, provider: self.provider->0 })
                } else {
                    self.at(StartupStep::BuildTelemetry { config })
                },
                (StartupStep::ReadyProvider { config, .. }, _) => self.at(
                    StartupStep::BuildTelemetry { config },
                ),
                (StartupStep::BuildTelemetry { config }, _) => self.at(
                    StartupStep::InstallLogging { config },
                ),
                (StartupStep::InstallLogging { config }, _) => self.at(
                    StartupStep::RunSession { config },
                ),
                (StartupStep::RunSession { .. }, StartupEvent::SessionReturned(result)) => self.at(
                    StartupStep::Ended(StartupEnd::Session(result)),
                ),
                _ => self,
            }
        }
    }

    /// The overrides are those that the start loads the configuration with.
    pub open spec fn asks_with(self, overrides: ConfigOverrides) -> bool {
        overrides_say(
            overrides,
            self.cli,
            self.provider,
            self.default_model,
            self.linux_sandbox_exe,
        )
    }

    /// The work is what the step calls for.
    pub open spec fn calls_for(self, work: StartupWork) -> bool {
        match self.step {
            StartupStep::ParseOverrides => work matches StartupWork::ParseOverrides { raw }
                && effective_overrides(self.cli, raw@),
            StartupStep::FindHome => work is FindHome,
            StartupStep::LocateCwd { .. } => match self.cli.cwd {
                Some(cwd) => work == StartupWork::Canonicalize(&cwd),
                None => work is CurrentDir,
            },
            StartupStep::LoadToml { home, cwd } => work == (StartupWork::LoadToml {
                home: &home,
                cwd: &cwd,
                cli_overrides: &self.cli_overrides,
            }),
            StartupStep::MigratePersonality { home, toml } => work
                == (StartupWork::MigratePersonality { home: &home, toml: &toml }),
            StartupStep::PrepareCloud { home: h, toml: t } => {
                &&& work matches StartupWork::PrepareCloud { home, toml, chatgpt_base_url }
                &&& *home == h
                &&& *toml == t
                &&& chatgpt_base_url@ == backend_address(t)
            },
            StartupStep::ResolveProvider { toml, .. } => work == (StartupWork::ResolveProvider {
                provider: &self.cli.oss_provider,
                toml: &toml,
                profile: &self.cli.config_profile,
            }),
            StartupStep::SelectProvider { home } => work == (StartupWork::SelectProvider {
                home: &home,
            }),
            StartupStep::DefaultModel => work == (StartupWork::DefaultModel {
                provider: &self.provider,
            }),
            StartupStep::LoadConfig => {
                &&& work matches StartupWork::LoadConfig { cli_overrides, overrides, requirements }
                &&& requirements is Initial
                &&& *cli_overrides == self.cli_overrides
                &&& self.asks_with(overrides)
            },
            StartupStep::ApplyResidency { config } => work == (StartupWork::ApplyResidency {
                requirement: &config.enforce_residency,
            }),
            StartupStep::CheckAddedDirs { config } => work == (StartupWork::CheckAddedDirs {
                add_dir: &self.cli.add_dir,
                config: &config,
            }),
            StartupStep::CheckLogin { config } => work == (StartupWork::CheckLogin {
                config: &config,
            }),
            StartupStep::OpenLog { config } => work == (StartupWork::OpenLog { config: &config }),
            StartupStep::ReadyProvider { config, provider } => work
                == (StartupWork::ReadyProvider { provider: &provider, config: &config }),
            StartupStep::BuildTelemetry { config } => work == (StartupWork::BuildTelemetry {
                config: &config,
            }),
            StartupStep::InstallLogging { config } => work == (StartupWork::InstallLogging {
                config: &config,
            }),
            StartupStep::RunSession { config: c } => {
                &&& work matches StartupWork::RunSession { config, cli_overrides, overrides }
                &&& *config == c
                &&& *cli_overrides == self.cli_overrides
                &&& self.asks_with(overrides)
            },
            StartupStep::Ended(end) => work == StartupWork::End(&end),
        }
    }

    /// A local provider is settled exactly when `--oss` asks for one, and a
    /// default model is only ever that of a local provider.
    pub open spec fn wf(self) -> bool {
        &&& self.rank() > 10 ==> self.provider is None && self.default_model is None
        &&& 0 < self.rank() <= 10 ==> (self.provider is Some <==> self.cli.oss)
        &&& self.step is ResolveProvider || self.step is SelectProvider || self.step is DefaultModel
            || self.step is ReadyProvider ==> self.cli.oss
        &&& self.step is DefaultModel ==> self.cli.model is None
        &&& self.default_model is Some ==> self.cli.oss && self.cli.model is None
        &&& self.step matches StartupStep::ReadyProvider { provider, .. } ==> self.provider == Some(
            provider,
        )
        &&& self.provider is Some ==> self.cli.oss
    }

    /// What the command line overrides in the configuration.
    fn overrides(&self) -> (overrides: ConfigOverrides)
        ensures
            self.asks_with(overrides),
    {
        config_overrides(&self.cli, &self.provider, &self.default_model, &self.linux_sandbox_exe)
    }

    /// What is to be done next.
    pub fn work(&self) -> (work: StartupWork<'_>)
        ensures
            self.calls_for(work),
    {
        match &self.step {
            StartupStep::ParseOverrides => StartupWork::ParseOverrides {
                raw: raw_overrides(&self.cli),
            },
            StartupStep::FindHome => StartupWork::FindHome,
            StartupStep::LocateCwd { .. } => match &self.cli.cwd {
                Some(cwd) => StartupWork::Canonicalize(cwd),
                None => StartupWork::CurrentDir,
            },
            StartupStep::LoadToml { home, cwd } => StartupWork::LoadToml {
                home,
                cwd,
                cli_overrides: &self.cli_overrides,
            },
            StartupStep::MigratePersonality { home, toml } => StartupWork::MigratePersonality {
                home,
                toml,
            },
            StartupStep::PrepareCloud { home, toml } => StartupWork::PrepareCloud {
                home,
                toml,
                chatgpt_base_url: chatgpt_base_url(toml),
            },
            StartupStep::ResolveProvider { toml, .. } => StartupWork::ResolveProvider {
                provider: &self.cli.oss_provider,
                toml,
                profile: &self.cli.config_profile,
            },
            StartupStep::SelectProvider { home } => StartupWork::SelectProvider { home },
            StartupStep::DefaultModel => StartupWork::DefaultModel { provider: &self.provider },
            StartupStep::LoadConfig => StartupWork::LoadConfig {
                cli_overrides: &self.cli_overrides,
                overrides: self.overrides(),
                requirements: CloudRequirements::Initial,
            },
            StartupStep::ApplyResidency { config } => StartupWork::ApplyResidency {
                requirement: &config.enforce_residency,
            },
            StartupStep::CheckAddedDirs { config } => StartupWork::CheckAddedDirs {
                add_dir: &self.cli.add_dir,
                config,
            },
            StartupStep::CheckLogin { config } => StartupWork::CheckLogin { config },
            StartupStep::OpenLog { config } => StartupWork::OpenLog { config },
            StartupStep::ReadyProvider { config, provider } => StartupWork::ReadyProvider {
                provider,
                config,
            },
            StartupStep::BuildTelemetry { config } => StartupWork::BuildTelemetry { config },
            StartupStep::InstallLogging { config } => StartupWork::InstallLogging { config },
            StartupStep::RunSession { config } => StartupWork::RunSession {
                config,
                cli_overrides: &self.cli_overrides,
                overrides: self.overrides(),
            },
            StartupStep::Ended(end) => StartupWork::End(end),
        }
    }

    /// Settles the provider, and says what is to be done then.
    fn settle_provider(&mut self, provider: Option<String>) -> (step: StartupStep)
        ensures
            *final(self) == (Startup { provider, ..*old(self) }),
            step == old(self).with_provider(provider).step,
    {
        self.provider = provider;
        if self.cli.oss && self.cli.model.is_none() {
            StartupStep::DefaultModel
        } else {
            StartupStep::LoadConfig
        }
    }

    /// What is remembered keeps fitting together.
    #[verifier::rlimit(40)]
    pub(crate) proof fn lemma_after_fits(self, event: StartupEvent)
        ensures
            self.after(event).cli == self.cli,
            self.after(event).linux_sandbox_exe == self.linux_sandbox_exe,
            self.wf() ==> self.after(event).wf(),
    {
        if let StartupEvent::Failed(error) = event {
            assert(self.wf() ==> self.after_failure(error).wf());
        }
    }

    /// An event that is awaited brings the start nearer to its end.
    #[verifier::rlimit(40)]
    pub(crate) proof fn lemma_after_is_nearer(self, event: StartupEvent)
        requires
            self.awaits(event),
        ensures
            self.after(event).rank() < self.rank(),
    {
        if let StartupEvent::Failed(error) = event {
            assert(self.after_failure(error).rank() < self.rank());
        }
    }

    /// Takes in what has come back from the outside.
    pub fn advance(self, event: StartupEvent) -> (next: Startup)
        ensures
            next == self.after(event),
            next.cli == self.cli,
            next.linux_sandbox_exe == self.linux_sandbox_exe,
            self.wf() ==> next.wf(),
            self.awaits(event) ==> next.rank() < self.rank(),
            !self.awaits(event) ==> next == self,
    {
        proof {
            self.lemma_after_fits(event);
            if self.awaits(event) {
                self.lemma_after_is_nearer(event);
            }
        }
        match event {
            StartupEvent::Failed(error) => self.fail(error),
            event => match self.step {
                StartupStep::ParseOverrides
                | StartupStep::FindHome
                | StartupStep::LocateCwd { .. }
                | StartupStep::LoadToml { .. }
                | StartupStep::MigratePersonality { .. }
                | StartupStep::PrepareCloud { .. }
                | StartupStep::ResolveProvider { .. }
                | StartupStep::SelectProvider { .. }
                | StartupStep::DefaultModel => self.prepare(event),
                _ => self.enter(event),
            },
        }
    }

    /// The start after a failure.
    #[verifier::rlimit(40)]
    fn fail(self, error: String) -> (next: Startup)
        ensures
            next == self.after(StartupEvent::Failed(error)),
    {
        let mut next = self;
        next.step = match next.step {
            StartupStep::ParseOverrides => exit(ExitCause::Overrides(error)),
            StartupStep::FindHome => exit(ExitCause::Home(error)),
            StartupStep::LoadConfig => exit(ExitCause::Config(error)),
            StartupStep::CheckLogin { .. } => exit(ExitCause::Login(error)),
            StartupStep::MigratePersonality { home, toml } => StartupStep::PrepareCloud {
                home,
                toml,
            },
            StartupStep::BuildTelemetry { config } => StartupStep::InstallLogging { config },
            StartupStep::LocateCwd { .. }
            | StartupStep::SelectProvider { .. }
            | StartupStep::OpenLog { .. }
            | StartupStep::ReadyProvider { .. } => StartupStep::Ended(StartupEnd::Error(error)),
            step => step,
        };
        next
    }

    /// From the command line up to the configuration.
    #[verifier::rlimit(40)]
    fn prepare(self, event: StartupEvent) -> (next: Startup)
        requires
            self.rank() > 9,
            !(event is Failed),
        ensures
            next == self.after(event),
    {
        let Startup { cli, linux_sandbox_exe, cli_overrides, provider, default_model, step } = self;
        let mut next = Startup {
            cli,
            linux_sandbox_exe,
            cli_overrides,
            provider,
            default_model,
            step: StartupStep::FindHome,
        };
        next.step = match (step, event) {
            (StartupStep::ParseOverrides, StartupEvent::OverridesParsed(parsed)) => {
                next.cli_overrides = parsed;
                StartupStep::FindHome
            },
            (StartupStep::FindHome, StartupEvent::HomeFound(home)) => StartupStep::LocateCwd {
                home,
            },
            (StartupStep::LocateCwd { home }, StartupEvent::CwdLocated(cwd)) => StartupStep::LoadToml {
                home,
                cwd,
            },
            (
                StartupStep::LoadToml { home, .. },
                StartupEvent::TomlLoaded(toml),
            ) => StartupStep::MigratePersonality { home, toml },
            (StartupStep::LoadToml { .. }, StartupEvent::TomlFailed { rendered, error }) => exit(
                ExitCause::Toml { rendered, error },
            ),
            (
                StartupStep::MigratePersonality { home, toml },
                StartupEvent::Done,
            ) => StartupStep::PrepareCloud { home, toml },
            (StartupStep::PrepareCloud { home, toml }, StartupEvent::Done) => if next.cli.oss {
                StartupStep::ResolveProvider { home, toml }
            } else {
                next.settle_provider(None)
            },
            (
                StartupStep::ResolveProvider { home, .. },
                StartupEvent::ProviderResolved(provider),
            ) => match provider {
                Some(provider) => next.settle_provider(Some(provider)),
                None => StartupStep::SelectProvider { home },
            },
            (StartupStep::SelectProvider { .. }, StartupEvent::ProviderSelected(choice)) => {
                if choice == "__CANCELLED__".to_owned() {
                    StartupStep::Ended(StartupEnd::Cancelled)
                } else {
                    next.settle_provider(Some(choice))
                }
            },
            (StartupStep::DefaultModel, StartupEvent::DefaultModel(model)) => {
                next.default_model = model;
                StartupStep::LoadConfig
            },
            (step, _) => step,
        };
        next
    }

    /// From the configuration to the end.
    #[verifier::rlimit(40)]
    fn enter(self, event: StartupEvent) -> (next: Startup)
        requires
            self.rank() <= 9,
            !(event is Failed),
        ensures
            next == self.after(event),
    {
        let Startup { cli, linux_sandbox_exe, cli_overrides, provider, default_model, step } = self;
        let mut next = Startup {
            cli,
            linux_sandbox_exe,
            cli_overrides,
            provider,
            default_model,
            step: StartupStep::LoadConfig,
        };
        next.step = match (step, event) {
            (
                StartupStep::LoadConfig,
                StartupEvent::ConfigLoaded(config),
            ) => StartupStep::ApplyResidency { config },
            (
                StartupStep::ApplyResidency { config },
                StartupEvent::Done,
            ) => StartupStep::CheckAddedDirs { config },
            (
                StartupStep::CheckAddedDirs { config },
                StartupEvent::AddedDirsChecked(warning),
            ) => match warning {
                Some(warning) => exit(ExitCause::AddedDirs(warning)),
                None => StartupStep::CheckLogin { config },
            },
            (StartupStep::CheckLogin { config }, StartupEvent::Done) => StartupStep::OpenLog {
                config,
            },
            (StartupStep::OpenLog { config }, StartupEvent::Done) => match &next.provider {
                Some(provider) if next.cli.oss => StartupStep::ReadyProvider {
                    config,
                    provider: provider.clone(),
                },
                _ => StartupStep::BuildTelemetry { config },
            },
            (
                StartupStep::ReadyProvider { config, .. },
                StartupEvent::Done,
            ) => StartupStep::BuildTelemetry { config },
            (
                StartupStep::BuildTelemetry { config },
                StartupEvent::Done,
            ) => StartupStep::InstallLogging { config },
            (
                StartupStep::InstallLogging { config },
                StartupEvent::Done,
            ) => StartupStep::RunSession { config },
            (
                StartupStep::RunSession { .. },
                StartupEvent::SessionReturned(result),
            ) => StartupStep::Ended(StartupEnd::Session(result)),
            (step, _) => step,
        };
        next
    }
}

/// Exiting with a message.
fn exit(cause: ExitCause) -> (step: StartupStep)
    ensures
        step == StartupStep::Ended(StartupEnd::Exit(cause)),
{
    StartupStep::Ended(StartupEnd::Exit(cause))
}

/// The start begins with the command line.
pub fn run_main(cli: Cli, codex_linux_sandbox_exe: Option<PathBuf>) -> (startup: Startup)
    ensures
        startup.cli == cli,
        startup.linux_sandbox_exe == codex_linux_sandbox_exe,
        startup.cli_overrides@.len() == 0,
        startup.provider is None,
        startup.default_model is None,
        startup.step is ParseOverrides,
        startup.wf(),
{
    Startup {
        cli,
        linux_sandbox_exe: codex_linux_sandbox_exe,
        cli_overrides: Vec::new(),
        provider: None,
        default_model: None,
        step: StartupStep::ParseOverrides,
    }
}

} // verus!
