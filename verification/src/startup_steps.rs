//! What every single answer does to the start, and what it asks for at every step.

use std::path::PathBuf;

use vstd::prelude::*;

use crate::settings::Settings;
use crate::startup::{
    run_main, ExitCause, Outcome, Startup, StartupEnd, StartupEvent, StartupStep, StartupWork,
    TelemetryFailure, SELECTION_CANCELLED,
};
use crate::startup_laws::held_config;
use crate::types::{
    AppExitInfo, AskForApproval, Cli, Config, ConfigOverrides, ConfigToml, SandboxMode,
};

verus! {

/// The start has gone to another step, and nothing else about it has changed.
pub open spec fn only_goes_to(startup: Startup, next: Startup, step: StartupStep) -> bool {
    &&& next.cli == startup.cli
    &&& next.linux_sandbox_exe == startup.linux_sandbox_exe
    &&& next.cli_overrides == startup.cli_overrides
    &&& next.provider == startup.provider
    &&& next.default_model == startup.default_model
    &&& next.step == step
}

/// The provider is settled as this one, and nothing else about the start has changed but
/// the step: where the command line names no model, the default one of the provider is
/// looked up first.
pub open spec fn only_settles(startup: Startup, next: Startup, provider: String) -> bool {
    &&& next.cli == startup.cli
    &&& next.linux_sandbox_exe == startup.linux_sandbox_exe
    &&& next.cli_overrides == startup.cli_overrides
    &&& next.provider == Some(provider)
    &&& next.default_model == startup.default_model
    &&& startup.cli.model is None ==> next.step is DefaultModel
    &&& startup.cli.model is Some ==> next.step is LoadConfig
}

/// A call of [`run_main`] begins with the command line as it is given, and with nothing
/// settled.
pub proof fn law_start_begins_at_the_beginning(
    cli: Cli,
    linux_sandbox_exe: Option<PathBuf>,
    startup: Startup,
)
    requires
        call_ensures(run_main, (cli, linux_sandbox_exe), startup),
    ensures
        startup.cli == cli,
        startup.linux_sandbox_exe == linux_sandbox_exe,
        startup.cli_overrides@.len() == 0,
        startup.provider is None,
        startup.default_model is None,
        startup.step is ParseOverrides,
{
}

/// The settings that were parsed are kept, and the home directory is looked for.
pub proof fn law_parsed_settings_are_kept(startup: Startup, parsed: Settings, next: Startup)
    requires
        startup.step is ParseOverrides,
        call_ensures(Startup::advance, (startup, StartupEvent::OverridesParsed(parsed)), next),
    ensures
        next.cli_overrides == parsed,
        next.step is FindHome,
        next.cli == startup.cli,
        next.linux_sandbox_exe == startup.linux_sandbox_exe,
        next.provider == startup.provider,
        next.default_model == startup.default_model,
{
}

/// The home directory and the directory to work in go on to the loading of
/// `config.toml` as they were found.
pub proof fn law_directories_go_on_as_found(
    startup: Startup,
    home: PathBuf,
    cwd: PathBuf,
    at_home: Startup,
    located: Startup,
)
    requires
        startup.step is FindHome,
        call_ensures(Startup::advance, (startup, StartupEvent::HomeFound(home)), at_home),
        call_ensures(Startup::advance, (at_home, StartupEvent::CwdLocated(cwd)), located),
    ensures
        only_goes_to(startup, at_home, StartupStep::LocateCwd { home }),
        only_goes_to(startup, located, StartupStep::LoadToml { home, cwd }),
{
}

/// A loaded `config.toml` goes on to the migration of the personality and, whether or
/// not that succeeds, to the requirements, with the home directory it came from.
pub proof fn law_loaded_toml_goes_on(
    startup: Startup,
    home: PathBuf,
    cwd: PathBuf,
    toml: ConfigToml,
    migrated: StartupEvent,
    loaded: Startup,
    prepared: Startup,
)
    requires
        startup.step == (StartupStep::LoadToml { home, cwd }),
        call_ensures(Startup::advance, (startup, StartupEvent::TomlLoaded(toml)), loaded),
        migrated is Done || migrated is Failed,
        call_ensures(Startup::advance, (loaded, migrated), prepared),
    ensures
        only_goes_to(startup, loaded, StartupStep::MigratePersonality { home, toml }),
        only_goes_to(startup, prepared, StartupStep::PrepareCloud { home, toml }),
{
}

/// With the requirements prepared, a local provider is looked for exactly if `--oss` asks
/// for one. Otherwise no provider is settled, and the configuration is loaded at once.
pub proof fn law_local_provider_is_looked_for_on_request(
    startup: Startup,
    home: PathBuf,
    toml: ConfigToml,
    next: Startup,
)
    requires
        startup.step == (StartupStep::PrepareCloud { home, toml }),
        startup.provider is None,
        call_ensures(Startup::advance, (startup, StartupEvent::Done), next),
    ensures
        startup.cli.oss ==> only_goes_to(
            startup,
            next,
            StartupStep::ResolveProvider { home, toml },
        ),
        !startup.cli.oss ==> only_goes_to(startup, next, StartupStep::LoadConfig),
{
}

/// A provider that is named, on the command line or in the configuration, is settled,
/// and the user is not asked. Only where none is, the user is.
pub proof fn law_named_provider_is_settled(
    startup: Startup,
    home: PathBuf,
    toml: ConfigToml,
    resolved: Option<String>,
    next: Startup,
)
    requires
        startup.step == (StartupStep::ResolveProvider { home, toml }),
        startup.cli.oss,
        call_ensures(Startup::advance, (startup, StartupEvent::ProviderResolved(resolved)), next),
    ensures
        resolved matches Some(provider) ==> only_settles(startup, next, provider),
        resolved is None ==> only_goes_to(startup, next, StartupStep::SelectProvider { home }),
{
}

/// The user is asked for a provider exactly where none is named.
pub proof fn law_user_is_asked_only_without_a_named_provider(
    startup: Startup,
    event: StartupEvent,
    next: Startup,
)
    requires
        call_ensures(Startup::advance, (startup, event), next),
        !(startup.step is SelectProvider),
    ensures
        next.step is SelectProvider <==> startup.step is ResolveProvider && event
            == StartupEvent::ProviderResolved(None),
{
}

/// What the user chose is settled, whatever it is, unless it is the mark of no choice,
/// which ends the start.
pub proof fn law_chosen_provider_is_settled(startup: Startup, choice: String, next: Startup)
    requires
        startup.step is SelectProvider,
        startup.cli.oss,
        call_ensures(Startup::advance, (startup, StartupEvent::ProviderSelected(choice)), next),
    ensures
        choice@ != "__CANCELLED__"@ ==> only_settles(startup, next, choice),
        choice@ == "__CANCELLED__"@ ==> only_goes_to(
            startup,
            next,
            StartupStep::Ended(StartupEnd::Cancelled),
        ),
{
}

/// The default model of the provider is kept, and the configuration is loaded.
pub proof fn law_default_model_is_kept(startup: Startup, model: Option<String>, next: Startup)
    requires
        startup.step is DefaultModel,
        call_ensures(Startup::advance, (startup, StartupEvent::DefaultModel(model)), next),
    ensures
        next.default_model == model,
        next.step is LoadConfig,
        next.provider == startup.provider,
        next.cli == startup.cli,
        next.linux_sandbox_exe == startup.linux_sandbox_exe,
        next.cli_overrides == startup.cli_overrides,
{
}

/// A loaded configuration passes through residency, added directories, login and log
/// before anything else is done with it, and unchanged.
pub proof fn law_loaded_config_is_checked(
    startup: Startup,
    config: Config,
    loaded: Startup,
    applied: Startup,
    dirs: Startup,
    login: Startup,
)
    requires
        startup.step is LoadConfig,
        call_ensures(Startup::advance, (startup, StartupEvent::ConfigLoaded(config)), loaded),
        call_ensures(Startup::advance, (loaded, StartupEvent::Done), applied),
        call_ensures(Startup::advance, (applied, StartupEvent::AddedDirsChecked(None)), dirs),
        call_ensures(Startup::advance, (dirs, StartupEvent::Done), login),
    ensures
        only_goes_to(startup, loaded, StartupStep::ApplyResidency { config }),
        only_goes_to(startup, applied, StartupStep::CheckAddedDirs { config }),
        only_goes_to(startup, dirs, StartupStep::CheckLogin { config }),
        only_goes_to(startup, login, StartupStep::OpenLog { config }),
{
}

/// With the log open, a local provider is made ready before anything else, exactly if
/// `--oss` asks for one. Then telemetry and logging are set up, and the session runs.
pub proof fn law_local_provider_is_made_ready(
    startup: Startup,
    config: Config,
    opened: Startup,
    next: Startup,
)
    requires
        startup.step == (StartupStep::OpenLog { config }),
        startup.cli.oss <==> startup.provider is Some,
        call_ensures(Startup::advance, (startup, StartupEvent::Done), opened),
        call_ensures(Startup::advance, (opened, StartupEvent::Done), next),
    ensures
        startup.provider matches Some(provider) ==> only_goes_to(
            startup,
            opened,
            StartupStep::ReadyProvider { config, provider },
        ) && only_goes_to(startup, next, StartupStep::BuildTelemetry { config }),
        startup.provider is None ==> only_goes_to(
            startup,
            opened,
            StartupStep::BuildTelemetry { config },
        ) && only_goes_to(startup, next, StartupStep::InstallLogging { config }),
{
}

/// Telemetry, set up or not, and logging lead to the session, and what the session
/// returned ends the start.
pub proof fn law_logging_leads_to_the_session(
    startup: Startup,
    config: Config,
    built: StartupEvent,
    result: Result<AppExitInfo, String>,
    logged: Startup,
    running: Startup,
    over: Startup,
)
    requires
        startup.step == (StartupStep::BuildTelemetry { config }),
        built is Done || built is Failed,
        call_ensures(Startup::advance, (startup, built), logged),
        call_ensures(Startup::advance, (logged, StartupEvent::Done), running),
        call_ensures(Startup::advance, (running, StartupEvent::SessionReturned(result)), over),
    ensures
        only_goes_to(startup, logged, StartupStep::InstallLogging { config }),
        only_goes_to(startup, running, StartupStep::RunSession { config }),
        only_goes_to(startup, over, StartupStep::Ended(StartupEnd::Session(result))),
{
}

/// What a failure does at every step that can fail: four kinds of work make the program
/// exit with a message of their own, two are only minor, and the rest give the error back.
pub proof fn law_every_failure_has_its_end(startup: Startup, error: String, next: Startup)
    requires
        call_ensures(Startup::advance, (startup, StartupEvent::Failed(error)), next),
    ensures
        startup.step is ParseOverrides ==> only_goes_to(
            startup,
            next,
            StartupStep::Ended(StartupEnd::Exit(ExitCause::Overrides(error))),
        ),
        startup.step is FindHome ==> only_goes_to(
            startup,
            next,
            StartupStep::Ended(StartupEnd::Exit(ExitCause::Home(error))),
        ),
        startup.step is LoadConfig ==> only_goes_to(
            startup,
            next,
            StartupStep::Ended(StartupEnd::Exit(ExitCause::Config(error))),
        ),
        startup.step is CheckLogin ==> only_goes_to(
            startup,
            next,
            StartupStep::Ended(StartupEnd::Exit(ExitCause::Login(error))),
        ),
        startup.step is LocateCwd || startup.step is SelectProvider || startup.step is OpenLog
            || startup.step is ReadyProvider ==> only_goes_to(
            startup,
            next,
            StartupStep::Ended(StartupEnd::Error(error)),
        ),
        startup.step matches StartupStep::MigratePersonality { home, toml } ==> only_goes_to(
            startup,
            next,
            StartupStep::PrepareCloud { home, toml },
        ),
        startup.step matches StartupStep::BuildTelemetry { config } ==> only_goes_to(
            startup,
            next,
            StartupStep::InstallLogging { config },
        ),
{
}

/// A `config.toml` that cannot be loaded makes the program exit with what is known of
/// the mistake, and so does anything that speaks against the directories to be added.
pub proof fn law_bad_toml_and_directories_end_the_start(
    startup: Startup,
    rendered: Option<String>,
    error: String,
    warning: String,
    bad_toml: Startup,
    bad_dirs: Startup,
)
    requires
        call_ensures(
            Startup::advance,
            (startup, StartupEvent::TomlFailed { rendered, error }),
            bad_toml,
        ),
        call_ensures(
            Startup::advance,
            (startup, StartupEvent::AddedDirsChecked(Some(warning))),
            bad_dirs,
        ),
    ensures
        startup.step is LoadToml ==> only_goes_to(
            startup,
            bad_toml,
            StartupStep::Ended(StartupEnd::Exit(ExitCause::Toml { rendered, error })),
        ),
        startup.step is CheckAddedDirs ==> only_goes_to(
            startup,
            bad_dirs,
            StartupStep::Ended(StartupEnd::Exit(ExitCause::AddedDirs(warning))),
        ),
{
}

/// Only an answer to what was asked changes anything.
pub proof fn law_only_answers_change_the_start(startup: Startup, event: StartupEvent, next: Startup)
    requires
        call_ensures(Startup::advance, (startup, event), next),
        next != startup,
    ensures
        event is OverridesParsed ==> startup.step is ParseOverrides,
        event is HomeFound ==> startup.step is FindHome,
        event is CwdLocated ==> startup.step is LocateCwd,
        event is TomlLoaded || event is TomlFailed ==> startup.step is LoadToml,
        event is ProviderResolved ==> startup.step is ResolveProvider,
        event is ProviderSelected ==> startup.step is SelectProvider,
        event is DefaultModel ==> startup.step is DefaultModel,
        event is ConfigLoaded ==> startup.step is LoadConfig,
        event is AddedDirsChecked ==> startup.step is CheckAddedDirs,
        event is SessionReturned ==> startup.step is RunSession,
        event is Done ==> startup.step is MigratePersonality || startup.step is PrepareCloud
            || startup.step is ApplyResidency || startup.step is CheckLogin
            || startup.step is OpenLog || startup.step is ReadyProvider
            || startup.step is BuildTelemetry || startup.step is InstallLogging,
        event is Failed ==> startup.step is ParseOverrides || startup.step is FindHome
            || startup.step is LocateCwd || startup.step is MigratePersonality
            || startup.step is SelectProvider || startup.step is LoadConfig
            || startup.step is CheckLogin || startup.step is OpenLog
            || startup.step is ReadyProvider || startup.step is BuildTelemetry,
{
}

/// The overrides carry what the command line of the start says, setting by setting, and
/// what has been settled since.
pub open spec fn carries(overrides: ConfigOverrides, startup: Startup) -> bool {
    let cli = startup.cli;
    &&& cli.model is Some ==> overrides.model == cli.model
    &&& cli.model is None && cli.oss ==> overrides.model == startup.default_model
    &&& cli.model is None && !cli.oss ==> overrides.model is None
    &&& cli.full_auto ==> overrides.sandbox_mode == Some(SandboxMode::WorkspaceWrite)
        && overrides.approval_policy == Some(AskForApproval::OnRequest)
    &&& !cli.full_auto && cli.dangerously_bypass_approvals_and_sandbox ==> overrides.sandbox_mode
        == Some(SandboxMode::DangerFullAccess) && overrides.approval_policy == Some(
        AskForApproval::Never,
    )
    &&& !cli.full_auto && !cli.dangerously_bypass_approvals_and_sandbox ==> overrides.sandbox_mode
        == cli.sandbox_mode && overrides.approval_policy == cli.approval_policy
    &&& overrides.cwd == cli.cwd
    &&& overrides.model_provider == startup.provider
    &&& overrides.config_profile == cli.config_profile
    &&& overrides.codex_linux_sandbox_exe == startup.linux_sandbox_exe
    &&& cli.oss ==> overrides.show_raw_agent_reasoning == Some(true)
    &&& !cli.oss ==> overrides.show_raw_agent_reasoning is None
    &&& overrides.additional_writable_roots@ == cli.add_dir@
}

/// What a call of [`Startup::work`] asks for on the way to `config.toml`: the overrides
/// that were given, and live search for `--search`; the home directory; the directory
/// that was given, resolved, or else the current one; and the file for these.
pub proof fn law_start_asks_for_its_surroundings(startup: &Startup, work: StartupWork<'_>)
    requires
        call_ensures(Startup::work, (startup,), work),
    ensures
        startup.step is ParseOverrides ==> (work matches StartupWork::ParseOverrides { raw } && {
            let given = startup.cli.raw_overrides@;
            &&& raw@.len() == given.len() + if startup.cli.web_search {
                1int
            } else {
                0int
            }
            &&& raw@.take(given.len() as int) == given
            &&& startup.cli.web_search ==> raw@.last()@ == "web_search=\"live\""@
        }),
        startup.step is FindHome ==> work is FindHome,
        startup.step is LocateCwd ==> (startup.cli.cwd matches Some(cwd) ==> (
        work matches StartupWork::Canonicalize(path) && *path == cwd)),
        startup.step is LocateCwd && startup.cli.cwd is None ==> work is CurrentDir,
        startup.step matches StartupStep::LoadToml { home, cwd } ==> (
        work matches StartupWork::LoadToml { home: h, cwd: c, cli_overrides } && *h == home && *c
            == cwd && *cli_overrides == startup.cli_overrides),
        startup.step matches StartupStep::MigratePersonality { home, toml } ==> (
        work matches StartupWork::MigratePersonality { home: h, toml: t } && *h == home && *t
            == toml),
        startup.step matches StartupStep::PrepareCloud { home, toml } ==> (
        work matches StartupWork::PrepareCloud { home: h, toml: t, chatgpt_base_url } && *h == home
            && *t == toml && (toml.chatgpt_base_url matches Some(url) ==> chatgpt_base_url@ == url@)
            && (toml.chatgpt_base_url is None ==> chatgpt_base_url@
            == "https://chatgpt.com/backend-api/"@)),
{
    if let StartupWork::ParseOverrides { raw } = work {
        let given = startup.cli.raw_overrides@;
        if startup.step is ParseOverrides {
            if startup.cli.web_search {
                assert(raw@.take(given.len() as int) =~= raw@.drop_last());
            } else {
                assert(raw@.take(given.len() as int) =~= raw@);
            }
        }
    }
}

/// What a call of [`Startup::work`] asks for to settle the provider and to load the
/// configuration: all with what the command line says, and with what was settled before.
pub proof fn law_start_asks_for_provider_and_config(startup: &Startup, work: StartupWork<'_>)
    requires
        call_ensures(Startup::work, (startup,), work),
    ensures
        startup.step matches StartupStep::ResolveProvider { toml, .. } ==> (
        work matches StartupWork::ResolveProvider { provider, toml: t, profile } && *provider
            == startup.cli.oss_provider && *t == toml && *profile == startup.cli.config_profile),
        startup.step matches StartupStep::SelectProvider { home } ==> (
        work matches StartupWork::SelectProvider { home: h } && *h == home),
        startup.step is DefaultModel ==> (work matches StartupWork::DefaultModel { provider }
            && *provider == startup.provider),
        startup.step is LoadConfig ==> (work matches StartupWork::LoadConfig {
            cli_overrides,
            overrides,
            requirements,
        } && *cli_overrides == startup.cli_overrides && carries(overrides, *startup)
            && requirements is Initial),
{
}

/// What a call of [`Startup::work`] asks for once the configuration is loaded: always
/// with the configuration that is held.
pub proof fn law_start_asks_with_the_loaded_config(
    startup: &Startup,
    held: Config,
    work: StartupWork<'_>,
)
    requires
        call_ensures(Startup::work, (startup,), work),
        startup.step == (StartupStep::ApplyResidency { config: held }) || startup.step
            == (StartupStep::CheckAddedDirs { config: held }) || startup.step
            == (StartupStep::CheckLogin { config: held }) || startup.step
            == (StartupStep::OpenLog { config: held }) || startup.step
            == (StartupStep::BuildTelemetry { config: held }) || startup.step
            == (StartupStep::InstallLogging { config: held }) || startup.step
            == (StartupStep::RunSession { config: held }) || (startup.step is ReadyProvider
            && held_config(startup.step) == Some(held)),
    ensures
        startup.step is ApplyResidency ==> (work matches StartupWork::ApplyResidency { requirement }
            && *requirement == held.enforce_residency),
        startup.step is CheckAddedDirs ==> (work matches StartupWork::CheckAddedDirs {
            add_dir,
            config,
        } && *add_dir == startup.cli.add_dir && *config == held),
        startup.step is CheckLogin ==> (work matches StartupWork::CheckLogin { config } && *config
            == held),
        startup.step is OpenLog ==> (work matches StartupWork::OpenLog { config } && *config
            == held),
        startup.step matches StartupStep::ReadyProvider { provider, .. } ==> (
        work matches StartupWork::ReadyProvider { provider: p, config } && *p == provider && *config
            == held),
        startup.step is BuildTelemetry ==> (work matches StartupWork::BuildTelemetry { config }
            && *config == held),
        startup.step is InstallLogging ==> (work matches StartupWork::InstallLogging { config }
            && *config == held),
        startup.step is RunSession ==> (work matches StartupWork::RunSession {
            config,
            cli_overrides,
            overrides,
        } && *config == held && *cli_overrides == startup.cli_overrides && carries(
            overrides,
            *startup,
        )),
{
}

/// A call of [`Startup::work`] says that the start is over exactly when it is, and how.
pub proof fn law_start_tells_its_end(startup: &Startup, work: StartupWork<'_>)
    requires
        call_ensures(Startup::work, (startup,), work),
    ensures
        work is End <==> startup.step is Ended,
        startup.step matches StartupStep::Ended(end) ==> (work matches StartupWork::End(e) && *e
            == end),
{
}

/// What a call of [`StartupEnd::outcome`] gives: exits keep their cause, errors their
/// text, and what the session returned is returned.
pub proof fn law_start_comes_to_its_outcome(end: StartupEnd, outcome: Outcome)
    requires
        call_ensures(StartupEnd::outcome, (end,), outcome),
    ensures
        end matches StartupEnd::Exit(cause) ==> outcome == Outcome::Exited(cause),
        end matches StartupEnd::Error(error) ==> outcome == Outcome::Returned(Err(error)),
        end matches StartupEnd::Session(result) ==> outcome == Outcome::Returned(result),
        end is Cancelled ==> (outcome matches Outcome::Returned(Err(error)) && error@
            == SELECTION_CANCELLED@),
{
}

/// What a call of [`ExitCause::message`] gives: what went wrong, and behind it the error
/// in full. A mistake in `config.toml` whose place is known is shown instead of the error.
pub proof fn law_exit_message_tells_the_cause(cause: ExitCause, message: String)
    requires
        call_ensures(ExitCause::message, (&cause,), message),
    ensures
        cause matches ExitCause::Overrides(error) ==> message@ == "Error parsing -c overrides: "@
            + error@,
        cause matches ExitCause::Home(error) ==> message@ == "Error finding codex home: "@ + error@,
        cause matches ExitCause::Toml { rendered: Some(shown), .. } ==> message@
            == "Error loading config.toml:\n"@ + shown@,
        cause matches ExitCause::Toml { rendered: None, error } ==> message@
            == "Error loading config.toml: "@ + error@,
        cause matches ExitCause::Config(error) ==> message@ == "Error loading configuration: "@
            + error@,
        cause matches ExitCause::AddedDirs(warning) ==> message@ == "Error adding directories: "@
            + warning@,
        cause matches ExitCause::Login(error) ==> message@ == error@,
{
}

/// What a call of [`TelemetryFailure::message`] gives.
pub proof fn law_telemetry_message_tells_the_failure(failure: TelemetryFailure, message: String)
    requires
        call_ensures(TelemetryFailure::message, (&failure,), message),
    ensures
        failure matches TelemetryFailure::Error(error) ==> message@
            == "Could not create otel exporter: "@ + error@,
        failure is Panicked ==> message@
            == "Could not create otel exporter: panicked during initialization"@,
{
}

} // verus!
