//! What holds of every run of the start, whatever comes back from the outside.

use std::path::PathBuf;

use vstd::prelude::*;

use crate::settings::Settings;
use crate::startup::{
    is_cancelled, ExitCause, Outcome, Startup, StartupEnd, StartupEvent, StartupStep, StartupWork,
};
use crate::types::{AppExitInfo, Config, ConfigToml};

verus! {

impl Startup {
    /// The start after a run of events.
    pub open spec fn run(self, events: Seq<StartupEvent>) -> Startup
        decreases events.len(),
    {
        if events.len() == 0 {
            self
        } else {
            self.run(events.drop_last()).after(events.last())
        }
    }

    /// The start is at its beginning.
    pub open spec fn is_new(self) -> bool {
        self.step is ParseOverrides && self.provider is None && self.default_model is None
    }

    /// The start has not been given up.
    pub open spec fn is_alive(self) -> bool {
        self.step matches StartupStep::Ended(end) ==> end is Session
    }

    /// During the run, an event came at a step, both as `at` says.
    pub open spec fn met(
        self,
        events: Seq<StartupEvent>,
        at: spec_fn(StartupStep, StartupEvent) -> bool,
    ) -> bool {
        exists|i: int|
            #![trigger events[i]]
            0 <= i < events.len() && at(self.run(events.take(i)).step, events[i])
    }
}

/// The event is what makes the start exit at the step, for that cause.
pub open spec fn causes(step: StartupStep, event: StartupEvent, cause: ExitCause) -> bool {
    match cause {
        ExitCause::Overrides(error) => step is ParseOverrides && event == StartupEvent::Failed(
            error,
        ),
        ExitCause::Home(error) => step is FindHome && event == StartupEvent::Failed(error),
        ExitCause::Toml { rendered, error } => step is LoadToml && event
            == (StartupEvent::TomlFailed { rendered, error }),
        ExitCause::Config(error) => step is LoadConfig && event == StartupEvent::Failed(error),
        ExitCause::AddedDirs(warning) => step is CheckAddedDirs && event
            == StartupEvent::AddedDirsChecked(Some(warning)),
        ExitCause::Login(error) => step is CheckLogin && event == StartupEvent::Failed(error),
    }
}

proof fn lemma_met_earlier(
    start: Startup,
    events: Seq<StartupEvent>,
    at: spec_fn(StartupStep, StartupEvent) -> bool,
)
    requires
        events.len() > 0,
        start.met(events.drop_last(), at),
    ensures
        start.met(events, at),
{
    let earlier = events.drop_last();
    let i = choose|i: int|
        #![trigger earlier[i]]
        0 <= i < earlier.len() && at(start.run(earlier.take(i)).step, earlier[i]);
    assert(earlier.take(i) =~= events.take(i));
    assert(events[i] == earlier[i]);
}

proof fn lemma_met_last(
    start: Startup,
    events: Seq<StartupEvent>,
    at: spec_fn(StartupStep, StartupEvent) -> bool,
)
    requires
        events.len() > 0,
        at(start.run(events.drop_last()).step, events.last()),
    ensures
        start.met(events, at),
{
    assert(events.take(events.len() - 1) =~= events.drop_last());
    assert(events[events.len() - 1] == events.last());
}

/// The command line does not change during the start. A local provider is settled
/// before the configuration is loaded, exactly if `--oss` asks for one.
pub proof fn law_command_line_rules(start: Startup, events: Seq<StartupEvent>)
    requires
        start.is_new(),
    ensures
        start.run(events).cli == start.cli,
        start.run(events).linux_sandbox_exe == start.linux_sandbox_exe,
        start.run(events).wf(),
        start.run(events).step is LoadConfig ==> (start.run(events).provider is Some
            <==> start.cli.oss),
    decreases events.len(),
{
    if events.len() > 0 {
        law_command_line_rules(start, events.drop_last());
        start.run(events.drop_last()).lemma_after_fits(events.last());
    }
}

/// The start comes to an end: it takes at most eighteen events that it waits for,
/// and every one of them brings it nearer.
pub proof fn law_start_ends(start: Startup, events: Seq<StartupEvent>)
    requires
        forall|i: int|
            #![trigger events[i]]
            0 <= i < events.len() ==> start.run(events.take(i)).awaits(events[i]),
    ensures
        start.run(events).rank() + events.len() <= start.rank(),
        start.rank() <= 18,
    decreases events.len(),
{
    if events.len() > 0 {
        let earlier = events.drop_last();
        assert forall|i: int| #![trigger earlier[i]] 0 <= i < earlier.len() implies start.run(
            earlier.take(i),
        ).awaits(earlier[i]) by {
            assert(earlier[i] == events[i]);
            assert(earlier.take(i) =~= events.take(i));
        }
        law_start_ends(start, earlier);
        assert(events.take(events.len() - 1) =~= earlier);
        assert(events[events.len() - 1] == events.last());
        start.run(earlier).lemma_after_is_nearer(events.last());
    }
}

/// The end is final: nothing that comes later changes it.
pub proof fn law_end_is_final(startup: Startup, events: Seq<StartupEvent>)
    requires
        startup.step is Ended,
    ensures
        startup.run(events) == startup,
    decreases events.len(),
{
    if events.len() > 0 {
        law_end_is_final(startup, events.drop_last());
    }
}

/// That the old personality could not be carried over, or that there is no
/// telemetry, does not stop the start.
pub proof fn law_minor_failures_do_not_stop(startup: Startup, error: String)
    requires
        startup.step is MigratePersonality || startup.step is BuildTelemetry,
    ensures
        startup.after(StartupEvent::Failed(error)) == startup.after(StartupEvent::Done),
        startup.after(StartupEvent::Done).is_alive(),
{
}

/// The event is no reason to give up at the step.
pub open spec fn is_good_news(step: StartupStep, event: StartupEvent) -> bool {
    match event {
        StartupEvent::Failed(_) => step is MigratePersonality || step is BuildTelemetry,
        StartupEvent::TomlFailed { .. } => false,
        StartupEvent::ProviderSelected(choice) => !is_cancelled(choice@),
        StartupEvent::AddedDirsChecked(warning) => warning is None,
        _ => true,
    }
}

/// Good news never make the start give up: it is under way, or it ends with what
/// the session returned.
pub proof fn law_good_news_lead_to_the_session(start: Startup, events: Seq<StartupEvent>)
    requires
        start.is_alive(),
        forall|i: int|
            #![trigger events[i]]
            0 <= i < events.len() ==> is_good_news(start.run(events.take(i)).step, events[i]),
    ensures
        start.run(events).is_alive(),
    decreases events.len(),
{
    if events.len() > 0 {
        let earlier = events.drop_last();
        assert forall|i: int| #![trigger earlier[i]] 0 <= i < earlier.len() implies is_good_news(
            start.run(earlier.take(i)).step,
            earlier[i],
        ) by {
            assert(earlier[i] == events[i]);
            assert(earlier.take(i) =~= events.take(i));
        }
        law_good_news_lead_to_the_session(start, earlier);
        assert(events.take(events.len() - 1) =~= earlier);
        assert(events[events.len() - 1] == events.last());
    }
}

/// There is no dead end: until the start is over, it waits for something, and good
/// news are possible: settings, a directory, a `config.toml`, a configuration, or a
/// provider that the user chooses, among them.
pub proof fn law_start_has_no_dead_end(
    startup: Startup,
    parsed: Settings,
    path: PathBuf,
    toml: ConfigToml,
    choice: String,
    config: Config,
    result: Result<AppExitInfo, String>,
)
    requires
        !(startup.step is Ended),
        !is_cancelled(choice@),
    ensures
        exists|event: StartupEvent| #[trigger]
            startup.awaits(event) && is_good_news(startup.step, event),
{
    let event = match startup.step {
        StartupStep::ParseOverrides => StartupEvent::OverridesParsed(parsed),
        StartupStep::FindHome => StartupEvent::HomeFound(path),
        StartupStep::LocateCwd { .. } => StartupEvent::CwdLocated(path),
        StartupStep::LoadToml { .. } => StartupEvent::TomlLoaded(toml),
        StartupStep::ResolveProvider { .. } => StartupEvent::ProviderResolved(None),
        StartupStep::SelectProvider { .. } => StartupEvent::ProviderSelected(choice),
        StartupStep::DefaultModel => StartupEvent::DefaultModel(None),
        StartupStep::LoadConfig => StartupEvent::ConfigLoaded(config),
        StartupStep::CheckAddedDirs { .. } => StartupEvent::AddedDirsChecked(None),
        StartupStep::RunSession { .. } => StartupEvent::SessionReturned(result),
        _ => StartupEvent::Done,
    };
    assert(startup.awaits(event));
}

/// The program exits only for a cause that came back from the outside, and with
/// the message for that cause.
#[verifier::rlimit(40)]
pub proof fn law_exit_has_its_cause(start: Startup, events: Seq<StartupEvent>, cause: ExitCause)
    requires
        start.is_new(),
        start.run(events).step == StartupStep::Ended(StartupEnd::Exit(cause)),
    ensures
        start.met(events, |step: StartupStep, event: StartupEvent| causes(step, event, cause)),
    decreases events.len(),
{
    let at = |step: StartupStep, event: StartupEvent| causes(step, event, cause);
    let before = start.run(events.drop_last());
    if before.step == StartupStep::Ended(StartupEnd::Exit(cause)) {
        law_exit_has_its_cause(start, events.drop_last(), cause);
        lemma_met_earlier(start, events, at);
    } else {
        assert(causes(before.step, events.last(), cause));
        lemma_met_last(start, events, at);
    }
}

/// Where only events as `at` says lead from rank `rank` or above to below it, a
/// start that has got below it has met one.
#[verifier::rlimit(40)]
proof fn lemma_must_meet(
    start: Startup,
    events: Seq<StartupEvent>,
    rank: nat,
    at: spec_fn(StartupStep, StartupEvent) -> bool,
)
    requires
        start.is_new(),
        rank <= start.rank(),
        forall|s: Startup, e: StartupEvent|
            s.wf() && s.cli == start.cli && s.rank() >= rank && (#[trigger] s.after(e)).is_alive()
                && s.after(e).rank() < rank ==> at(s.step, e),
    ensures
        start.run(events).is_alive() && start.run(events).rank() < rank ==> start.met(events, at),
    decreases events.len(),
{
    if events.len() > 0 && start.run(events).is_alive() && start.run(events).rank() < rank {
        let earlier = events.drop_last();
        let before = start.run(earlier);
        let event = events.last();
        lemma_must_meet(start, earlier, rank, at);
        law_command_line_rules(start, earlier);
        assert(start.run(events) == before.after(event));
        if before.rank() < rank {
            assert(before.is_alive());
            lemma_met_earlier(start, events, at);
        } else {
            assert(at(before.step, event));
            lemma_met_last(start, events, at);
        }
    }
}

/// The session runs only after the overrides were understood, the home and the
/// working directory found, the requirements prepared, the configuration loaded, the
/// directories to be added and the login accepted, the log opened, and, with `--oss`, the local provider
/// made ready.
#[verifier::rlimit(40)]
pub proof fn law_session_runs_only_after_all_checks(start: Startup, events: Seq<StartupEvent>)
    requires
        start.is_new(),
        start.run(events).step is RunSession,
    ensures
        start.met(
            events,
            |step: StartupStep, event: StartupEvent| step is ParseOverrides && event is OverridesParsed,
        ),
        start.met(
            events,
            |step: StartupStep, event: StartupEvent| step is FindHome && event is HomeFound,
        ),
        start.met(
            events,
            |step: StartupStep, event: StartupEvent| step is LocateCwd && event is CwdLocated,
        ),
        start.met(
            events,
            |step: StartupStep, event: StartupEvent| step is LoadToml && event is TomlLoaded,
        ),
        start.met(
            events,
            |step: StartupStep, event: StartupEvent| step is PrepareCloud && event is Done,
        ),
        start.met(
            events,
            |step: StartupStep, event: StartupEvent| step is LoadConfig && event is ConfigLoaded,
        ),
        start.met(
            events,
            |step: StartupStep, event: StartupEvent|
                step is CheckAddedDirs && event == StartupEvent::AddedDirsChecked(None),
        ),
        start.met(
            events,
            |step: StartupStep, event: StartupEvent| step is CheckLogin && event is Done,
        ),
        start.met(
            events,
            |step: StartupStep, event: StartupEvent| step is OpenLog && event is Done,
        ),
        start.cli.oss ==> start.met(
            events,
            |step: StartupStep, event: StartupEvent| step is ReadyProvider && event is Done,
        ),
{
    lemma_must_meet(
        start,
        events,
        18,
        |step: StartupStep, event: StartupEvent| step is ParseOverrides && event is OverridesParsed,
    );
    lemma_must_meet(
        start,
        events,
        17,
        |step: StartupStep, event: StartupEvent| step is FindHome && event is HomeFound,
    );
    lemma_must_meet(
        start,
        events,
        16,
        |step: StartupStep, event: StartupEvent| step is LocateCwd && event is CwdLocated,
    );
    lemma_must_meet(
        start,
        events,
        15,
        |step: StartupStep, event: StartupEvent| step is LoadToml && event is TomlLoaded,
    );
    lemma_must_meet(
        start,
        events,
        13,
        |step: StartupStep, event: StartupEvent| step is PrepareCloud && event is Done,
    );
    lemma_must_meet(
        start,
        events,
        9,
        |step: StartupStep, event: StartupEvent| step is LoadConfig && event is ConfigLoaded,
    );
    lemma_must_meet(
        start,
        events,
        7,
        |step: StartupStep, event: StartupEvent|
            step is CheckAddedDirs && event == StartupEvent::AddedDirsChecked(None),
    );
    lemma_must_meet(
        start,
        events,
        6,
        |step: StartupStep, event: StartupEvent| step is CheckLogin && event is Done,
    );
    lemma_must_meet(
        start,
        events,
        5,
        |step: StartupStep, event: StartupEvent| step is OpenLog && event is Done,
    );
    if start.cli.oss {
        lemma_must_meet(
            start,
            events,
            4,
            |step: StartupStep, event: StartupEvent| step is ReadyProvider && event is Done,
        );
    }
}

/// Once the overrides are parsed, they stay in force to the end.
pub proof fn law_parsed_overrides_stay_in_force(start: Startup, events: Seq<StartupEvent>)
    requires
        start.is_new(),
        0 < start.run(events).rank() < 18,
    ensures
        start.met(
            events,
            |step: StartupStep, event: StartupEvent|
                step is ParseOverrides && event == StartupEvent::OverridesParsed(
                    start.run(events).cli_overrides,
                ),
        ),
    decreases events.len(),
{
    let parsed = start.run(events).cli_overrides;
    let at = |step: StartupStep, event: StartupEvent|
        step is ParseOverrides && event == StartupEvent::OverridesParsed(parsed);
    let before = start.run(events.drop_last());
    if before.step is ParseOverrides {
        assert(at(before.step, events.last()));
        lemma_met_last(start, events, at);
    } else {
        lemma_settings_stay(before, events.last());
        law_parsed_overrides_stay_in_force(start, events.drop_last());
        lemma_met_earlier(start, events, at);
    }
}

#[verifier::rlimit(40)]
proof fn lemma_settings_stay(startup: Startup, event: StartupEvent)
    requires
        !(startup.step is ParseOverrides),
    ensures
        startup.after(event).cli_overrides == startup.cli_overrides,
        startup.step is Ended ==> startup.after(event).step is Ended,
        !(startup.after(event).step is ParseOverrides),
{
}

#[verifier::rlimit(40)]
proof fn lemma_located_by(startup: Startup, event: StartupEvent, home: PathBuf)
    ensures
        startup.after(event).step == (StartupStep::LocateCwd { home }) && startup.step
            != startup.after(event).step ==> startup.step is FindHome && event
            == StartupEvent::HomeFound(home),
        startup.after(event).step matches StartupStep::LoadToml { home: h, cwd } ==> startup.step
            == startup.after(event).step || (startup.step == (StartupStep::LocateCwd { home: h })
            && event == StartupEvent::CwdLocated(cwd)),
{
}

proof fn lemma_home_was_found(start: Startup, events: Seq<StartupEvent>, home: PathBuf)
    requires
        start.is_new(),
        start.run(events).step == (StartupStep::LocateCwd { home }),
    ensures
        start.met(
            events,
            |step: StartupStep, event: StartupEvent|
                step is FindHome && event == StartupEvent::HomeFound(home),
        ),
    decreases events.len(),
{
    let at = |step: StartupStep, event: StartupEvent|
        step is FindHome && event == StartupEvent::HomeFound(home);
    let before = start.run(events.drop_last());
    lemma_located_by(before, events.last(), home);
    if before.step == start.run(events).step {
        lemma_home_was_found(start, events.drop_last(), home);
        lemma_met_earlier(start, events, at);
    } else {
        lemma_met_last(start, events, at);
    }
}

/// `config.toml` is looked up in the home directory that was found, for the
/// directory that was located.
pub proof fn law_config_toml_is_for_the_located_directory(
    start: Startup,
    events: Seq<StartupEvent>,
    home: PathBuf,
    cwd: PathBuf,
    work: StartupWork,
)
    requires
        start.is_new(),
        start.run(events).step == (StartupStep::LoadToml { home, cwd }),
        start.run(events).calls_for(work),
    ensures
        work == (StartupWork::LoadToml {
            home: &home,
            cwd: &cwd,
            cli_overrides: &start.run(events).cli_overrides,
        }),
        start.met(
            events,
            |step: StartupStep, event: StartupEvent|
                step is FindHome && event == StartupEvent::HomeFound(home),
        ),
        start.met(
            events,
            |step: StartupStep, event: StartupEvent|
                step == (StartupStep::LocateCwd { home }) && event == StartupEvent::CwdLocated(cwd),
        ),
    decreases events.len(),
{
    let at = |step: StartupStep, event: StartupEvent|
        step == (StartupStep::LocateCwd { home }) && event == StartupEvent::CwdLocated(cwd);
    let found = |step: StartupStep, event: StartupEvent|
        step is FindHome && event == StartupEvent::HomeFound(home);
    let before = start.run(events.drop_last());
    lemma_located_by(before, events.last(), home);
    if before.step == start.run(events).step {
        lemma_settings_stay(before, events.last());
        law_config_toml_is_for_the_located_directory(start, events.drop_last(), home, cwd, work);
        lemma_met_earlier(start, events, at);
    } else {
        lemma_home_was_found(start, events.drop_last(), home);
        lemma_met_last(start, events, at);
    }
    lemma_met_earlier(start, events, found);
}

/// The directory to be located is the one given on the command line, or else the
/// current one. `config.toml` is loaded only once it is located; if it cannot be, the
/// start ends with that error.
pub proof fn law_directory_has_to_be_located(
    startup: Startup,
    home: PathBuf,
    cwd: PathBuf,
    error: String,
    work: StartupWork,
)
    requires
        startup.step == (StartupStep::LocateCwd { home }),
        startup.calls_for(work),
    ensures
        startup.after(StartupEvent::Failed(error)).step == StartupStep::Ended(
            StartupEnd::Error(error),
        ),
        startup.after(StartupEvent::CwdLocated(cwd)).step == (StartupStep::LoadToml { home, cwd }),
        match startup.cli.cwd {
            Some(given) => work == StartupWork::Canonicalize(&given),
            None => work is CurrentDir,
        },
{
}

/// The configuration that the start holds at the step.
pub open spec fn held_config(step: StartupStep) -> Option<Config> {
    match step {
        StartupStep::ApplyResidency { config } | StartupStep::CheckAddedDirs { config }
        | StartupStep::CheckLogin { config } | StartupStep::OpenLog { config }
        | StartupStep::ReadyProvider { config, .. } | StartupStep::BuildTelemetry { config }
        | StartupStep::InstallLogging { config } | StartupStep::RunSession { config } => Some(config),
        _ => None,
    }
}

#[verifier::rlimit(40)]
proof fn lemma_config_comes_from(startup: Startup, event: StartupEvent, config: Config)
    requires
        held_config(startup.after(event).step) == Some(config),
    ensures
        held_config(startup.step) == Some(config) || (startup.step is LoadConfig && event
            == StartupEvent::ConfigLoaded(config)),
        startup.after(event).rank() < 8 && startup.rank() >= 8 ==> startup.step
            == (StartupStep::ApplyResidency { config }) && event is Done,
{
    if let StartupEvent::Failed(error) = event {
        assert(startup.awaits(event) ==> held_config(startup.after_failure(error).step)
            == held_config(startup.step) || held_config(startup.after_failure(error).step) is None);
    }
}

/// The session is given the configuration that was loaded, whose residency
/// requirement was applied, with the overrides that it was loaded with: what the
/// command line says, with its directory just as it was given.
pub proof fn law_session_gets_the_loaded_config(
    start: Startup,
    events: Seq<StartupEvent>,
    config: Config,
)
    requires
        start.is_new(),
        held_config(start.run(events).step) == Some(config),
    ensures
        start.met(
            events,
            |step: StartupStep, event: StartupEvent|
                step is LoadConfig && event == StartupEvent::ConfigLoaded(config),
        ),
        start.run(events).rank() < 8 ==> start.met(
            events,
            |step: StartupStep, event: StartupEvent|
                step == (StartupStep::ApplyResidency { config }) && event is Done,
        ),
        start.run(events).step is RunSession ==> forall|work: StartupWork| #[trigger]
            start.run(events).calls_for(work) ==> (work matches StartupWork::RunSession {
                config: c,
                cli_overrides,
                overrides,
            } && *c == config && *cli_overrides == start.run(events).cli_overrides
                && start.run(events).asks_with(overrides) && overrides.cwd == start.cli.cwd),
    decreases events.len(),
{
    let at = |step: StartupStep, event: StartupEvent|
        step is LoadConfig && event == StartupEvent::ConfigLoaded(config);
    let applied = |step: StartupStep, event: StartupEvent|
        step == (StartupStep::ApplyResidency { config }) && event is Done;
    let before = start.run(events.drop_last());
    law_command_line_rules(start, events);
    lemma_config_comes_from(before, events.last(), config);
    if held_config(before.step) == Some(config) {
        law_session_gets_the_loaded_config(start, events.drop_last(), config);
        lemma_met_earlier(start, events, at);
        if before.rank() < 8 {
            lemma_met_earlier(start, events, applied);
        } else if start.run(events).rank() < 8 {
            lemma_met_last(start, events, applied);
        }
    } else {
        lemma_met_last(start, events, at);
    }
}

/// The start returns what the session returned.
#[verifier::rlimit(40)]
pub proof fn law_start_returns_what_the_session_returned(
    start: Startup,
    events: Seq<StartupEvent>,
    result: Result<AppExitInfo, String>,
    outcome: Outcome,
)
    requires
        start.is_new(),
        start.run(events).step == StartupStep::Ended(StartupEnd::Session(result)),
        StartupEnd::Session(result).comes_to(outcome),
    ensures
        outcome == Outcome::Returned(result),
        start.met(
            events,
            |step: StartupStep, event: StartupEvent|
                step is RunSession && event == StartupEvent::SessionReturned(result),
        ),
    decreases events.len(),
{
    let at = |step: StartupStep, event: StartupEvent|
        step is RunSession && event == StartupEvent::SessionReturned(result);
    let before = start.run(events.drop_last());
    if before.step == start.run(events).step {
        law_start_returns_what_the_session_returned(start, events.drop_last(), result, outcome);
        lemma_met_earlier(start, events, at);
    } else {
        assert(at(before.step, events.last()));
        lemma_met_last(start, events, at);
    }
}

/// An error that the start returns is one that came back from the outside.
#[verifier::rlimit(40)]
pub proof fn law_returned_error_came_back(start: Startup, events: Seq<StartupEvent>, error: String)
    requires
        start.is_new(),
        start.run(events).step == StartupStep::Ended(StartupEnd::Error(error)),
    ensures
        start.met(
            events,
            |step: StartupStep, event: StartupEvent| event == StartupEvent::Failed(error),
        ),
    decreases events.len(),
{
    let at = |step: StartupStep, event: StartupEvent| event == StartupEvent::Failed(error);
    let before = start.run(events.drop_last());
    if before.step == start.run(events).step {
        law_returned_error_came_back(start, events.drop_last(), error);
        lemma_met_earlier(start, events, at);
    } else {
        assert(at(before.step, events.last()));
        lemma_met_last(start, events, at);
    }
}

/// The provider was named, on the command line or in the configuration.
pub open spec fn was_named(step: StartupStep, event: StartupEvent, provider: String) -> bool {
    step is ResolveProvider && event == StartupEvent::ProviderResolved(Some(provider))
}

/// The user chose the provider, and did choose.
pub open spec fn was_chosen(step: StartupStep, event: StartupEvent, provider: String) -> bool {
    &&& step is SelectProvider
    &&& event == StartupEvent::ProviderSelected(provider)
    &&& provider@ != "__CANCELLED__"@
}

#[verifier::rlimit(40)]
proof fn lemma_provider_comes_from(startup: Startup, event: StartupEvent, provider: String)
    requires
        startup.after(event).provider == Some(provider),
        startup.provider != Some(provider),
    ensures
        was_named(startup.step, event, provider) || was_chosen(startup.step, event, provider),
{
    if let StartupEvent::Failed(error) = event {
        assert(startup.after_failure(error).provider == startup.provider);
    }
}

/// A provider that is settled was named, or else the user chose it.
pub proof fn law_settled_provider_was_named_or_chosen(
    start: Startup,
    events: Seq<StartupEvent>,
    provider: String,
)
    requires
        start.is_new(),
        start.run(events).provider == Some(provider),
    ensures
        start.met(
            events,
            |step: StartupStep, event: StartupEvent|
                was_named(step, event, provider) || was_chosen(step, event, provider),
        ),
    decreases events.len(),
{
    let at = |step: StartupStep, event: StartupEvent|
        was_named(step, event, provider) || was_chosen(step, event, provider);
    let before = start.run(events.drop_last());
    if before.provider == Some(provider) {
        law_settled_provider_was_named_or_chosen(start, events.drop_last(), provider);
        lemma_met_earlier(start, events, at);
    } else {
        lemma_provider_comes_from(before, events.last(), provider);
        lemma_met_last(start, events, at);
    }
}

#[verifier::rlimit(40)]
proof fn lemma_asked_by(startup: Startup, event: StartupEvent)
    requires
        startup.after(event).step is SelectProvider,
        !(startup.step is SelectProvider),
    ensures
        startup.step is ResolveProvider && event == StartupEvent::ProviderResolved(None),
{
}

/// The user is asked for a provider only after it has turned out that none is named.
pub proof fn law_user_is_asked_after_none_was_named(start: Startup, events: Seq<StartupEvent>)
    requires
        start.is_new(),
        start.run(events).step is SelectProvider,
    ensures
        start.met(
            events,
            |step: StartupStep, event: StartupEvent|
                step is ResolveProvider && event == StartupEvent::ProviderResolved(None),
        ),
    decreases events.len(),
{
    let at = |step: StartupStep, event: StartupEvent|
        step is ResolveProvider && event == StartupEvent::ProviderResolved(None);
    let before = start.run(events.drop_last());
    if before.step is SelectProvider {
        law_user_is_asked_after_none_was_named(start, events.drop_last());
        lemma_met_earlier(start, events, at);
    } else {
        lemma_asked_by(before, events.last());
        lemma_met_last(start, events, at);
    }
}

#[verifier::rlimit(40)]
proof fn lemma_model_comes_from(startup: Startup, event: StartupEvent)
    requires
        startup.wf(),
        startup.cli.oss,
        startup.cli.model is None,
        0 < startup.after(event).rank() <= 9,
    ensures
        if startup.rank() <= 9 {
            startup.after(event).default_model == startup.default_model && startup.rank() > 0
        } else {
            startup.step is DefaultModel && event == StartupEvent::DefaultModel(
                startup.after(event).default_model,
            )
        },
{
    if let StartupEvent::Failed(error) = event {
        assert(startup.after_failure(error).default_model == startup.default_model);
    }
}

/// With `--oss` and without a model on the command line, the configuration is loaded with
/// the default model that was looked up for the provider.
pub proof fn law_default_model_was_looked_up(start: Startup, events: Seq<StartupEvent>)
    requires
        start.is_new(),
        start.cli.oss,
        start.cli.model is None,
        0 < start.run(events).rank() <= 9,
    ensures
        start.met(
            events,
            |step: StartupStep, event: StartupEvent|
                step is DefaultModel && event == StartupEvent::DefaultModel(
                    start.run(events).default_model,
                ),
        ),
    decreases events.len(),
{
    let model = start.run(events).default_model;
    let at = |step: StartupStep, event: StartupEvent|
        step is DefaultModel && event == StartupEvent::DefaultModel(model);
    let before = start.run(events.drop_last());
    law_command_line_rules(start, events.drop_last());
    lemma_model_comes_from(before, events.last());
    if before.rank() <= 9 {
        law_default_model_was_looked_up(start, events.drop_last());
        lemma_met_earlier(start, events, at);
    } else {
        lemma_met_last(start, events, at);
    }
}

} // verus!
