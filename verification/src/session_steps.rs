//! What every single answer does to a session, and what it asks for at every step.

use std::path::PathBuf;

use vstd::prelude::*;

use crate::cwd::{CwdEvent, CwdResolution, CwdStep};
use crate::session::{
    restore_failure_message, run_ratatui_app, CleanupStep, Session, SessionEnd, SessionEvent,
    SessionStep, SessionWork,
};
use crate::session_id::is_uuid;
use crate::settings::Settings;
use crate::startup::{ExitCause, Outcome};
use crate::types::{
    AppExitInfo, AuthMode, Build, Cli, Config, ConfigOverrides, CwdPromptAction,
    ExitReason, LoginStatus, Multiplexer, SessionSelection, ThreadQuery, UpdateAction,
};

verus! {

/// The session has gone to another step, and nothing else about it has changed.
pub open spec fn only_goes_to(session: Session, next: Session, step: SessionStep) -> bool {
    &&& next.cli == session.cli
    &&& next.build == session.build
    &&& next.cli_overrides == session.cli_overrides
    &&& next.overrides == session.overrides
    &&& next.requirements == session.requirements
    &&& next.config == session.config
    &&& next.step == step
}

/// The same, but for the configuration, which is this one now.
pub open spec fn goes_on_with(
    session: Session,
    next: Session,
    config: Config,
    step: SessionStep,
) -> bool {
    &&& next.cli == session.cli
    &&& next.build == session.build
    &&& next.cli_overrides == session.cli_overrides
    &&& next.overrides == session.overrides
    &&& next.requirements == session.requirements
    &&& next.config == config
    &&& next.step == step
}

/// The step that looks up the session that the command line asks for: one to be forked,
/// if any flag forks, else one to be resumed, and in either case the one that is named
/// before the last one, and that before one to be picked. Without any such flag, a new
/// session is opened.
pub open spec fn looks_up(cli: Cli, step: SessionStep) -> bool {
    if cli.fork_session_id is Some || cli.fork_last || cli.fork_picker {
        let action = CwdPromptAction::Fork;
        &&& cli.fork_session_id matches Some(id) ==> step == (SessionStep::FindSession {
            action,
            id,
            by_id: is_uuid(id@),
        })
        &&& cli.fork_session_id is None && cli.fork_last ==> step == (SessionStep::FindLatest {
            action,
        })
        &&& cli.fork_session_id is None && !cli.fork_last ==> step == (SessionStep::PickSession {
            action,
        })
    } else {
        let action = CwdPromptAction::Resume;
        &&& cli.resume_session_id matches Some(id) ==> step == (SessionStep::FindSession {
            action,
            id,
            by_id: is_uuid(id@),
        })
        &&& cli.resume_session_id is None && cli.resume_last ==> step == (SessionStep::FindLatest {
            action,
        })
        &&& cli.resume_session_id is None && !cli.resume_last && cli.resume_picker ==> step
            == (SessionStep::PickSession { action })
        &&& cli.resume_session_id is None && !cli.resume_last && !cli.resume_picker ==> step
            == (SessionStep::ApplyResidency { selection: SessionSelection::StartFresh })
    }
}

/// Trust in the project is still open, and the answer would count on this platform.
pub open spec fn trust_is_open(config: Config, build: Build) -> bool {
    &&& config.trust_level is None
    &&& !config.did_user_set_custom_approval_policy_or_sandbox_mode
    &&& !(build.native_windows && config.windows_sandbox_level is Disabled)
}

/// A call of [`run_ratatui_app`] begins with the terminal, and with all that it is given.
pub proof fn law_session_begins_at_the_beginning(
    cli: Cli,
    config: Config,
    overrides: ConfigOverrides,
    settings: Settings,
    build: Build,
    session: Session,
)
    requires
        call_ensures(run_ratatui_app, (cli, config, overrides, settings, build), session),
    ensures
        session.cli == cli,
        session.config == config,
        session.overrides == overrides,
        session.cli_overrides == settings,
        session.build == build,
        session.requirements is Initial,
        session.step is InitTerminal,
{
}

/// With the terminal at hand, an update is offered exactly in release builds, to a user
/// who has not given a prompt, or only an empty one.
pub proof fn law_update_is_offered_unless_there_is_a_prompt(session: Session, next: Session)
    requires
        session.step is InitTerminal,
        call_ensures(Session::advance, (session, SessionEvent::Done), next),
    ensures
        ({
            let has_text = session.cli.prompt is Some && session.cli.prompt->0@.len() > 0;
            &&& session.build.release && !has_text ==> only_goes_to(
                session,
                next,
                SessionStep::PromptUpdate,
            )
            &&& !session.build.release || has_text ==> only_goes_to(
                session,
                next,
                SessionStep::StartLog,
            )
        }),
{
}

/// An update that is chosen ends the session, once the terminal is given back. Without
/// one the session goes on.
pub proof fn law_chosen_update_ends_the_session(
    session: Session,
    chosen: Option<UpdateAction>,
    answered: Session,
    restored: Session,
)
    requires
        session.step is PromptUpdate,
        call_ensures(Session::advance, (session, SessionEvent::UpdateAnswered(chosen)), answered),
        call_ensures(Session::advance, (answered, SessionEvent::Done), restored),
    ensures
        chosen is None ==> only_goes_to(session, answered, SessionStep::StartLog),
        chosen matches Some(action) ==> only_goes_to(
            session,
            answered,
            SessionStep::RestoreForUpdate { action },
        ) && only_goes_to(session, restored, SessionStep::Ended(SessionEnd::Update(action))),
{
}

/// With the log started, the credentials are read exactly if the provider wants a login.
/// Otherwise the user is onboarded exactly if trust is open, and not asked to log in.
pub proof fn law_provider_without_login_goes_by_trust_alone(session: Session, next: Session)
    requires
        session.step is StartLog,
        call_ensures(Session::advance, (session, SessionEvent::Done), next),
    ensures
        session.config.requires_openai_auth ==> only_goes_to(
            session,
            next,
            SessionStep::ReadCredentials,
        ),
        !session.config.requires_openai_auth && trust_is_open(session.config, session.build)
            ==> only_goes_to(
            session,
            next,
            SessionStep::Onboard {
                status: LoginStatus::NotAuthenticated,
                show_login: false,
                show_trust: true,
            },
        ),
        !session.config.requires_openai_auth && !trust_is_open(session.config, session.build)
            ==> looks_up(session.cli, next.step) && only_goes_to(session, next, next.step),
{
}

/// With the credentials read, the user is onboarded exactly if there is something to ask:
/// to log in, without credentials, and to decide on trust, while it is open, each whether
/// or not the other is asked.
pub proof fn law_user_is_asked_for_what_is_open(
    session: Session,
    stored: Result<Option<AuthMode>, String>,
    next: Session,
)
    requires
        session.step is ReadCredentials,
        session.config.requires_openai_auth,
        call_ensures(Session::advance, (session, SessionEvent::Credentials(stored)), next),
    ensures
        stored matches Ok(Some(mode)) ==> {
            &&& trust_is_open(session.config, session.build) ==> only_goes_to(
                session,
                next,
                SessionStep::Onboard {
                    status: LoginStatus::AuthMode(mode),
                    show_login: false,
                    show_trust: true,
                },
            )
            &&& !trust_is_open(session.config, session.build) ==> looks_up(session.cli, next.step)
                && only_goes_to(session, next, next.step)
        },
        !(stored matches Ok(Some(_))) ==> only_goes_to(
            session,
            next,
            SessionStep::Onboard {
                status: LoginStatus::NotAuthenticated,
                show_login: true,
                show_trust: trust_is_open(session.config, session.build),
            },
        ),
{
}

/// A user who leaves the onboarding screens ends the session. One who has come past the
/// login screen, or has decided on trust, has the configuration loaded again, and the
/// former with fresh requirements, which count from then on. Otherwise the session goes
/// on as it is.
pub proof fn law_onboarding_is_acted_on(
    session: Session,
    status: LoginStatus,
    show_login: bool,
    show_trust: bool,
    should_exit: bool,
    trust_decided: bool,
    next: Session,
)
    requires
        session.step == (SessionStep::Onboard { status, show_login, show_trust }),
        call_ensures(
            Session::advance,
            (session, SessionEvent::Onboarded { should_exit, trust_decided }),
            next,
        ),
    ensures
        should_exit ==> only_goes_to(session, next, SessionStep::Ended(SessionEnd::Onboarding)),
        !should_exit && show_login ==> {
            &&& next.step == (SessionStep::Reload { refresh_cloud: true })
            &&& next.requirements is Refreshed
            &&& next.config == session.config
            &&& next.cli == session.cli
            &&& next.build == session.build
            &&& next.cli_overrides == session.cli_overrides
            &&& next.overrides == session.overrides
        },
        !should_exit && !show_login && trust_decided ==> only_goes_to(
            session,
            next,
            SessionStep::Reload { refresh_cloud: false },
        ),
        !should_exit && !show_login && !trust_decided ==> looks_up(session.cli, next.step)
            && only_goes_to(session, next, next.step),
{
}

/// A configuration that was loaded again takes the place of the one before, and then the
/// session that the command line asks for is looked up.
pub proof fn law_reloaded_config_takes_over(session: Session, config: Config, next: Session)
    requires
        session.step is Reload,
        call_ensures(Session::advance, (session, SessionEvent::ConfigLoaded(config)), next),
    ensures
        goes_on_with(session, next, config, next.step),
        looks_up(session.cli, next.step),
{
}

/// The search for the directory of an earlier session, at its beginning: in the current
/// directory, with leave to ask the user exactly if the command line gives no directory.
pub open spec fn begins_search(session: Session, search: CwdResolution) -> bool {
    &&& search.step is ReadRollout
    &&& search.current == session.config.cwd
    &&& search.allow_prompt <==> session.cli.cwd is None
}

/// A session that is looked for by name or id is used as it was asked for, at the place
/// where it is found. One that is not found ends the session.
pub proof fn law_named_session_is_used_as_asked(
    session: Session,
    action: CwdPromptAction,
    id: String,
    by_id: bool,
    found: Option<PathBuf>,
    next: Session,
)
    requires
        session.step == (SessionStep::FindSession { action, id, by_id }),
        call_ensures(Session::advance, (session, SessionEvent::Found(found)), next),
    ensures
        found matches Some(rollout) ==> only_goes_to(session, next, next.step) && (
        next.step matches SessionStep::ResolveCwd { action: a, path, search } && a == action && path
            == rollout && begins_search(session, search)),
        found is None ==> only_goes_to(
            session,
            next,
            SessionStep::Ended(SessionEnd::NoSession { action, id }),
        ),
{
}

/// The last session is used as it was asked for. Where there is none, or it cannot be
/// found, a new one is opened.
pub proof fn law_last_session_is_used_as_asked(
    session: Session,
    action: CwdPromptAction,
    found: Option<PathBuf>,
    error: String,
    next: Session,
    failed: Session,
)
    requires
        session.step == (SessionStep::FindLatest { action }),
        call_ensures(Session::advance, (session, SessionEvent::Found(found)), next),
        call_ensures(Session::advance, (session, SessionEvent::Failed(error)), failed),
    ensures
        found matches Some(rollout) ==> only_goes_to(session, next, next.step) && (
        next.step matches SessionStep::ResolveCwd { action: a, path, search } && a == action && path
            == rollout && begins_search(session, search)),
        found is None ==> only_goes_to(
            session,
            next,
            SessionStep::ApplyResidency { selection: SessionSelection::StartFresh },
        ),
        only_goes_to(
            session,
            failed,
            SessionStep::ApplyResidency { selection: SessionSelection::StartFresh },
        ),
{
}

/// What the user picks is used as it is picked, whatever the picker was opened for, and
/// leaving the picker ends the session.
pub proof fn law_picked_session_is_used_as_picked(
    session: Session,
    picked: SessionSelection,
    next: Session,
)
    requires
        session.step is PickSession,
        call_ensures(Session::advance, (session, SessionEvent::Picked(picked)), next),
    ensures
        only_goes_to(session, next, next.step),
        picked is StartFresh ==> next.step == (SessionStep::ApplyResidency {
            selection: SessionSelection::StartFresh,
        }),
        picked matches SessionSelection::Resume(rollout) ==> (
        next.step matches SessionStep::ResolveCwd { action, path, search } && action is Resume
            && path == rollout && begins_search(session, search)),
        picked matches SessionSelection::Fork(rollout) ==> (
        next.step matches SessionStep::ResolveCwd { action, path, search } && action is Fork && path
            == rollout && begins_search(session, search)),
        picked is Exit ==> next.step == SessionStep::Ended(SessionEnd::PickerClosed),
{
}

/// The search for the directory is the one of [`CwdResolution::advance`]: the session is
/// at the same search, one answer further, and where that has come to its end, the
/// configuration is loaded with the directory found, for the session that it was found for.
pub proof fn law_session_follows_the_search(
    session: Session,
    action: CwdPromptAction,
    path: PathBuf,
    search: CwdResolution,
    answer: CwdEvent,
    next: Session,
    further: CwdResolution,
)
    requires
        session.step == (SessionStep::ResolveCwd { action, path, search }),
        !(search.step is Resolved),
        call_ensures(Session::advance, (session, SessionEvent::Cwd(answer)), next),
        call_ensures(CwdResolution::advance, (search, answer), further),
    ensures
        only_goes_to(session, next, next.step),
        further.step matches CwdStep::Resolved(fallback) ==> (
        next.step matches SessionStep::ReloadAt { selection, fallback: f } && f == fallback && (
        action is Resume ==> selection == SessionSelection::Resume(path)) && (action is Fork
            ==> selection == SessionSelection::Fork(path))),
        !(further.step is Resolved) ==> next.step == (SessionStep::ResolveCwd {
            action,
            path,
            search: further,
        }),
{
}

/// A configuration that was loaded for an earlier session takes the place of the one
/// before, and it is that session that is opened.
pub proof fn law_config_of_an_earlier_session_takes_over(
    session: Session,
    opened: SessionSelection,
    fallback: Option<PathBuf>,
    config: Config,
    next: Session,
)
    requires
        session.step == (SessionStep::ReloadAt { selection: opened, fallback }),
        call_ensures(Session::advance, (session, SessionEvent::ConfigLoaded(config)), next),
    ensures
        goes_on_with(session, next, config, SessionStep::ApplyResidency { selection: opened }),
{
}

/// The terminal is looked at for a multiplexer exactly if the setting leaves the screen
/// to it and the flag does not rule it out. Otherwise the application runs at once, on the
/// alternate screen exactly if that is set.
pub proof fn law_screen_goes_by_flag_and_setting(
    session: Session,
    opened: SessionSelection,
    next: Session,
)
    requires
        session.step == (SessionStep::ApplyResidency { selection: opened }),
        call_ensures(Session::advance, (session, SessionEvent::Done), next),
    ensures
        ({
            let mode = session.config.tui_alternate_screen;
            &&& !session.cli.no_alt_screen && mode is Auto ==> only_goes_to(
                session,
                next,
                SessionStep::DetectMultiplexer { selection: opened },
            )
            &&& session.cli.no_alt_screen || mode is Never ==> only_goes_to(
                session,
                next,
                SessionStep::RunApp { selection: opened, alt_screen: false },
            )
            &&& !session.cli.no_alt_screen && mode is Always ==> only_goes_to(
                session,
                next,
                SessionStep::RunApp { selection: opened, alt_screen: true },
            )
        }),
{
}

/// Where the multiplexer decides, the application runs on the alternate screen everywhere
/// but in Zellij. What it returns ends the session.
pub proof fn law_application_runs_and_ends_the_session(
    session: Session,
    opened: SessionSelection,
    multiplexer: Option<Multiplexer>,
    result: Result<AppExitInfo, String>,
    running: Session,
    over: Session,
)
    requires
        session.step == (SessionStep::DetectMultiplexer { selection: opened }),
        !session.cli.no_alt_screen,
        session.config.tui_alternate_screen is Auto,
        call_ensures(Session::advance, (session, SessionEvent::Multiplexer(multiplexer)), running),
        call_ensures(Session::advance, (running, SessionEvent::AppReturned(result)), over),
    ensures
        only_goes_to(
            session,
            running,
            SessionStep::RunApp {
                selection: opened,
                alt_screen: multiplexer != Some(Multiplexer::Zellij),
            },
        ),
        only_goes_to(session, over, SessionStep::Ended(SessionEnd::App(result))),
{
}

/// What the application returns ends the session, on whichever screen it ran.
pub proof fn law_result_of_the_application_ends_the_session(
    session: Session,
    result: Result<AppExitInfo, String>,
    over: Session,
)
    requires
        session.step is RunApp,
        call_ensures(Session::advance, (session, SessionEvent::AppReturned(result)), over),
    ensures
        only_goes_to(session, over, SessionStep::Ended(SessionEnd::App(result))),
{
}

/// What a failure does at every step that can fail: a configuration that cannot be loaded
/// makes the program exit, and everything else gives the error back, but for the search
/// for the last session, which can do without.
pub proof fn law_every_session_failure_has_its_end(session: Session, error: String, next: Session)
    requires
        call_ensures(Session::advance, (session, SessionEvent::Failed(error)), next),
    ensures
        session.step is Reload || session.step is ReloadAt ==> only_goes_to(
            session,
            next,
            SessionStep::Ended(SessionEnd::Exit(ExitCause::Config(error))),
        ),
        session.step is InitTerminal || session.step is PromptUpdate
            || session.step is RestoreForUpdate || session.step is Onboard
            || session.step is FindSession || session.step is PickSession || (
        session.step matches SessionStep::ResolveCwd { search, .. } && search.step is Prompt)
            ==> only_goes_to(session, next, SessionStep::Ended(SessionEnd::Error(error))),
{
}

/// Only an answer to what was asked changes anything.
pub proof fn law_only_answers_change_the_session(
    session: Session,
    event: SessionEvent,
    next: Session,
)
    requires
        call_ensures(Session::advance, (session, event), next),
        next != session,
    ensures
        event is Done ==> session.step is InitTerminal || session.step is RestoreForUpdate
            || session.step is StartLog || session.step is ApplyResidency,
        event is UpdateAnswered ==> session.step is PromptUpdate,
        event is Credentials ==> session.step is ReadCredentials,
        event is Onboarded ==> session.step is Onboard,
        event is ConfigLoaded ==> session.step is Reload || session.step is ReloadAt,
        event is Found ==> session.step is FindSession || session.step is FindLatest,
        event is Picked ==> session.step is PickSession,
        event is Cwd ==> session.step is ResolveCwd,
        event is Multiplexer ==> session.step is DetectMultiplexer,
        event is AppReturned ==> session.step is RunApp,
        event is Failed ==> session.step is InitTerminal || session.step is PromptUpdate
            || session.step is RestoreForUpdate || session.step is Onboard || session.step is Reload
            || session.step is FindSession || session.step is FindLatest
            || session.step is PickSession || session.step is ReloadAt || (
        session.step matches SessionStep::ResolveCwd { search, .. } && search.step is Prompt),
{
}

/// What a call of [`Session::work`] asks for up to the choice of a session: all with the
/// configuration in effect.
pub proof fn law_session_asks_with_its_config(session: &Session, work: SessionWork<'_>)
    requires
        call_ensures(Session::work, (session,), work),
    ensures
        session.step is InitTerminal ==> work is InitTerminal,
        session.step is PromptUpdate ==> (work matches SessionWork::PromptUpdate { config }
            && *config == session.config),
        session.step is RestoreForUpdate ==> work is RestoreForUpdate,
        session.step is StartLog ==> (work matches SessionWork::StartLog { config } && *config
            == session.config),
        session.step is ReadCredentials ==> (work matches SessionWork::ReadCredentials { config }
            && *config == session.config),
        session.step matches SessionStep::Onboard { status, show_login, show_trust } ==> (
        work matches SessionWork::Onboard {
            show_login_screen,
            show_trust_screen,
            login_status,
            config,
        } && show_login_screen == show_login && show_trust_screen == show_trust && login_status
            == status && *config == session.config),
{
}

/// What a call of [`Session::work`] asks a load of the configuration for: with the
/// settings and overrides that the session was started with, with the requirements in
/// force, and, for an earlier session, with the directory that was found.
pub proof fn law_session_loads_with_what_it_has(session: &Session, work: SessionWork<'_>)
    requires
        call_ensures(Session::work, (session,), work),
    ensures
        session.step matches SessionStep::Reload { refresh_cloud } ==> (
        work matches SessionWork::Reload {
            refresh_cloud: address,
            cli_overrides,
            overrides,
            requirements,
        } && (refresh_cloud ==> (address matches Some(a) && *a == session.config.chatgpt_base_url))
            && (!refresh_cloud ==> address is None) && *cli_overrides == session.cli_overrides
            && *overrides == session.overrides && requirements == session.requirements),
        session.step matches SessionStep::ReloadAt { fallback, .. } ==> (
        work matches SessionWork::ReloadAt {
            fallback_cwd,
            cli_overrides,
            overrides,
            requirements,
        } && *fallback_cwd == fallback && *cli_overrides == session.cli_overrides && *overrides
            == session.overrides && requirements == session.requirements),
{
}

/// What a call of [`Session::work`] asks the store of sessions for: always the one in the
/// home directory, the session by its id or its name, the last one used with the provider
/// at hand, and, to be resumed, in the current directory, unless all are to count.
pub proof fn law_session_is_looked_up_in_the_store(session: &Session, work: SessionWork<'_>)
    requires
        call_ensures(Session::work, (session,), work),
    ensures
        session.step matches SessionStep::FindSession { id, by_id, .. } ==> {
            &&& by_id ==> (work matches SessionWork::FindById { home, id: i } && *home
                == session.config.codex_home && *i == id)
            &&& !by_id ==> (work matches SessionWork::FindByName { home, name } && *home
                == session.config.codex_home && *name == id)
        },
        session.step matches SessionStep::FindLatest { action } ==> {
            &&& action is Fork ==> (work matches SessionWork::ListThreads { home, query } && *home
                == session.config.codex_home && asks_for_the_last(*session, query))
            &&& action is Resume ==> (work matches SessionWork::FindLatest { home, query, cwd }
                && *home == session.config.codex_home && asks_for_the_last(*session, query) && (
            session.cli.resume_show_all ==> cwd is None) && (!session.cli.resume_show_all ==> (
            cwd matches Some(c) && *c == session.config.cwd)))
        },
        session.step matches SessionStep::PickSession { action } ==> (
        work matches SessionWork::PickSession { action: a, home, provider, show_all } && a == action
            && *home == session.config.codex_home && *provider == session.config.model_provider_id
            && (action is Resume ==> show_all == session.cli.resume_show_all) && (action is Fork
            ==> show_all == session.cli.fork_show_all)),
{
}

/// The query is for the one session that a user took part in last, with the provider at
/// hand.
pub open spec fn asks_for_the_last(session: Session, query: ThreadQuery) -> bool {
    &&& query.page_size == 1
    &&& query.sort_key is UpdatedAt
    &&& query.sources is Interactive
    &&& *query.provider_filter == session.config.model_provider_id
    &&& *query.default_provider == session.config.model_provider_id
}

/// What a call of [`Session::work`] asks for to find the directory: it reads the rollout
/// that was found, compares the current directory with the session's, and puts the two to
/// the user for what is to be done with the session.
pub proof fn law_session_asks_for_the_directory(
    session: &Session,
    action: CwdPromptAction,
    rollout: PathBuf,
    search: CwdResolution,
    work: SessionWork<'_>,
)
    requires
        call_ensures(Session::work, (session,), work),
        session.step == (SessionStep::ResolveCwd { action, path: rollout, search }),
    ensures
        search.step is ReadRollout ==> (work matches SessionWork::ReadRollout(path) && *path
            == rollout),
        search.step is ReadMeta ==> (work matches SessionWork::ReadMeta(path) && *path == rollout),
        search.step matches CwdStep::Compare { history } ==> (
        work matches SessionWork::NormalizeCwds { current, history: h } && *current
            == search.current && *h == history),
        search.step matches CwdStep::Prompt { history } ==> (work matches SessionWork::PromptCwd {
            action: a,
            current,
            history: h,
        } && a == action && *current == search.current && *h == history),
{
}

/// What a call of [`Session::work`] asks for to run the application: with the
/// configuration in effect and all that goes with it, with the prompt and images of the
/// command line, and with the session that is opened. The end is told as it is.
pub proof fn law_application_gets_what_there_is(session: &Session, work: SessionWork<'_>)
    requires
        call_ensures(Session::work, (session,), work),
    ensures
        session.step is ApplyResidency ==> (work matches SessionWork::ApplyResidency { requirement }
            && *requirement == session.config.enforce_residency),
        session.step is DetectMultiplexer ==> work is DetectMultiplexer,
        session.step matches SessionStep::RunApp { selection, alt_screen } ==> (
        work matches SessionWork::RunApp {
            config,
            cli_overrides,
            overrides,
            active_profile,
            selection: s,
            prompt,
            images,
            alt_screen: a,
            show_trust_screen,
        } && *config == session.config && *cli_overrides == session.cli_overrides && *overrides
            == session.overrides && *active_profile == session.config.active_profile && *s
            == selection && *prompt == session.cli.prompt && *images == session.cli.images && a
            == alt_screen && show_trust_screen == trust_is_open(session.config, session.build)),
        work is End <==> session.step is Ended,
        session.step matches SessionStep::Ended(end) ==> (work matches SessionWork::End(e) && *e
            == end),
{
}

/// What a call of [`SessionEnd::cleanup`] gives: nothing for errors, exits and updates;
/// otherwise the terminal, then the log, and, unless the user has seen the application or
/// the picker, then the screen.
pub proof fn law_cleanup_fits_the_end(end: SessionEnd, steps: Vec<CleanupStep>)
    requires
        call_ensures(SessionEnd::cleanup, (&end,), steps),
    ensures
        end is Error || end is Exit || end is Update ==> steps@.len() == 0,
        end is Onboarding || end is NoSession ==> steps@ == seq![
            CleanupStep::RestoreTerminal,
            CleanupStep::EndSessionLog,
            CleanupStep::ClearScreen,
        ],
        end is PickerClosed || end is App ==> steps@ == seq![
            CleanupStep::RestoreTerminal,
            CleanupStep::EndSessionLog,
        ],
{
}

/// What a call of [`SessionEnd::outcome`] gives: errors, exits and what the application
/// returned are handed on. An early end is told with nothing used and nothing opened, with
/// the update that was chosen, if any, and as fatal exactly for a session that is missing.
pub proof fn law_session_comes_to_its_outcome(end: SessionEnd, outcome: Outcome)
    requires
        call_ensures(SessionEnd::outcome, (end,), outcome),
    ensures
        end matches SessionEnd::Error(error) ==> outcome == Outcome::Returned(Err(error)),
        end matches SessionEnd::Exit(cause) ==> outcome == Outcome::Exited(cause),
        end matches SessionEnd::App(result) ==> outcome == Outcome::Returned(result),
        end is Update || end is Onboarding || end is NoSession || end is PickerClosed ==> (
        outcome matches Outcome::Returned(Ok(info)) && info.token_usage.input_tokens == 0
            && info.token_usage.cached_input_tokens == 0 && info.token_usage.output_tokens == 0
            && info.token_usage.reasoning_output_tokens == 0 && info.token_usage.total_tokens == 0
            && info.thread_id is None && info.thread_name is None && (
        end matches SessionEnd::Update(action) ==> info.update_action == Some(action)) && (!(
        end is Update) ==> info.update_action is None) && (!(end is NoSession)
            ==> info.exit_reason is UserRequested) && (end matches SessionEnd::NoSession {
            action,
            id,
        } ==> (info.exit_reason matches ExitReason::Fatal(message) && message@
            == "No saved session found with ID "@ + id@ + ". Run `codex "@ + (
        if action is Resume {
            "resume"@
        } else {
            "fork"@
        }) + "` without an ID to choose from existing sessions."@))),
{
}

/// What a call of [`restore_failure_message`] gives.
pub proof fn law_restore_message_tells_the_error(error: &str, message: String)
    requires
        call_ensures(restore_failure_message, (error,), message),
    ensures
        message@
            == "failed to restore terminal. Run `reset` or restart your terminal to recover: "@
            + error@,
{
}

} // verus!
