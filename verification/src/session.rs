//! From the terminal to the application: the terminal is taken over, the user is
//! asked what has to be asked, the session to open and its directory are found,
//! and the application runs.
//!
//! [`Session`] decides what comes next. Whoever drives it does the work that
//! [`Session::work`] names and reports back with [`Session::advance`].

use std::path::PathBuf;

use vstd::prelude::*;

use crate::cwd::{resolve_cwd_for_resume_or_fork, CwdEvent, CwdResolution, CwdStep};
use crate::screens::{
    determine_alt_screen_mode, get_login_status, login_status, multiplexer_decides, needs_multiplexer,
    should_show_login_screen, should_show_onboarding, should_show_trust_screen, shows_login, shows_trust,
    wants_alt_screen,
};
use crate::selection::{
    no_session_message, no_session_text, requested_lookup, select, selection_of,
    session_lookup, show_all, shows_all, Lookup,
};
use crate::session_id::is_uuid;
use crate::settings::Settings;
use crate::startup::{ExitCause, Outcome};
use crate::types::{
    no_tokens, AppExitInfo, AuthMode, Build, Cli, CloudRequirements, Config, ConfigOverrides,
    CwdPromptAction, ExitReason, LoginStatus, Multiplexer, SessionSelection, SessionSources, ThreadQuery,
    ThreadSortKey, TokenUsage, UpdateAction,
};

verus! {

/// How many sessions are asked for when the last one is looked up.
pub const LATEST_PAGE_SIZE: usize = 1;

/// How the session ends.
pub enum SessionEnd {
    /// The error that came back is returned. This is its text.
    Error(String),
    /// The program exits with a message on stderr.
    Exit(ExitCause),
    /// The user chose to update.
    Update(UpdateAction),
    /// The user left the onboarding screens.
    Onboarding,
    /// There is no session of that name or id.
    NoSession { action: CwdPromptAction, id: String },
    /// The user left the session picker.
    PickerClosed,
    /// What the application returned is returned, or the error, with this text, that it
    /// ended with.
    App(Result<AppExitInfo, String>),
}

/// What is to be put in order before the session returns.
#[derive(Debug, Clone, Copy, PartialEq, Eq)]
pub enum CleanupStep {
    /// Give the terminal back as it was.
    RestoreTerminal,
    /// Mark the end of the recorded session.
    EndSessionLog,
    /// Clear the screen. Failing to does not matter.
    ClearScreen,
}

impl SessionEnd {
    /// A session that was opened gives the terminal back, and then closes its log. At
    /// last the screen is cleared, where the user has seen only the program's own
    /// screens or none. On errors, everything is left as it is.
    pub open spec fn tidies(self) -> Seq<CleanupStep> {
        if self is Onboarding || self is NoSession {
            seq![
                CleanupStep::RestoreTerminal,
                CleanupStep::EndSessionLog,
                CleanupStep::ClearScreen,
            ]
        } else if self is PickerClosed || self is App {
            seq![CleanupStep::RestoreTerminal, CleanupStep::EndSessionLog]
        } else {
            seq![]
        }
    }

    /// What is to be put in order before the session returns, in this order.
    pub fn cleanup(&self) -> (steps: Vec<CleanupStep>)
        ensures
            steps@ == self.tidies(),
    {
        let mut steps: Vec<CleanupStep> = Vec::new();
        match self {
            SessionEnd::Onboarding | SessionEnd::NoSession { .. } => {
                steps.push(CleanupStep::RestoreTerminal);
                steps.push(CleanupStep::EndSessionLog);
                steps.push(CleanupStep::ClearScreen);
            },
            SessionEnd::PickerClosed | SessionEnd::App(_) => {
                steps.push(CleanupStep::RestoreTerminal);
                steps.push(CleanupStep::EndSessionLog);
            },
            SessionEnd::Error(_) | SessionEnd::Exit(_) | SessionEnd::Update(_) => {},
        }
        steps
    }

    /// The session ends before the application has run, and not with an error.
    pub open spec fn is_early(self) -> bool {
        self is Update || self is Onboarding || self is NoSession || self is PickerClosed
    }

    /// `info` tells this end: no tokens were used, no thread was opened, the update
    /// is the one that was chosen, if any, and a session that was not found is fatal.
    pub open spec fn told_by(self, info: AppExitInfo) -> bool {
        &&& info.token_usage == no_tokens()
        &&& info.thread_id is None
        &&& info.thread_name is None
        &&& info.update_action == match self {
            SessionEnd::Update(action) => Some(action),
            _ => None,
        }
        &&& match self {
            SessionEnd::NoSession { action, id } => info.exit_reason matches ExitReason::Fatal(
                message,
            ) && message@ == no_session_text(action, id@),
            _ => info.exit_reason is UserRequested,
        }
    }

    /// The outcome is what comes of this end: an early end is told, and errors and
    /// what the application returned are handed on as they are.
    pub open spec fn comes_to(self, outcome: Outcome) -> bool {
        match self {
            SessionEnd::Error(error) => outcome == Outcome::Returned(Err(error)),
            SessionEnd::Exit(cause) => outcome == Outcome::Exited(cause),
            SessionEnd::App(result) => outcome == Outcome::Returned(result),
            _ => outcome matches Outcome::Returned(Ok(info)) && self.told_by(info),
        }
    }

    /// What comes of the session.
    pub fn outcome(self) -> (outcome: Outcome)
        ensures
            self.comes_to(outcome),
    {
        match self {
            SessionEnd::Error(error) => Outcome::Returned(Err(error)),
            SessionEnd::Exit(cause) => Outcome::Exited(cause),
            SessionEnd::App(result) => Outcome::Returned(result),
            SessionEnd::Update(action) => early(Some(action), ExitReason::UserRequested),
            SessionEnd::Onboarding | SessionEnd::PickerClosed => early(
                None,
                ExitReason::UserRequested,
            ),
            SessionEnd::NoSession { action, id } => early(
                None,
                ExitReason::Fatal(no_session_message(action, id.as_str())),
            ),
        }
    }
}

/// A session ends before the application has run.
fn early(update_action: Option<UpdateAction>, exit_reason: ExitReason) -> (outcome: Outcome)
    ensures
        outcome == Outcome::Returned(
            Ok(
                AppExitInfo {
                    token_usage: no_tokens(),
                    thread_id: None,
                    thread_name: None,
                    update_action,
                    exit_reason,
                },
            ),
        ),
{
    Outcome::Returned(
        Ok(
            AppExitInfo {
                token_usage: TokenUsage::default(),
                thread_id: None,
                thread_name: None,
                update_action,
                exit_reason,
            },
        ),
    )
}

/// What the session is waiting for.
pub enum SessionStep {
    InitTerminal,
    PromptUpdate,
    RestoreForUpdate { action: UpdateAction },
    StartLog,
    ReadCredentials,
    Onboard { status: LoginStatus, show_login: bool, show_trust: bool },
    Reload { refresh_cloud: bool },
    FindSession { action: CwdPromptAction, id: String, by_id: bool },
    FindLatest { action: CwdPromptAction },
    PickSession { action: CwdPromptAction },
    ResolveCwd { action: CwdPromptAction, path: PathBuf, search: CwdResolution },
    ReloadAt { selection: SessionSelection, fallback: Option<PathBuf> },
    ApplyResidency { selection: SessionSelection },
    DetectMultiplexer { selection: SessionSelection },
    RunApp { selection: SessionSelection, alt_screen: bool },
    Ended(SessionEnd),
}

/// What has come back from the outside.
pub enum SessionEvent {
    /// The work is done.
    Done,
    /// The work failed.
    Failed(String),
    /// The update that the user chose, if any.
    UpdateAnswered(Option<UpdateAction>),
    /// What reading the stored credentials gave.
    Credentials(Result<Option<AuthMode>, String>),
    /// How the user left the onboarding screens.
    Onboarded { should_exit: bool, trust_decided: bool },
    ConfigLoaded(Config),
    /// The rollout of the session that was looked for.
    Found(Option<PathBuf>),
    Picked(SessionSelection),
    Cwd(CwdEvent),
    Multiplexer(Option<Multiplexer>),
    /// What the application returned, or the text of its error.
    AppReturned(Result<AppExitInfo, String>),
}

/// What is to be done next.
pub enum SessionWork<'a> {
    /// Take over the terminal and clear it.
    InitTerminal,
    /// Offer an update, if there is one.
    PromptUpdate { config: &'a Config },
    /// Give the terminal back before the update.
    RestoreForUpdate,
    /// Start recording the session, and open the stored credentials.
    StartLog { config: &'a Config },
    /// Read how the user is logged in.
    ReadCredentials { config: &'a Config },
    /// Run the onboarding screens.
    Onboard {
        show_login_screen: bool,
        show_trust_screen: bool,
        login_status: LoginStatus,
        config: &'a Config,
    },
    /// Load the configuration again. Before that, where an address is given to ask for
    /// them, the requirements of the user's organisation are prepared anew.
    Reload {
        refresh_cloud: Option<&'a String>,
        cli_overrides: &'a Settings,
        overrides: &'a ConfigOverrides,
        requirements: CloudRequirements,
    },
    /// Find the rollout of the session with this id.
    FindById { home: &'a PathBuf, id: &'a String },
    /// Find the rollout of the session with this name.
    FindByName { home: &'a PathBuf, name: &'a String },
    /// List sessions.
    ListThreads { home: &'a PathBuf, query: ThreadQuery<'a> },
    /// Find the first of the sessions, in this directory if one is given.
    FindLatest { home: &'a PathBuf, query: ThreadQuery<'a>, cwd: Option<&'a PathBuf> },
    /// Let the user pick a session.
    PickSession {
        action: CwdPromptAction,
        home: &'a PathBuf,
        provider: &'a String,
        show_all: bool,
    },
    /// Read the rollout for its latest turn.
    ReadRollout(&'a PathBuf),
    /// Read the opening line of the rollout.
    ReadMeta(&'a PathBuf),
    /// Resolve both directories on disk.
    NormalizeCwds { current: &'a PathBuf, history: &'a PathBuf },
    /// Let the user choose between the directories.
    PromptCwd { action: CwdPromptAction, current: &'a PathBuf, history: &'a PathBuf },
    /// Load the configuration again, for this directory.
    ReloadAt {
        fallback_cwd: &'a Option<PathBuf>,
        cli_overrides: &'a Settings,
        overrides: &'a ConfigOverrides,
        requirements: CloudRequirements,
    },
    /// Apply the residency requirement of the configuration.
    ApplyResidency { requirement: &'a Option<String> },
    /// Look for a terminal multiplexer.
    DetectMultiplexer,
    /// Run the application.
    RunApp {
        config: &'a Config,
        cli_overrides: &'a Settings,
        overrides: &'a ConfigOverrides,
        active_profile: &'a Option<String>,
        selection: &'a SessionSelection,
        prompt: &'a Option<String>,
        images: &'a Vec<PathBuf>,
        alt_screen: bool,
        show_trust_screen: bool,
    },
    /// Nothing: the session is over.
    End(&'a SessionEnd),
}

/// A run of the program in the terminal.
pub struct Session {
    pub cli: Cli,
    pub build: Build,
    /// The `-c` overrides, parsed.
    pub cli_overrides: Settings,
    /// What else the command line overrides whenever the configuration is loaded.
    pub overrides: ConfigOverrides,
    /// Which requirements the configuration is loaded with.
    pub requirements: CloudRequirements,
    /// The configuration in effect.
    pub config: Config,
    pub step: SessionStep,
}

/// There is text to start with, so that the user is not to be held up.
pub open spec fn has_prompt(cli: Cli) -> bool {
    cli.prompt matches Some(prompt) && prompt@.len() > 0
}

impl Session {
    /// At most how many more events the session can take.
    pub open spec fn rank(self) -> nat {
        match self.step {
            SessionStep::InitTerminal => 16,
            SessionStep::PromptUpdate => 15,
            SessionStep::RestoreForUpdate { .. } => 1,
            SessionStep::StartLog => 14,
            SessionStep::ReadCredentials => 13,
            SessionStep::Onboard { .. } => 12,
            SessionStep::Reload { .. } => 11,
            SessionStep::FindSession { .. } | SessionStep::FindLatest { .. }
            | SessionStep::PickSession { .. } => 10,
            SessionStep::ResolveCwd { search, .. } => 5 + search.rank(),
            SessionStep::ReloadAt { .. } => 4,
            SessionStep::ApplyResidency { .. } => 3,
            SessionStep::DetectMultiplexer { .. } => 2,
            SessionStep::RunApp { .. } => 1,
            SessionStep::Ended(_) => 0,
        }
    }

    /// The event is what the step waits for.
    pub open spec fn awaits(self, event: SessionEvent) -> bool {
        match self.step {
            SessionStep::InitTerminal | SessionStep::RestoreForUpdate { .. } => event is Done
                || event is Failed,
            SessionStep::RunApp { .. } => event is AppReturned,
            SessionStep::PromptUpdate => event is UpdateAnswered || event is Failed,
            SessionStep::StartLog | SessionStep::ApplyResidency { .. } => event is Done,
            SessionStep::ReadCredentials => event is Credentials,
            SessionStep::Onboard { .. } => event is Onboarded || event is Failed,
            SessionStep::Reload { .. } | SessionStep::ReloadAt { .. } => event is ConfigLoaded
                || event is Failed,
            SessionStep::FindSession { .. } | SessionStep::FindLatest { .. } => event is Found
                || event is Failed,
            SessionStep::PickSession { .. } => event is Picked || event is Failed,
            SessionStep::ResolveCwd { search, .. } => {
                ||| event matches SessionEvent::Cwd(event) && (search.step is Resolved
                    || search.awaits(event))
                ||| event is Failed && search.step is Prompt
            },
            SessionStep::DetectMultiplexer { .. } => event is Multiplexer,
            SessionStep::Ended(_) => false,
        }
    }

    /// The same session, at another step.
    pub open spec fn at(self, step: SessionStep) -> Session {
        Session { step, ..self }
    }

    /// The same session, at its end.
    pub open spec fn ends(self, end: SessionEnd) -> Session {
        self.at(SessionStep::Ended(end))
    }

    /// The requirements that count once the user is onboarded: fresh ones for who has
    /// come past the login screen.
    pub open spec fn requirements_past_login(self, show_login: bool) -> CloudRequirements {
        if show_login {
            CloudRequirements::Refreshed
        } else {
            self.requirements
        }
    }

    /// The login status is known: the user is onboarded, if there is need.
    pub open spec fn greet(self, status: LoginStatus) -> Session {
        let show_trust = shows_trust(self.config, self.build.native_windows);
        let show_login = shows_login(status, self.config);
        if show_trust || show_login {
            self.at(SessionStep::Onboard { status, show_login, show_trust })
        } else {
            self.look_up()
        }
    }

    /// The session that the command line asks for is looked up.
    pub open spec fn look_up(self) -> Session {
        self.at(
            match requested_lookup(self.cli) {
                Lookup::Fresh => SessionStep::ApplyResidency {
                    selection: SessionSelection::StartFresh,
                },
                Lookup::Named { action, id, by_id } => SessionStep::FindSession {
                    action,
                    id,
                    by_id,
                },
                Lookup::Latest { action } => SessionStep::FindLatest { action },
                Lookup::Picker { action } => SessionStep::PickSession { action },
            },
        )
    }

    /// A new session is opened in the configuration at hand.
    pub open spec fn fresh(self) -> Session {
        self.at(SessionStep::ApplyResidency { selection: SessionSelection::StartFresh })
    }

    /// An earlier session is used: its directory is looked for. The user may be
    /// asked only if the command line gives no directory.
    pub open spec fn reuse(self, action: CwdPromptAction, path: PathBuf) -> Session {
        self.at(
            SessionStep::ResolveCwd {
                action,
                path,
                search: CwdResolution {
                    current: self.config.cwd,
                    allow_prompt: self.cli.cwd is None,
                    step: CwdStep::ReadRollout,
                },
            },
        )
    }

    /// The search for the directory has come this far.
    pub open spec fn searched(
        self,
        action: CwdPromptAction,
        path: PathBuf,
        search: CwdResolution,
    ) -> Session {
        self.at(
            match search.step {
                CwdStep::Resolved(fallback) => SessionStep::ReloadAt {
                    selection: selection_of(action, path),
                    fallback,
                },
                _ => SessionStep::ResolveCwd { action, path, search },
            },
        )
    }

    /// The application is run, on the screen that settings and terminal allow.
    pub open spec fn show(
        self,
        selection: SessionSelection,
        multiplexer: Option<Multiplexer>,
    ) -> Session {
        self.at(
            SessionStep::RunApp {
                selection,
                alt_screen: wants_alt_screen(
                    self.cli.no_alt_screen,
                    self.config.tui_alternate_screen,
                    multiplexer,
                ),
            },
        )
    }

    /// The session after a failure.
    pub open spec fn after_failure(self, error: String) -> Session {
        match self.step {
            SessionStep::Reload { .. } | SessionStep::ReloadAt { .. } => self.ends(
                SessionEnd::Exit(ExitCause::Config(error)),
            ),
            SessionStep::FindLatest { .. } => self.fresh(),
            _ => self.ends(SessionEnd::Error(error)),
        }
    }

    /// The session after an event. One that the step does not wait for changes nothing.
    pub open spec fn after(self, event: SessionEvent) -> Session {
        if !self.awaits(event) {
            self
        } else if let SessionEvent::Failed(error) = event {
            self.after_failure(error)
        } else {
            match (self.step, event) {
                (SessionStep::InitTerminal, _) => if self.build.release && !has_prompt(self.cli) {
                    self.at(SessionStep::PromptUpdate)
                } else {
                    self.at(SessionStep::StartLog)
                },
                (SessionStep::PromptUpdate, SessionEvent::UpdateAnswered(chosen)) => match chosen {
                    Some(action) => self.at(SessionStep::RestoreForUpdate { action }),
                    None => self.at(SessionStep::StartLog),
                },
                (SessionStep::RestoreForUpdate { action }, _) => self.ends(
                    SessionEnd::Update(action),
                ),
                (SessionStep::StartLog, _) => if self.config.requires_openai_auth {
                    self.at(SessionStep::ReadCredentials)
                } else {
                    self.greet(LoginStatus::NotAuthenticated)
                },
                (SessionStep::ReadCredentials, SessionEvent::Credentials(stored)) => self.greet(
                    login_status(self.config.requires_openai_auth, stored),
                ),
                (
                    SessionStep::Onboard { show_login, .. },
                    SessionEvent::Onboarded { should_exit, trust_decided },
                ) => if should_exit {
                    self.ends(SessionEnd::Onboarding)
                } else if trust_decided || show_login {
                    Session {
                        requirements: self.requirements_past_login(show_login),
                        step: SessionStep::Reload { refresh_cloud: show_login },
                        ..self
                    }
                } else {
                    self.look_up()
                },
                (SessionStep::Reload { .. }, SessionEvent::ConfigLoaded(config)) => Session {
                    config,
                    ..self
                }.look_up(),
                (SessionStep::FindSession { action, id, .. }, SessionEvent::Found(found)) => match found {
                    Some(path) => self.reuse(action, path),
                    None => self.ends(SessionEnd::NoSession { action, id }),
                },
                (SessionStep::FindLatest { action }, SessionEvent::Found(found)) => match found {
                    Some(path) => self.reuse(action, path),
                    None => self.fresh(),
                },
                (SessionStep::PickSession { .. }, SessionEvent::Picked(selection)) => match selection {
                    SessionSelection::StartFresh => self.fresh(),
                    SessionSelection::Resume(path) => self.reuse(CwdPromptAction::Resume, path),
                    SessionSelection::Fork(path) => self.reuse(CwdPromptAction::Fork, path),
                    SessionSelection::Exit => self.ends(SessionEnd::PickerClosed),
                },
                (SessionStep::ResolveCwd { action, path, search }, SessionEvent::Cwd(event)) => self.searched(
                    action,
                    path,
                    search.after(event),
                ),
                (SessionStep::ReloadAt { selection, .. }, SessionEvent::ConfigLoaded(config)) => Session {
                    config,
                    ..self
                }.at(SessionStep::ApplyResidency { selection }),
                (SessionStep::ApplyResidency { selection }, _) => if multiplexer_decides(
                    self.cli.no_alt_screen,
                    self.config.tui_alternate_screen,
                ) {
                    self.at(SessionStep::DetectMultiplexer { selection })
                } else {
                    self.show(selection, None)
                },
                (
                    SessionStep::DetectMultiplexer { selection },
                    SessionEvent::Multiplexer(multiplexer),
                ) => self.show(selection, multiplexer),
                (SessionStep::RunApp { .. }, SessionEvent::AppReturned(result)) => self.ends(
                    SessionEnd::App(result),
                ),
                _ => self,
            }
        }
    }

    /// What is remembered from step to step fits together.
    pub open spec fn wf(self) -> bool {
        match self.step {
            SessionStep::ReadCredentials => self.config.requires_openai_auth,
            SessionStep::Onboard { status, show_login, show_trust } => {
                &&& show_trust == shows_trust(self.config, self.build.native_windows)
                &&& show_login == shows_login(status, self.config)
                &&& show_trust || show_login
            },
            SessionStep::Reload { refresh_cloud } => refresh_cloud ==> self.requirements is Refreshed,
            SessionStep::FindSession { action, id, by_id } => requested_lookup(self.cli)
                == (Lookup::Named { action, id, by_id }),
            SessionStep::FindLatest { action } => requested_lookup(self.cli) == (Lookup::Latest {
                action,
            }),
            SessionStep::PickSession { action } => requested_lookup(self.cli) == (Lookup::Picker {
                action,
            }),
            SessionStep::ResolveCwd { search, .. } => {
                &&& search.current == self.config.cwd
                &&& search.allow_prompt == self.cli.cwd is None
                &&& !(search.step is Resolved)
                &&& search.wf()
            },
            SessionStep::ReloadAt { selection, .. } => selection is Resume || selection is Fork,
            SessionStep::ApplyResidency { selection } => !(selection is Exit),
            SessionStep::DetectMultiplexer { selection } => {
                &&& !(selection is Exit)
                &&& multiplexer_decides(self.cli.no_alt_screen, self.config.tui_alternate_screen)
            },
            SessionStep::RunApp { selection, .. } => !(selection is Exit),
            SessionStep::Ended(SessionEnd::NoSession { action, id }) => requested_lookup(self.cli)
                == (Lookup::Named { action, id, by_id: is_uuid(id@) }),
            SessionStep::Ended(SessionEnd::Exit(cause)) => cause is Config,
            _ => true,
        }
    }

    /// The directory that limits the search for the last session: the current one,
    /// unless all sessions count.
    pub open spec fn latest_cwd(&self) -> Option<&PathBuf> {
        if self.cli.resume_show_all {
            None
        } else {
            Some(&self.config.cwd)
        }
    }

    /// The sessions to look among for the last one: those of the provider at hand
    /// that a user took part in, by their last use.
    pub open spec fn latest_query(&self) -> ThreadQuery<'_> {
        ThreadQuery {
            page_size: LATEST_PAGE_SIZE,
            sort_key: ThreadSortKey::UpdatedAt,
            sources: SessionSources::Interactive,
            provider_filter: &self.config.model_provider_id,
            default_provider: &self.config.model_provider_id,
        }
    }

    /// Where to ask for the requirements of the user's organisation, if that is due.
    pub open spec fn cloud_address(&self, refresh: bool) -> Option<&String> {
        if refresh {
            Some(&self.config.chatgpt_base_url)
        } else {
            None
        }
    }

    /// The work is what the step calls for.
    pub open spec fn calls_for(self, work: SessionWork) -> bool {
        match self.step {
            SessionStep::InitTerminal => work is InitTerminal,
            SessionStep::PromptUpdate => work == (SessionWork::PromptUpdate {
                config: &self.config,
            }),
            SessionStep::RestoreForUpdate { .. } => work is RestoreForUpdate,
            SessionStep::StartLog => work == (SessionWork::StartLog { config: &self.config }),
            SessionStep::ReadCredentials => work == (SessionWork::ReadCredentials {
                config: &self.config,
            }),
            SessionStep::Onboard { status, show_login, show_trust } => work
                == (SessionWork::Onboard {
                show_login_screen: show_login,
                show_trust_screen: show_trust,
                login_status: status,
                config: &self.config,
            }),
            SessionStep::Reload { refresh_cloud } => work == (SessionWork::Reload {
                refresh_cloud: self.cloud_address(refresh_cloud),
                cli_overrides: &self.cli_overrides,
                overrides: &self.overrides,
                requirements: self.requirements,
            }),
            SessionStep::FindSession { id, by_id, .. } => if by_id {
                work == (SessionWork::FindById { home: &self.config.codex_home, id: &id })
            } else {
                work == (SessionWork::FindByName { home: &self.config.codex_home, name: &id })
            },
            SessionStep::FindLatest { action } => match action {
                CwdPromptAction::Fork => work == (SessionWork::ListThreads {
                    home: &self.config.codex_home,
                    query: self.latest_query(),
                }),
                CwdPromptAction::Resume => work == (SessionWork::FindLatest {
                    home: &self.config.codex_home,
                    query: self.latest_query(),
                    cwd: self.latest_cwd(),
                }),
            },
            SessionStep::PickSession { action } => work == (SessionWork::PickSession {
                action,
                home: &self.config.codex_home,
                provider: &self.config.model_provider_id,
                show_all: shows_all(self.cli, action),
            }),
            SessionStep::ResolveCwd { action, path, search } => match search.step {
                CwdStep::ReadRollout => work == SessionWork::ReadRollout(&path),
                CwdStep::ReadMeta => work == SessionWork::ReadMeta(&path),
                CwdStep::Compare { history } => work == (SessionWork::NormalizeCwds {
                    current: &search.current,
                    history: &history,
                }),
                CwdStep::Prompt { history } => work == (SessionWork::PromptCwd {
                    action,
                    current: &search.current,
                    history: &history,
                }),
                CwdStep::Resolved(fallback) => work == (SessionWork::ReloadAt {
                    fallback_cwd: &fallback,
                    cli_overrides: &self.cli_overrides,
                    overrides: &self.overrides,
                    requirements: self.requirements,
                }),
            },
            SessionStep::ReloadAt { fallback, .. } => work == (SessionWork::ReloadAt {
                fallback_cwd: &fallback,
                cli_overrides: &self.cli_overrides,
                overrides: &self.overrides,
                requirements: self.requirements,
            }),
            SessionStep::ApplyResidency { .. } => work == (SessionWork::ApplyResidency {
                requirement: &self.config.enforce_residency,
            }),
            SessionStep::DetectMultiplexer { .. } => work is DetectMultiplexer,
            SessionStep::RunApp { selection, alt_screen } => work == (SessionWork::RunApp {
                config: &self.config,
                cli_overrides: &self.cli_overrides,
                overrides: &self.overrides,
                active_profile: &self.config.active_profile,
                selection: &selection,
                prompt: &self.cli.prompt,
                images: &self.cli.images,
                alt_screen,
                show_trust_screen: shows_trust(self.config, self.build.native_windows),
            }),
            SessionStep::Ended(end) => work == SessionWork::End(&end),
        }
    }

    /// What is remembered keeps fitting together.
    #[verifier::rlimit(40)]
    pub(crate) proof fn lemma_after_fits(self, event: SessionEvent)
        requires
            self.wf(),
        ensures
            self.after(event).wf(),
    {
        let next = self.after(event);
        if !self.awaits(event) {
        } else if let SessionEvent::Failed(error) = event {
            assert(self.after_failure(error).wf());
        } else {
            match self.step {
                SessionStep::StartLog | SessionStep::ReadCredentials | SessionStep::Onboard {
                    ..
                } | SessionStep::Reload { .. } => {
                    assert(next.wf());
                },
                SessionStep::ResolveCwd { search, .. } => {
                    assert(next.wf());
                },
                SessionStep::FindSession { .. } | SessionStep::FindLatest { .. }
                | SessionStep::PickSession { .. } => {
                    assert(next.wf());
                },
                _ => {
                    assert(next.wf());
                },
            }
        }
    }

    /// An event that is awaited brings the session nearer to its end.
    #[verifier::rlimit(40)]
    pub(crate) proof fn lemma_after_is_nearer(self, event: SessionEvent)
        requires
            self.awaits(event),
        ensures
            self.after(event).rank() < self.rank(),
    {
        if let SessionEvent::Failed(error) = event {
            assert(self.after_failure(error).rank() < self.rank());
        } else {
            match self.step {
                SessionStep::ResolveCwd { search, .. } => {
                    assert(self.after(event).rank() < self.rank());
                },
                SessionStep::FindSession { .. } | SessionStep::FindLatest { .. }
                | SessionStep::PickSession { .. } => {
                    assert(self.after(event).rank() < self.rank());
                },
                _ => {
                    assert(self.after(event).rank() < self.rank());
                },
            }
        }
    }

    /// The sessions to look among for the last one.
    fn query(&self) -> (query: ThreadQuery<'_>)
        ensures
            query == self.latest_query(),
    {
        ThreadQuery {
            page_size: LATEST_PAGE_SIZE,
            sort_key: ThreadSortKey::UpdatedAt,
            sources: SessionSources::Interactive,
            provider_filter: &self.config.model_provider_id,
            default_provider: &self.config.model_provider_id,
        }
    }

    /// What is to be done next.
    pub fn work(&self) -> (work: SessionWork<'_>)
        ensures
            self.calls_for(work),
    {
        match &self.step {
            SessionStep::InitTerminal => SessionWork::InitTerminal,
            SessionStep::PromptUpdate => SessionWork::PromptUpdate { config: &self.config },
            SessionStep::RestoreForUpdate { .. } => SessionWork::RestoreForUpdate,
            SessionStep::StartLog => SessionWork::StartLog { config: &self.config },
            SessionStep::ReadCredentials => SessionWork::ReadCredentials { config: &self.config },
            SessionStep::Onboard { status, show_login, show_trust } => SessionWork::Onboard {
                show_login_screen: *show_login,
                show_trust_screen: *show_trust,
                login_status: *status,
                config: &self.config,
            },
            SessionStep::Reload { refresh_cloud } => SessionWork::Reload {
                refresh_cloud: if *refresh_cloud {
                    Some(&self.config.chatgpt_base_url)
                } else {
                    None
                },
                cli_overrides: &self.cli_overrides,
                overrides: &self.overrides,
                requirements: self.requirements,
            },
            SessionStep::FindSession { id, by_id, .. } => if *by_id {
                SessionWork::FindById { home: &self.config.codex_home, id }
            } else {
                SessionWork::FindByName { home: &self.config.codex_home, name: id }
            },
            SessionStep::FindLatest { action } => match action {
                CwdPromptAction::Fork => SessionWork::ListThreads {
                    home: &self.config.codex_home,
                    query: self.query(),
                },
                CwdPromptAction::Resume => SessionWork::FindLatest {
                    home: &self.config.codex_home,
                    query: self.query(),
                    cwd: if self.cli.resume_show_all {
                        None
                    } else {
                        Some(&self.config.cwd)
                    },
                },
            },
            SessionStep::PickSession { action } => SessionWork::PickSession {
                action: *action,
                home: &self.config.codex_home,
                provider: &self.config.model_provider_id,
                show_all: show_all(&self.cli, *action),
            },
            SessionStep::ResolveCwd { action, path, search } => match &search.step {
                CwdStep::ReadRollout => SessionWork::ReadRollout(path),
                CwdStep::ReadMeta => SessionWork::ReadMeta(path),
                CwdStep::Compare { history } => SessionWork::NormalizeCwds {
                    current: &search.current,
                    history,
                },
                CwdStep::Prompt { history } => SessionWork::PromptCwd {
                    action: *action,
                    current: &search.current,
                    history,
                },
                CwdStep::Resolved(fallback) => SessionWork::ReloadAt {
                    fallback_cwd: fallback,
                    cli_overrides: &self.cli_overrides,
                    overrides: &self.overrides,
                    requirements: self.requirements,
                },
            },
            SessionStep::ReloadAt { fallback, .. } => SessionWork::ReloadAt {
                fallback_cwd: fallback,
                cli_overrides: &self.cli_overrides,
                overrides: &self.overrides,
                requirements: self.requirements,
            },
            SessionStep::ApplyResidency { .. } => SessionWork::ApplyResidency {
                requirement: &self.config.enforce_residency,
            },
            SessionStep::DetectMultiplexer { .. } => SessionWork::DetectMultiplexer,
            SessionStep::RunApp { selection, alt_screen } => SessionWork::RunApp {
                config: &self.config,
                cli_overrides: &self.cli_overrides,
                overrides: &self.overrides,
                active_profile: &self.config.active_profile,
                selection,
                prompt: &self.cli.prompt,
                images: &self.cli.images,
                alt_screen: *alt_screen,
                show_trust_screen: should_show_trust_screen(
                    &self.config,
                    self.build.native_windows,
                ),
            },
            SessionStep::Ended(end) => SessionWork::End(end),
        }
    }

    /// How the session that the command line asks for is looked up.
    fn first_step(&self) -> (step: SessionStep)
        ensures
            step == self.look_up().step,
    {
        match session_lookup(&self.cli) {
            Lookup::Fresh => fresh_session(),
            Lookup::Named { action, id, by_id } => SessionStep::FindSession { action, id, by_id },
            Lookup::Latest { action } => SessionStep::FindLatest { action },
            Lookup::Picker { action } => SessionStep::PickSession { action },
        }
    }

    /// Onboarding, if there is need, and the lookup otherwise.
    fn greeting(&self, status: LoginStatus) -> (step: SessionStep)
        ensures
            step == self.greet(status).step,
    {
        let show_trust = should_show_trust_screen(&self.config, self.build.native_windows);
        if should_show_onboarding(status, &self.config, show_trust) {
            let show_login = should_show_login_screen(status, &self.config);
            SessionStep::Onboard { status, show_login, show_trust }
        } else {
            self.first_step()
        }
    }

    /// The search for the directory of an earlier session.
    fn reusing(&self, action: CwdPromptAction, path: PathBuf) -> (step: SessionStep)
        ensures
            step == self.reuse(action, path).step,
    {
        let search = resolve_cwd_for_resume_or_fork(self.config.cwd.clone(), self.cli.cwd.is_none());
        SessionStep::ResolveCwd { action, path, search }
    }

    /// The application, on the screen that settings and terminal allow.
    fn showing(&self, selection: SessionSelection, multiplexer: Option<Multiplexer>) -> (step:
        SessionStep)
        ensures
            step == self.show(selection, multiplexer).step,
    {
        let alt_screen = determine_alt_screen_mode(
            self.cli.no_alt_screen,
            self.config.tui_alternate_screen,
            multiplexer,
        );
        SessionStep::RunApp { selection, alt_screen }
    }

    /// Whether an update is offered: not in debug builds, and not to a user who has
    /// given a prompt already.
    fn prompts_for_update(&self) -> (prompts: bool)
        ensures
            prompts == (self.build.release && !has_prompt(self.cli)),
    {
        let skip = match &self.cli.prompt {
            Some(prompt) => !prompt.as_str().is_empty(),
            None => false,
        };
        self.build.release && !skip
    }

    /// Takes in what has come back from the outside.
    #[verifier::rlimit(40)]
    pub fn advance(self, event: SessionEvent) -> (next: Session)
        ensures
            next == self.after(event),
            next.cli == self.cli,
            next.build == self.build,
            next.cli_overrides == self.cli_overrides,
            next.overrides == self.overrides,
            self.wf() ==> next.wf(),
            self.awaits(event) ==> next.rank() < self.rank(),
            !self.awaits(event) ==> next == self,
    {
        proof {
            if self.wf() {
                self.lemma_after_fits(event);
            }
            if self.awaits(event) {
                self.lemma_after_is_nearer(event);
            }
        }
        match event {
            SessionEvent::Failed(error) => self.fail(error),
            event => match self.step {
                SessionStep::InitTerminal
                | SessionStep::PromptUpdate
                | SessionStep::RestoreForUpdate { .. }
                | SessionStep::StartLog
                | SessionStep::ReadCredentials
                | SessionStep::Onboard { .. }
                | SessionStep::Reload { .. } => self.prepare(event),
                _ => self.enter(event),
            },
        }
    }

    /// The session after a failure.
    #[verifier::rlimit(40)]
    fn fail(self, error: String) -> (next: Session)
        ensures
            next == self.after(SessionEvent::Failed(error)),
    {
        let Session { cli, build, cli_overrides, overrides, requirements, config, step } = self;
        let step = match step {
            SessionStep::Reload { .. } | SessionStep::ReloadAt { .. } => ended(
                SessionEnd::Exit(ExitCause::Config(error)),
            ),
            SessionStep::FindLatest { .. } => fresh_session(),
            SessionStep::InitTerminal
            | SessionStep::PromptUpdate
            | SessionStep::RestoreForUpdate { .. }
            | SessionStep::Onboard { .. }
            | SessionStep::FindSession { .. }
            | SessionStep::PickSession { .. }
            | SessionStep::ResolveCwd {
                search: CwdResolution { step: CwdStep::Prompt { .. }, .. },
                ..
            } => ended(SessionEnd::Error(error)),
            step => step,
        };
        Session { cli, build, cli_overrides, overrides, requirements, config, step }
    }

    /// From the terminal up to the choice of a session.
    #[verifier::rlimit(40)]
    fn prepare(self, event: SessionEvent) -> (next: Session)
        requires
            self.rank() > 10 || self.step is RestoreForUpdate,
            !(event is Failed),
        ensures
            next == self.after(event),
    {
        let Session { cli, build, cli_overrides, overrides, requirements, config, step } = self;
        let mut next = Session {
            cli,
            build,
            cli_overrides,
            overrides,
            requirements,
            config,
            step: SessionStep::StartLog,
        };
        next.step = match (step, event) {
            (SessionStep::InitTerminal, SessionEvent::Done) => if next.prompts_for_update() {
                SessionStep::PromptUpdate
            } else {
                SessionStep::StartLog
            },
            (SessionStep::PromptUpdate, SessionEvent::UpdateAnswered(chosen)) => match chosen {
                Some(action) => SessionStep::RestoreForUpdate { action },
                None => SessionStep::StartLog,
            },
            (SessionStep::RestoreForUpdate { action }, SessionEvent::Done) => ended(
                SessionEnd::Update(action),
            ),
            (SessionStep::StartLog, SessionEvent::Done) => if next.config.requires_openai_auth {
                SessionStep::ReadCredentials
            } else {
                next.greeting(LoginStatus::NotAuthenticated)
            },
            (SessionStep::ReadCredentials, SessionEvent::Credentials(stored)) => {
                let status = get_login_status(&next.config, stored);
                next.greeting(status)
            },
            (
                SessionStep::Onboard { show_login, .. },
                SessionEvent::Onboarded { should_exit, trust_decided },
            ) => if should_exit {
                ended(SessionEnd::Onboarding)
            } else if trust_decided || show_login {
                if show_login {
                    next.requirements = CloudRequirements::Refreshed;
                }
                SessionStep::Reload { refresh_cloud: show_login }
            } else {
                next.first_step()
            },
            (SessionStep::Reload { .. }, SessionEvent::ConfigLoaded(config)) => {
                next.config = config;
                next.first_step()
            },
            (step, _) => step,
        };
        next
    }

    /// From the choice of a session to its end.
    #[verifier::rlimit(40)]
    fn enter(self, event: SessionEvent) -> (next: Session)
        requires
            self.rank() <= 10,
            !(self.step is RestoreForUpdate),
            !(event is Failed),
        ensures
            next == self.after(event),
    {
        let Session { cli, build, cli_overrides, overrides, requirements, config, step } = self;
        let mut next = Session {
            cli,
            build,
            cli_overrides,
            overrides,
            requirements,
            config,
            step: SessionStep::StartLog,
        };
        next.step = match (step, event) {
            (SessionStep::FindSession { action, id, .. }, SessionEvent::Found(found)) => match found {
                Some(path) => next.reusing(action, path),
                None => ended(SessionEnd::NoSession { action, id }),
            },
            (SessionStep::FindLatest { action }, SessionEvent::Found(found)) => match found {
                Some(path) => next.reusing(action, path),
                None => fresh_session(),
            },
            (SessionStep::PickSession { .. }, SessionEvent::Picked(selection)) => match selection {
                SessionSelection::StartFresh => fresh_session(),
                SessionSelection::Resume(path) => next.reusing(CwdPromptAction::Resume, path),
                SessionSelection::Fork(path) => next.reusing(CwdPromptAction::Fork, path),
                SessionSelection::Exit => ended(SessionEnd::PickerClosed),
            },
            (SessionStep::ResolveCwd { action, path, search }, SessionEvent::Cwd(event)) => {
                let CwdResolution { current, allow_prompt, step } = search.advance(event);
                match step {
                    CwdStep::Resolved(fallback) => SessionStep::ReloadAt {
                        selection: select(action, path),
                        fallback,
                    },
                    step => SessionStep::ResolveCwd {
                        action,
                        path,
                        search: CwdResolution { current, allow_prompt, step },
                    },
                }
            },
            (SessionStep::ReloadAt { selection, .. }, SessionEvent::ConfigLoaded(config)) => {
                next.config = config;
                SessionStep::ApplyResidency { selection }
            },
            (SessionStep::ApplyResidency { selection }, SessionEvent::Done) => if needs_multiplexer(
                next.cli.no_alt_screen,
                next.config.tui_alternate_screen,
            ) {
                SessionStep::DetectMultiplexer { selection }
            } else {
                next.showing(selection, None)
            },
            (
                SessionStep::DetectMultiplexer { selection },
                SessionEvent::Multiplexer(multiplexer),
            ) => next.showing(selection, multiplexer),
            (SessionStep::RunApp { .. }, SessionEvent::AppReturned(result)) => ended(
                SessionEnd::App(result),
            ),
            (step, _) => step,
        };
        next
    }
}

/// The session is over.
fn ended(end: SessionEnd) -> (step: SessionStep)
    ensures
        step == SessionStep::Ended(end),
{
    SessionStep::Ended(end)
}

/// A new session is opened.
fn fresh_session() -> (step: SessionStep)
    ensures
        step == (SessionStep::ApplyResidency { selection: SessionSelection::StartFresh }),
{
    SessionStep::ApplyResidency { selection: SessionSelection::StartFresh }
}

/// What the user is told when the terminal could not be given back.
pub open spec fn restore_failure_text(error: Seq<char>) -> Seq<char> {
    "failed to restore terminal. Run `reset` or restart your terminal to recover: "@ + error
}

/// What the user is told when the terminal could not be given back. That it could
/// not does not change what the session returns.
pub fn restore_failure_message(error: &str) -> (message: String)
    ensures
        message@ == restore_failure_text(error@),
{
    "failed to restore terminal. Run `reset` or restart your terminal to recover: ".to_owned().concat(
        error,
    )
}

/// The run begins with the terminal. The overrides are those that the initial
/// configuration was loaded with.
pub fn run_ratatui_app(
    cli: Cli,
    initial_config: Config,
    overrides: ConfigOverrides,
    cli_kv_overrides: Settings,
    build: Build,
) -> (session: Session)
    ensures
        session == (Session {
            cli,
            build,
            cli_overrides: cli_kv_overrides,
            overrides,
            requirements: CloudRequirements::Initial,
            config: initial_config,
            step: SessionStep::InitTerminal,
        }),
        session.wf(),
{
    Session {
        cli,
        build,
        cli_overrides: cli_kv_overrides,
        overrides,
        requirements: CloudRequirements::Initial,
        config: initial_config,
        step: SessionStep::InitTerminal,
    }
}

} // verus!
