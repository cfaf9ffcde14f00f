use std::path::PathBuf;

use codex_tui::cwd::CwdEvent;
use codex_tui::overrides::config_overrides;
use codex_tui::session::{
    restore_failure_message, run_ratatui_app, CleanupStep, Session, SessionEnd, SessionEvent,
    SessionStep, SessionWork,
};
use codex_tui::startup::{ExitCause, Outcome};
use codex_tui::types::{
    AltScreenMode, AppExitInfo, AskForApproval, AuthMode, Build, Cli, CloudRequirements, Config,
    CwdPromptAction, CwdSelection, ExitReason, Multiplexer, SandboxMode, SessionSelection, SessionSources,
    ThreadQuery, ThreadSortKey, TokenUsage, TrustLevel, UpdateAction, WindowsSandboxLevel,
};
use codex_tui::LoginStatus;

const BUILD: Build = Build { native_windows: false, release: false };

fn cli() -> Cli {
    Cli {
        prompt: None,
        images: Vec::new(),
        model: None,
        oss: false,
        oss_provider: None,
        config_profile: None,
        sandbox_mode: None,
        approval_policy: None,
        full_auto: false,
        dangerously_bypass_approvals_and_sandbox: false,
        cwd: None,
        web_search: false,
        add_dir: Vec::new(),
        no_alt_screen: false,
        raw_overrides: Vec::new(),
        resume_picker: false,
        resume_last: false,
        resume_session_id: None,
        resume_show_all: false,
        fork_picker: false,
        fork_last: false,
        fork_session_id: None,
        fork_show_all: false,
    }
}

/// Nothing to ask: the project is trusted, and the provider wants no login.
fn config() -> Config {
    Config {
        codex_home: PathBuf::from("/home/.codex"),
        cwd: PathBuf::from("/now"),
        model_provider_id: "mock".to_string(),
        active_profile: Some("initial".to_string()),
        enforce_residency: None,
        chatgpt_base_url: "http://backend/".to_string(),
        requires_openai_auth: false,
        did_user_set_custom_approval_policy_or_sandbox_mode: false,
        trust_level: Some(TrustLevel::Trusted),
        windows_sandbox_level: WindowsSandboxLevel::Disabled,
        tui_alternate_screen: AltScreenMode::Always,
    }
}

fn failed() -> SessionEvent {
    SessionEvent::Failed("broken".to_string())
}

/// A run with the overrides of its command line.
fn started(cli: Cli, config: Config, build: Build) -> Session {
    let overrides = config_overrides(&cli, &None, &None, &None);
    let settings = vec![("a".to_string(), toml::Value::Integer(1))];
    run_ratatui_app(cli, config, overrides, settings, build)
}

/// Past the terminal and the session log.
fn opened(cli: Cli, config: Config) -> Session {
    started(cli, config, BUILD).advance(SessionEvent::Done).advance(SessionEvent::Done)
}

fn end(session: &Session) -> &SessionEnd {
    match &session.step {
        SessionStep::Ended(end) => end,
        _ => panic!("the session is not over"),
    }
}

/// What the session returns.
fn returned(session: Session) -> Result<AppExitInfo, String> {
    match session.step {
        SessionStep::Ended(end) => match end.outcome() {
            Outcome::Returned(result) => result,
            Outcome::Exited(_) => panic!("the program exits"),
        },
        _ => panic!("the session is not over"),
    }
}

fn info() -> AppExitInfo {
    AppExitInfo {
        token_usage: TokenUsage { total_tokens: 7, ..TokenUsage::default() },
        thread_id: Some("thread".to_string()),
        thread_name: Some("name".to_string()),
        update_action: None,
        exit_reason: ExitReason::UserRequested,
    }
}

const FULL_CLEANUP: [CleanupStep; 3] =
    [CleanupStep::RestoreTerminal, CleanupStep::EndSessionLog, CleanupStep::ClearScreen];
const PLAIN_CLEANUP: [CleanupStep; 2] = [CleanupStep::RestoreTerminal, CleanupStep::EndSessionLog];

fn is_latest_query(query: ThreadQuery) -> bool {
    query.page_size == 1
        && query.sort_key == ThreadSortKey::UpdatedAt
        && query.sources == SessionSources::Interactive
        && query.provider_filter == "mock"
        && query.default_provider == "mock"
}

#[test]
fn new_session_goes_straight_to_the_application() {
    let mut given = cli();
    given.prompt = Some("hello".to_string());
    given.images = vec![PathBuf::from("/a.png")];
    let session = started(given, config(), BUILD);
    assert!(matches!(session.work(), SessionWork::InitTerminal));
    let session = session.advance(SessionEvent::Done);
    assert!(matches!(session.work(), SessionWork::StartLog { .. }));
    let session = session.advance(SessionEvent::Done);
    assert!(matches!(session.work(), SessionWork::ApplyResidency { .. }));
    let session = session.advance(SessionEvent::Done);
    assert!(matches!(
        session.work(),
        SessionWork::RunApp {
            selection: SessionSelection::StartFresh,
            prompt: Some(prompt),
            images,
            alt_screen: true,
            show_trust_screen: false,
            ..
        } if prompt == "hello" && images == &vec![PathBuf::from("/a.png")]
    ));
    let session = session.advance(SessionEvent::AppReturned(Ok(info())));
    assert_eq!(end(&session).cleanup(), PLAIN_CLEANUP);
    assert_eq!(returned(session), Ok(info()));
}

#[test]
fn update_is_offered_in_release_builds_without_a_prompt() {
    let release = Build { native_windows: false, release: true };
    let session = started(cli(), config(), release).advance(SessionEvent::Done);
    assert!(matches!(session.work(), SessionWork::PromptUpdate { .. }));
    let session = session.advance(SessionEvent::UpdateAnswered(None));
    assert!(matches!(session.work(), SessionWork::StartLog { .. }));

    let mut given = cli();
    given.prompt = Some(String::new());
    let session = started(given.clone(), config(), release).advance(SessionEvent::Done);
    assert!(matches!(session.work(), SessionWork::PromptUpdate { .. }));

    given.prompt = Some("go".to_string());
    let session = started(given, config(), release).advance(SessionEvent::Done);
    assert!(matches!(session.work(), SessionWork::StartLog { .. }));

    let session = started(cli(), config(), BUILD).advance(SessionEvent::Done);
    assert!(matches!(session.work(), SessionWork::StartLog { .. }));
}

#[test]
fn chosen_update_gives_the_terminal_back_first() {
    let update = UpdateAction { command: "npm install -g @openai/codex".to_string() };
    let release = Build { native_windows: false, release: true };
    let session = started(cli(), config(), release)
        .advance(SessionEvent::Done)
        .advance(SessionEvent::UpdateAnswered(Some(update.clone())));
    assert!(matches!(session.work(), SessionWork::RestoreForUpdate));
    let session = session.advance(SessionEvent::Done);
    assert!(matches!(end(&session), SessionEnd::Update(chosen) if chosen == &update));
    assert_eq!(end(&session).cleanup(), Vec::new());
    let info = returned(session).expect("the session ends early");
    assert_eq!(info.update_action, Some(update));
    assert_eq!(info.exit_reason, ExitReason::UserRequested);
    assert_eq!(info.token_usage, TokenUsage::default());
    assert_eq!(info.token_usage.total_tokens, 0);
    assert_eq!(info.thread_id, None);
    assert_eq!(info.thread_name, None);
}

#[test]
fn credentials_are_read_only_for_openai_providers() {
    let mut wanted = config();
    wanted.requires_openai_auth = true;
    let session = opened(cli(), wanted.clone());
    assert!(matches!(session.work(), SessionWork::ReadCredentials { .. }));
    let session = session.advance(SessionEvent::Credentials(Ok(Some(AuthMode::ChatGPT))));
    assert!(matches!(session.work(), SessionWork::ApplyResidency { .. }));

    let session = opened(cli(), wanted)
        .advance(SessionEvent::Credentials(Err("unreadable".to_string())));
    assert!(matches!(
        session.work(),
        SessionWork::Onboard {
            show_login_screen: true,
            show_trust_screen: false,
            login_status: LoginStatus::NotAuthenticated,
            ..
        }
    ));
}

#[test]
fn onboarding_for_trust_reloads_only_after_a_decision() {
    let mut undecided = config();
    undecided.trust_level = None;
    let session = opened(cli(), undecided.clone());
    assert!(matches!(
        session.work(),
        SessionWork::Onboard { show_login_screen: false, show_trust_screen: true, .. }
    ));
    let session =
        session.advance(SessionEvent::Onboarded { should_exit: false, trust_decided: false });
    assert!(matches!(session.work(), SessionWork::ApplyResidency { .. }));

    let session = opened(cli(), undecided.clone())
        .advance(SessionEvent::Onboarded { should_exit: false, trust_decided: true });
    assert!(matches!(session.work(), SessionWork::Reload { refresh_cloud: None, requirements: CloudRequirements::Initial, .. }));
    let session = session.advance(SessionEvent::ConfigLoaded(config()));
    assert!(matches!(session.work(), SessionWork::ApplyResidency { .. }));

    let session = opened(cli(), undecided)
        .advance(SessionEvent::Onboarded { should_exit: true, trust_decided: true });
    assert!(matches!(end(&session), SessionEnd::Onboarding));
    assert_eq!(end(&session).cleanup(), FULL_CLEANUP);
    let info = returned(session).expect("the session ends early");
    assert_eq!(info.update_action, None);
    assert_eq!(info.exit_reason, ExitReason::UserRequested);
}

#[test]
fn onboarding_past_login_reloads_with_fresh_requirements() {
    let mut wanted = config();
    wanted.requires_openai_auth = true;
    let session = opened(cli(), wanted)
        .advance(SessionEvent::Credentials(Ok(None)))
        .advance(SessionEvent::Onboarded { should_exit: false, trust_decided: false });
    assert!(matches!(
        session.work(),
        SessionWork::Reload { refresh_cloud: Some(address), .. } if address == "http://backend/"
    ));
    let session = session.advance(failed());
    assert!(matches!(end(&session), SessionEnd::Exit(ExitCause::Config(_))));
    match end(&session) {
        SessionEnd::Exit(cause) => {
            assert_eq!(cause.message(), "Error loading configuration: broken")
        }
        _ => panic!("the program does not exit"),
    }
}

#[test]
fn named_session_that_is_missing_is_fatal() {
    let mut given = cli();
    given.resume_session_id = Some("refactor".to_string());
    let session = opened(given, config());
    assert!(matches!(session.work(), SessionWork::FindByName { name, .. } if name == "refactor"));
    let session = session.advance(SessionEvent::Found(None));
    assert_eq!(end(&session).cleanup(), FULL_CLEANUP);
    let info = returned(session).expect("the session ends early");
    assert_eq!(
        info.exit_reason,
        ExitReason::Fatal(
            "No saved session found with ID refactor. Run `codex resume` without an ID to choose from existing sessions."
                .to_string()
        )
    );
}

#[test]
fn session_given_by_id_is_forked_in_its_directory() {
    let id = "936da01f-9abd-4d9d-80c7-02af85c822a8";
    let rollout = PathBuf::from("/sessions/rollout.jsonl");
    let mut given = cli();
    given.fork_session_id = Some(id.to_string());
    given.cwd = Some(PathBuf::from("/now"));
    let session = opened(given, config());
    assert!(matches!(
        session.work(),
        SessionWork::FindById { home, id: found }
            if found == id && home == &PathBuf::from("/home/.codex")
    ));
    let session = session.advance(SessionEvent::Found(Some(rollout.clone())));
    assert!(matches!(session.work(), SessionWork::ReadRollout(path) if path == &rollout));
    let session = session.advance(SessionEvent::Cwd(CwdEvent::LatestTurn(None)));
    assert!(matches!(session.work(), SessionWork::ReadMeta(path) if path == &rollout));
    let session = session.advance(SessionEvent::Cwd(CwdEvent::Meta(Some(PathBuf::from("/then")))));
    assert!(matches!(
        session.work(),
        SessionWork::ReloadAt { fallback_cwd: Some(cwd), .. } if cwd == &PathBuf::from("/then")
    ));
    let mut loaded = config();
    loaded.cwd = PathBuf::from("/then");
    loaded.trust_level = None;
    let session = session.advance(SessionEvent::ConfigLoaded(loaded)).advance(SessionEvent::Done);
    assert!(matches!(
        session.work(),
        SessionWork::RunApp {
            selection: SessionSelection::Fork(path),
            show_trust_screen: true,
            ..
        } if path == &rollout
    ));
}

#[test]
fn user_chooses_between_the_directories() {
    let mut given = cli();
    given.resume_last = true;
    let session = opened(given, config());
    assert!(matches!(
        session.work(),
        SessionWork::FindLatest { query, cwd: Some(cwd), .. }
            if is_latest_query(query) && cwd == &PathBuf::from("/now")
    ));
    let session = session
        .advance(SessionEvent::Found(Some(PathBuf::from("/r"))))
        .advance(SessionEvent::Cwd(CwdEvent::LatestTurn(Some(PathBuf::from("/then")))));
    assert!(matches!(
        session.work(),
        SessionWork::NormalizeCwds { current, history }
            if current == &PathBuf::from("/now") && history == &PathBuf::from("/then")
    ));
    let session = session.advance(SessionEvent::Cwd(CwdEvent::Normalized {
        current: Some(PathBuf::from("/now")),
        session: Some(PathBuf::from("/then")),
    }));
    assert!(matches!(
        session.work(),
        SessionWork::PromptCwd { action: CwdPromptAction::Resume, current, history }
            if current == &PathBuf::from("/now") && history == &PathBuf::from("/then")
    ));
    let session = session.advance(SessionEvent::Cwd(CwdEvent::Selected(CwdSelection::Current)));
    assert!(matches!(
        session.work(),
        SessionWork::ReloadAt { fallback_cwd: Some(cwd), .. } if cwd == &PathBuf::from("/now")
    ));
}

#[test]
fn failing_directory_prompt_is_returned() {
    let mut given = cli();
    given.resume_last = true;
    let session = opened(given, config())
        .advance(SessionEvent::Found(Some(PathBuf::from("/r"))))
        .advance(SessionEvent::Cwd(CwdEvent::LatestTurn(Some(PathBuf::from("/then")))))
        .advance(SessionEvent::Cwd(CwdEvent::Normalized { current: None, session: None }))
        .advance(failed());
    assert_eq!(end(&session).cleanup(), Vec::new());
    assert_eq!(returned(session), Err("broken".to_string()));
}

#[test]
fn last_session_that_cannot_be_found_gives_a_new_one() {
    let mut given = cli();
    given.resume_last = true;
    given.resume_show_all = true;
    let session = opened(given, config());
    assert!(matches!(session.work(), SessionWork::FindLatest { cwd: None, .. }));
    let session = session.advance(failed());
    assert!(matches!(
        session.step,
        SessionStep::ApplyResidency { selection: SessionSelection::StartFresh }
    ));

    let mut given = cli();
    given.fork_last = true;
    let session = opened(given, config());
    assert!(matches!(
        session.work(),
        SessionWork::ListThreads { query, .. } if is_latest_query(query)
    ));
    let session = session.advance(SessionEvent::Found(None));
    assert!(matches!(
        session.step,
        SessionStep::ApplyResidency { selection: SessionSelection::StartFresh }
    ));
}

#[test]
fn picker_decides_or_ends_the_session() {
    let mut given = cli();
    given.fork_picker = true;
    given.fork_show_all = true;
    let session = opened(given.clone(), config());
    assert!(matches!(
        session.work(),
        SessionWork::PickSession { action: CwdPromptAction::Fork, provider, show_all: true, .. }
            if provider == "mock"
    ));
    let session =
        session.advance(SessionEvent::Picked(SessionSelection::Fork(PathBuf::from("/r"))));
    assert!(matches!(session.work(), SessionWork::ReadRollout(_)));

    let session = opened(given.clone(), config())
        .advance(SessionEvent::Picked(SessionSelection::StartFresh));
    assert!(matches!(session.work(), SessionWork::ApplyResidency { .. }));

    let session =
        opened(given.clone(), config()).advance(SessionEvent::Picked(SessionSelection::Exit));
    assert!(matches!(end(&session), SessionEnd::PickerClosed));
    assert_eq!(end(&session).cleanup(), PLAIN_CLEANUP);
    assert_eq!(returned(session).map(|info| info.exit_reason), Ok(ExitReason::UserRequested));

    let session = opened(given, config()).advance(failed());
    assert_eq!(returned(session), Err("broken".to_string()));
}

#[test]
fn multiplexer_is_asked_for_only_where_it_decides() {
    let mut auto = config();
    auto.tui_alternate_screen = AltScreenMode::Auto;
    for (multiplexer, expected) in
        [(Some(Multiplexer::Zellij), false), (Some(Multiplexer::Other), true), (None, true)]
    {
        let session = opened(cli(), auto.clone()).advance(SessionEvent::Done);
        assert!(matches!(session.work(), SessionWork::DetectMultiplexer));
        let session = session.advance(SessionEvent::Multiplexer(multiplexer));
        assert!(matches!(
            session.work(),
            SessionWork::RunApp { alt_screen, .. } if alt_screen == expected
        ));
    }
    let mut given = cli();
    given.no_alt_screen = true;
    let session = opened(given, auto).advance(SessionEvent::Done);
    assert!(matches!(session.work(), SessionWork::RunApp { alt_screen: false, .. }));
}

#[test]
fn failures_before_the_application_are_returned() {
    let session = started(cli(), config(), BUILD).advance(failed());
    assert!(matches!(session.work(), SessionWork::End(SessionEnd::Error(_))));
    let session = session.advance(SessionEvent::Done);
    assert!(matches!(session.work(), SessionWork::End(SessionEnd::Error(_))));
}

#[test]
fn stray_events_are_ignored() {
    let session = started(cli(), config(), BUILD)
        .advance(SessionEvent::Found(None))
        .advance(SessionEvent::Multiplexer(None));
    assert!(matches!(session.work(), SessionWork::InitTerminal));
}

#[test]
fn terminal_that_stays_broken_is_told() {
    assert_eq!(
        restore_failure_message("not a tty"),
        "failed to restore terminal. Run `reset` or restart your terminal to recover: not a tty"
    );
}

#[test]
fn application_gets_the_last_configuration_and_all_that_goes_with_it() {
    let mut given = cli();
    given.resume_session_id = Some("refactor".to_string());
    let mut reloaded = config();
    reloaded.active_profile = Some("work".to_string());
    reloaded.enforce_residency = Some("us".to_string());
    reloaded.tui_alternate_screen = AltScreenMode::Never;
    let session = opened(given, config())
        .advance(SessionEvent::Found(Some(PathBuf::from("/r"))))
        .advance(SessionEvent::Cwd(CwdEvent::LatestTurn(None)))
        .advance(SessionEvent::Cwd(CwdEvent::Meta(None)))
        .advance(SessionEvent::ConfigLoaded(reloaded));
    assert!(matches!(
        session.work(),
        SessionWork::ApplyResidency { requirement: Some(requirement) } if requirement == "us"
    ));
    let session = session.advance(SessionEvent::Done);
    assert!(matches!(
        session.work(),
        SessionWork::RunApp { active_profile: Some(profile), alt_screen: false, .. }
            if profile == "work"
    ));
    let session = session.advance(SessionEvent::AppReturned(Err("lost".to_string())));
    assert_eq!(end(&session).cleanup(), PLAIN_CLEANUP);
    assert_eq!(returned(session), Err("lost".to_string()));
}

#[test]
fn command_line_governs_every_load() {
    let mut given = cli();
    given.full_auto = true;
    given.fork_session_id = Some("refactor".to_string());
    let mut undecided = config();
    undecided.trust_level = None;
    let session = opened(given, undecided)
        .advance(SessionEvent::Onboarded { should_exit: false, trust_decided: true });
    match session.work() {
        SessionWork::Reload { cli_overrides, overrides, .. } => {
            assert_eq!(cli_overrides.len(), 1);
            assert_eq!(cli_overrides[0].1, toml::Value::Integer(1));
            assert_eq!(overrides.sandbox_mode, Some(SandboxMode::WorkspaceWrite));
            assert_eq!(overrides.approval_policy, Some(AskForApproval::OnRequest));
        }
        _ => panic!("the configuration is not loaded again"),
    }
    let session = session
        .advance(SessionEvent::ConfigLoaded(config()))
        .advance(SessionEvent::Found(Some(PathBuf::from("/r"))))
        .advance(SessionEvent::Cwd(CwdEvent::LatestTurn(None)))
        .advance(SessionEvent::Cwd(CwdEvent::Meta(None)));
    match session.work() {
        SessionWork::ReloadAt { fallback_cwd: None, cli_overrides, overrides, requirements } => {
            assert_eq!(requirements, CloudRequirements::Initial);
            assert_eq!(cli_overrides.len(), 1);
            assert_eq!(overrides.sandbox_mode, Some(SandboxMode::WorkspaceWrite));
            assert_eq!(overrides.approval_policy, Some(AskForApproval::OnRequest));
        }
        _ => panic!("the configuration is not loaded again"),
    }
}

#[test]
fn resume_flags_do_not_matter_to_a_fork() {
    let mut plain = cli();
    plain.fork_last = true;
    let mut mixed = plain.clone();
    mixed.resume_picker = true;
    mixed.resume_last = true;
    mixed.resume_session_id = Some("refactor".to_string());
    mixed.resume_show_all = true;
    for given in [plain, mixed] {
        let session = opened(given, config());
        assert!(matches!(
            session.work(),
            SessionWork::ListThreads { query, .. } if is_latest_query(query)
        ));
        let session = session.advance(SessionEvent::Found(Some(PathBuf::from("/r"))));
        assert!(matches!(
            session.step,
            SessionStep::ResolveCwd { action: CwdPromptAction::Fork, .. }
        ));
    }
}

#[test]
fn refreshed_requirements_stay_for_the_session_that_is_opened() {
    let mut given = cli();
    given.resume_session_id = Some("refactor".to_string());
    let mut wanted = config();
    wanted.requires_openai_auth = true;
    let session = opened(given, wanted)
        .advance(SessionEvent::Credentials(Ok(None)))
        .advance(SessionEvent::Onboarded { should_exit: false, trust_decided: false });
    assert!(matches!(
        session.work(),
        SessionWork::Reload {
            refresh_cloud: Some(_),
            requirements: CloudRequirements::Refreshed,
            ..
        }
    ));
    let session = session
        .advance(SessionEvent::ConfigLoaded(config()))
        .advance(SessionEvent::Found(Some(PathBuf::from("/r"))))
        .advance(SessionEvent::Cwd(CwdEvent::LatestTurn(Some(PathBuf::from("/now")))))
        .advance(SessionEvent::Cwd(CwdEvent::Normalized { current: None, session: None }));
    assert!(matches!(
        session.work(),
        SessionWork::ReloadAt {
            fallback_cwd: Some(cwd),
            requirements: CloudRequirements::Refreshed,
            ..
        } if cwd == &PathBuf::from("/now")
    ));
}
