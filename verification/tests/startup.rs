use std::path::PathBuf;

use codex_tui::startup::{
    ExitCause, Outcome, Startup, StartupEnd, StartupEvent, StartupStep, StartupWork, TelemetryFailure,
    DEFAULT_LOG_FILTER, EXIT_STATUS, LOG_FILE_MODE, LOG_FILE_NAME, SELECTION_CANCELLED,
};
use codex_tui::run_main;
use codex_tui::settings::Settings;
use codex_tui::types::{
    AltScreenMode, AppExitInfo, AskForApproval, Cli, CloudRequirements, Config, ConfigToml, ExitReason,
    SandboxMode, TokenUsage, TrustLevel, WindowsSandboxLevel,
};

fn cli() -> Cli {
    Cli {
        prompt: None,
        images: Vec::new(),
        model: None,
        oss: false,
        oss_provider: None,
        config_profile: None,
        sandbox_mode: None,
        approval_policy: None,
        full_auto: false,
        dangerously_bypass_approvals_and_sandbox: false,
        cwd: None,
        web_search: false,
        add_dir: Vec::new(),
        no_alt_screen: false,
        raw_overrides: Vec::new(),
        resume_picker: false,
        resume_last: false,
        resume_session_id: None,
        resume_show_all: false,
        fork_picker: false,
        fork_last: false,
        fork_session_id: None,
        fork_show_all: false,
    }
}

fn failed() -> StartupEvent {
    StartupEvent::Failed("broken".to_string())
}

fn config_toml() -> ConfigToml {
    ConfigToml { chatgpt_base_url: None }
}

fn config() -> Config {
    Config {
        codex_home: PathBuf::from("/home/.codex"),
        cwd: PathBuf::from("/now"),
        model_provider_id: "mock".to_string(),
        active_profile: None,
        enforce_residency: Some("us".to_string()),
        chatgpt_base_url: "http://backend/".to_string(),
        requires_openai_auth: false,
        did_user_set_custom_approval_policy_or_sandbox_mode: false,
        trust_level: Some(TrustLevel::Trusted),
        windows_sandbox_level: WindowsSandboxLevel::Disabled,
        tui_alternate_screen: AltScreenMode::Always,
    }
}

fn parsed() -> StartupEvent {
    StartupEvent::OverridesParsed(vec![("a".to_string(), toml::Value::Integer(1))])
}

fn has_parsed(settings: &Settings) -> bool {
    settings.len() == 1 && settings[0].0 == "a" && settings[0].1 == toml::Value::Integer(1)
}

fn home() -> StartupEvent {
    StartupEvent::HomeFound(PathBuf::from("/home/.codex"))
}

fn located() -> StartupEvent {
    StartupEvent::CwdLocated(PathBuf::from("/real/work"))
}

fn loaded() -> StartupEvent {
    StartupEvent::ConfigLoaded(config())
}

/// Up to the loading of `config.toml`.
fn at_toml(cli: Cli) -> Startup {
    run_main(cli, None).advance(parsed()).advance(home()).advance(located())
}

/// Past the preparation of the requirements.
fn past_cloud(cli: Cli) -> Startup {
    at_toml(cli)
        .advance(StartupEvent::TomlLoaded(config_toml()))
        .advance(StartupEvent::Done)
        .advance(StartupEvent::Done)
}

/// Up to the opening of the log.
fn at_log(startup: Startup) -> Startup {
    startup
        .advance(loaded())
        .advance(StartupEvent::Done)
        .advance(StartupEvent::AddedDirsChecked(None))
        .advance(StartupEvent::Done)
}

fn error_text(startup: &Startup) -> &str {
    match &startup.step {
        StartupStep::Ended(StartupEnd::Error(text)) => text,
        _ => panic!("the start does not end with an error"),
    }
}

fn exit_message(startup: &Startup) -> String {
    match &startup.step {
        StartupStep::Ended(StartupEnd::Exit(cause)) => cause.message(),
        _ => panic!("the start does not exit"),
    }
}

#[test]
fn start_without_local_provider_runs_the_session() {
    let startup = past_cloud(cli());
    assert!(matches!(startup.work(), StartupWork::LoadConfig { .. }));
    let startup = at_log(startup);
    assert!(matches!(startup.work(), StartupWork::OpenLog { .. }));
    let startup = startup.advance(StartupEvent::Done);
    assert!(matches!(startup.work(), StartupWork::BuildTelemetry { .. }));
    let startup = startup.advance(StartupEvent::Done);
    assert!(matches!(startup.work(), StartupWork::InstallLogging { .. }));
    let startup = startup.advance(StartupEvent::Done);
    match startup.work() {
        StartupWork::RunSession { config, cli_overrides, overrides } => {
            assert_eq!(config.cwd, PathBuf::from("/now"));
            assert_eq!(config.enforce_residency.as_deref(), Some("us"));
            assert!(has_parsed(cli_overrides));
            assert_eq!(overrides.cwd, None);
        }
        _ => panic!("the session is not run"),
    }
}

#[test]
fn start_returns_what_the_session_returned() {
    let info = AppExitInfo {
        token_usage: TokenUsage::default(),
        thread_id: Some("thread".to_string()),
        thread_name: None,
        update_action: None,
        exit_reason: ExitReason::UserRequested,
    };
    for result in [Ok(info), Err("lost".to_string())] {
        let startup = at_log(past_cloud(cli()))
            .advance(StartupEvent::Done)
            .advance(StartupEvent::Done)
            .advance(StartupEvent::Done)
            .advance(StartupEvent::SessionReturned(result.clone()));
        assert!(matches!(
            startup.work(),
            StartupWork::End(StartupEnd::Session(returned)) if returned == &result
        ));
    }
}

#[test]
fn work_carries_the_command_line() {
    let mut given = cli();
    given.raw_overrides = vec!["a=1".to_string()];
    given.web_search = true;
    given.cwd = Some(PathBuf::from("work"));
    given.add_dir = vec![PathBuf::from("/extra")];
    given.dangerously_bypass_approvals_and_sandbox = true;

    let startup = run_main(given, Some(PathBuf::from("/sandbox")));
    assert!(matches!(
        startup.work(),
        StartupWork::ParseOverrides { raw } if raw == vec!["a=1", "web_search=\"live\""]
    ));
    let startup = startup.advance(parsed());
    assert!(matches!(startup.work(), StartupWork::FindHome));
    let startup = startup.advance(home());
    assert!(matches!(
        startup.work(),
        StartupWork::Canonicalize(path) if path == &PathBuf::from("work")
    ));
    let startup = startup.advance(located());
    assert!(matches!(
        startup.work(),
        StartupWork::LoadToml { home, cwd, cli_overrides }
            if home == &PathBuf::from("/home/.codex")
                && cwd == &PathBuf::from("/real/work")
                && has_parsed(cli_overrides)
    ));
    let startup = startup.advance(StartupEvent::TomlLoaded(ConfigToml {
        chatgpt_base_url: Some("http://backend/".to_string()),
    }));
    assert!(matches!(
        startup.work(),
        StartupWork::MigratePersonality { home, .. } if home == &PathBuf::from("/home/.codex")
    ));
    let startup = startup.advance(StartupEvent::Done);
    assert!(matches!(
        startup.work(),
        StartupWork::PrepareCloud { chatgpt_base_url, .. } if chatgpt_base_url == "http://backend/"
    ));
    let startup = startup.advance(StartupEvent::Done);
    match startup.work() {
        StartupWork::LoadConfig { cli_overrides, overrides, requirements } => {
            assert_eq!(requirements, CloudRequirements::Initial);
            assert!(has_parsed(cli_overrides));
            assert_eq!(overrides.cwd, Some(PathBuf::from("work")));
            assert_eq!(overrides.sandbox_mode, Some(SandboxMode::DangerFullAccess));
            assert_eq!(overrides.approval_policy, Some(AskForApproval::Never));
            assert_eq!(overrides.codex_linux_sandbox_exe, Some(PathBuf::from("/sandbox")));
        }
        _ => panic!("the configuration is not loaded"),
    }
    let startup = startup.advance(loaded());
    assert!(matches!(
        startup.work(),
        StartupWork::ApplyResidency { requirement: Some(requirement) } if requirement == "us"
    ));
    let startup = startup.advance(StartupEvent::Done);
    assert!(matches!(
        startup.work(),
        StartupWork::CheckAddedDirs { add_dir, .. } if add_dir == &vec![PathBuf::from("/extra")]
    ));
}

#[test]
fn current_directory_is_used_where_none_is_given() {
    let startup = run_main(cli(), None).advance(parsed()).advance(home());
    assert!(matches!(startup.work(), StartupWork::CurrentDir));
}

#[test]
fn local_provider_is_resolved_and_made_ready() {
    let mut given = cli();
    given.oss = true;
    given.oss_provider = Some("lmstudio".to_string());
    given.config_profile = Some("local".to_string());
    let startup = past_cloud(given);
    assert!(matches!(
        startup.work(),
        StartupWork::ResolveProvider { provider: Some(provider), profile: Some(profile), .. }
            if provider == "lmstudio" && profile == "local"
    ));
    let startup = startup.advance(StartupEvent::ProviderResolved(Some("lmstudio".to_string())));
    assert!(matches!(
        startup.work(),
        StartupWork::DefaultModel { provider: Some(provider) } if provider == "lmstudio"
    ));
    let startup = startup.advance(StartupEvent::DefaultModel(Some("gpt-oss:20b".to_string())));
    match startup.work() {
        StartupWork::LoadConfig { overrides, .. } => {
            assert_eq!(overrides.model.as_deref(), Some("gpt-oss:20b"));
            assert_eq!(overrides.model_provider.as_deref(), Some("lmstudio"));
            assert_eq!(overrides.show_raw_agent_reasoning, Some(true));
        }
        _ => panic!("the configuration is not loaded"),
    }
    let startup = at_log(startup).advance(StartupEvent::Done);
    assert!(matches!(
        startup.work(),
        StartupWork::ReadyProvider { provider, .. } if provider == "lmstudio"
    ));
    let startup = startup.advance(StartupEvent::Done);
    assert!(matches!(startup.work(), StartupWork::BuildTelemetry { .. }));
}

#[test]
fn user_is_asked_for_a_local_provider_where_none_is_named() {
    let mut given = cli();
    given.oss = true;
    given.model = Some("mine".to_string());
    let startup = past_cloud(given).advance(StartupEvent::ProviderResolved(None));
    assert!(matches!(startup.work(), StartupWork::SelectProvider { .. }));
    let startup = startup.advance(StartupEvent::ProviderSelected("ollama".to_string()));
    match startup.work() {
        StartupWork::LoadConfig { overrides, .. } => {
            assert_eq!(overrides.model.as_deref(), Some("mine"));
            assert_eq!(overrides.model_provider.as_deref(), Some("ollama"));
        }
        _ => panic!("the configuration is not loaded"),
    }
}

#[test]
fn no_choice_of_a_provider_cancels_the_start() {
    let mut given = cli();
    given.oss = true;
    let startup = past_cloud(given.clone())
        .advance(StartupEvent::ProviderResolved(None))
        .advance(StartupEvent::ProviderSelected("__CANCELLED__".to_string()));
    assert!(matches!(startup.work(), StartupWork::End(StartupEnd::Cancelled)));
    assert!(matches!(
        StartupEnd::Cancelled.outcome(),
        Outcome::Returned(Err(error)) if error == "OSS provider selection was cancelled by user"
    ));
    assert_eq!(SELECTION_CANCELLED, "OSS provider selection was cancelled by user");

    let startup = past_cloud(given).advance(StartupEvent::ProviderResolved(None)).advance(failed());
    assert_eq!(error_text(&startup), "broken");
}

#[test]
fn failures_exit_with_their_message() {
    let startup = run_main(cli(), None).advance(failed());
    assert_eq!(exit_message(&startup), "Error parsing -c overrides: broken");
    let startup = run_main(cli(), None).advance(parsed()).advance(failed());
    assert_eq!(exit_message(&startup), "Error finding codex home: broken");
    let startup = at_toml(cli()).advance(StartupEvent::TomlFailed {
        rendered: None,
        error: "broken".to_string(),
    });
    assert_eq!(exit_message(&startup), "Error loading config.toml: broken");
    let startup = at_toml(cli()).advance(StartupEvent::TomlFailed {
        rendered: Some("line 3".to_string()),
        error: "broken".to_string(),
    });
    assert_eq!(exit_message(&startup), "Error loading config.toml:\nline 3");
    let startup = past_cloud(cli()).advance(failed());
    assert_eq!(exit_message(&startup), "Error loading configuration: broken");
    let startup = past_cloud(cli())
        .advance(loaded())
        .advance(StartupEvent::Done)
        .advance(StartupEvent::AddedDirsChecked(Some("read-only".to_string())));
    assert_eq!(exit_message(&startup), "Error adding directories: read-only");
    let startup = past_cloud(cli())
        .advance(loaded())
        .advance(StartupEvent::Done)
        .advance(StartupEvent::AddedDirsChecked(None))
        .advance(failed());
    assert_eq!(exit_message(&startup), "broken");
    assert_eq!(ExitCause::Login("no".to_string()).message(), "no");
    assert_eq!(EXIT_STATUS, 1);
}

#[test]
fn other_failures_are_returned() {
    let startup =
        run_main(cli(), None).advance(parsed()).advance(home()).advance(failed());
    assert_eq!(error_text(&startup), "broken");
    let startup = at_log(past_cloud(cli())).advance(failed());
    assert_eq!(error_text(&startup), "broken");
}

#[test]
fn minor_failures_do_not_stop_the_start() {
    let startup = at_toml(cli()).advance(StartupEvent::TomlLoaded(config_toml())).advance(failed());
    assert!(matches!(startup.work(), StartupWork::PrepareCloud { .. }));
    let startup = at_log(past_cloud(cli())).advance(StartupEvent::Done).advance(failed());
    assert!(matches!(startup.work(), StartupWork::InstallLogging { .. }));
}

#[test]
fn the_end_is_final_and_stray_events_are_ignored() {
    let startup = run_main(cli(), None)
        .advance(StartupEvent::ProviderResolved(None))
        .advance(StartupEvent::DefaultModel(None));
    assert!(matches!(startup.work(), StartupWork::ParseOverrides { .. }));
    let startup = startup.advance(failed()).advance(StartupEvent::Done);
    assert_eq!(exit_message(&startup), "Error parsing -c overrides: broken");
}

#[test]
fn telemetry_failures_are_told() {
    assert_eq!(
        TelemetryFailure::Error("no route".to_string()).message(),
        "Could not create otel exporter: no route"
    );
    assert_eq!(
        TelemetryFailure::Panicked.message(),
        "Could not create otel exporter: panicked during initialization"
    );
}

#[test]
fn log_settings() {
    assert_eq!(LOG_FILE_NAME, "codex-tui.log");
    assert_eq!(LOG_FILE_MODE, 0o600);
    assert_eq!(DEFAULT_LOG_FILTER, "codex_core=info,codex_tui=info,codex_rmcp_client=info");
}
