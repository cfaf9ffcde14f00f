use std::path::PathBuf;

use codex_tui::overrides::{chatgpt_base_url, config_overrides, permissions, raw_overrides};
use codex_tui::types::{AskForApproval, Cli, ConfigToml, SandboxMode};

fn cli() -> Cli {
    Cli {
        prompt: None,
        images: Vec::new(),
        model: None,
        oss: false,
        oss_provider: None,
        config_profile: None,
        sandbox_mode: None,
        approval_policy: None,
        full_auto: false,
        dangerously_bypass_approvals_and_sandbox: false,
        cwd: None,
        web_search: false,
        add_dir: Vec::new(),
        no_alt_screen: false,
        raw_overrides: Vec::new(),
        resume_picker: false,
        resume_last: false,
        resume_session_id: None,
        resume_show_all: false,
        fork_picker: false,
        fork_last: false,
        fork_session_id: None,
        fork_show_all: false,
    }
}

#[test]
fn full_auto_comes_before_everything() {
    let mut cli = cli();
    cli.full_auto = true;
    cli.dangerously_bypass_approvals_and_sandbox = true;
    cli.sandbox_mode = Some(SandboxMode::ReadOnly);
    cli.approval_policy = Some(AskForApproval::UnlessTrusted);
    assert_eq!(
        permissions(&cli),
        (Some(SandboxMode::WorkspaceWrite), Some(AskForApproval::OnRequest))
    );
}

#[test]
fn bypass_comes_before_explicit_settings() {
    let mut cli = cli();
    cli.dangerously_bypass_approvals_and_sandbox = true;
    cli.sandbox_mode = Some(SandboxMode::ReadOnly);
    cli.approval_policy = Some(AskForApproval::OnFailure);
    assert_eq!(
        permissions(&cli),
        (Some(SandboxMode::DangerFullAccess), Some(AskForApproval::Never))
    );
}

#[test]
fn explicit_settings_pass_through() {
    let mut cli = cli();
    assert_eq!(permissions(&cli), (None, None));
    cli.sandbox_mode = Some(SandboxMode::ReadOnly);
    assert_eq!(permissions(&cli), (Some(SandboxMode::ReadOnly), None));
    cli.approval_policy = Some(AskForApproval::Never);
    assert_eq!(permissions(&cli), (Some(SandboxMode::ReadOnly), Some(AskForApproval::Never)));
}

#[test]
fn search_flag_becomes_the_last_override() {
    let mut cli = cli();
    cli.raw_overrides = vec!["a=1".to_string(), "b=2".to_string()];
    assert_eq!(raw_overrides(&cli), vec!["a=1", "b=2"]);
    cli.web_search = true;
    assert_eq!(raw_overrides(&cli), vec!["a=1", "b=2", "web_search=\"live\""]);
}

#[test]
fn backend_address_has_a_default() {
    assert_eq!(
        chatgpt_base_url(&ConfigToml { chatgpt_base_url: None }),
        "https://chatgpt.com/backend-api/"
    );
    assert_eq!(
        chatgpt_base_url(&ConfigToml { chatgpt_base_url: Some("http://localhost/".to_string()) }),
        "http://localhost/"
    );
}

#[test]
fn overrides_carry_the_command_line() {
    let mut cli = cli();
    cli.cwd = Some(PathBuf::from("/work"));
    cli.config_profile = Some("fast".to_string());
    cli.add_dir = vec![PathBuf::from("/x"), PathBuf::from("/y")];
    cli.full_auto = true;
    let overrides = config_overrides(&cli, &None, &None, &Some(PathBuf::from("/bin/sandbox")));
    assert_eq!(overrides.model, None);
    assert_eq!(overrides.approval_policy, Some(AskForApproval::OnRequest));
    assert_eq!(overrides.sandbox_mode, Some(SandboxMode::WorkspaceWrite));
    assert_eq!(overrides.cwd, Some(PathBuf::from("/work")));
    assert_eq!(overrides.model_provider, None);
    assert_eq!(overrides.config_profile.as_deref(), Some("fast"));
    assert_eq!(overrides.codex_linux_sandbox_exe, Some(PathBuf::from("/bin/sandbox")));
    assert_eq!(overrides.show_raw_agent_reasoning, None);
    assert_eq!(
        overrides.additional_writable_roots,
        vec![PathBuf::from("/x"), PathBuf::from("/y")]
    );
}

#[test]
fn local_provider_brings_its_model_unless_one_is_given() {
    let mut cli = cli();
    cli.oss = true;
    let provider = Some("ollama".to_string());
    let default_model = Some("gpt-oss:20b".to_string());
    let overrides = config_overrides(&cli, &provider, &default_model, &None);
    assert_eq!(overrides.model.as_deref(), Some("gpt-oss:20b"));
    assert_eq!(overrides.model_provider.as_deref(), Some("ollama"));
    assert_eq!(overrides.show_raw_agent_reasoning, Some(true));

    cli.model = Some("mine".to_string());
    let overrides = config_overrides(&cli, &provider, &default_model, &None);
    assert_eq!(overrides.model.as_deref(), Some("mine"));

    cli.model = None;
    cli.oss = false;
    let overrides = config_overrides(&cli, &None, &default_model, &None);
    assert_eq!(overrides.model, None);
}
