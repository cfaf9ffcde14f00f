use std::path::PathBuf;

use codex_tui::selection::{latest_listed, no_session_message, select, session_lookup, show_all, Lookup};
use codex_tui::session_id::is_session_id;
use codex_tui::types::{Cli, CwdPromptAction, SessionSelection};

fn cli() -> Cli {
    Cli {
        prompt: None,
        images: Vec::new(),
        model: None,
        oss: false,
        oss_provider: None,
        config_profile: None,
        sandbox_mode: None,
        approval_policy: None,
        full_auto: false,
        dangerously_bypass_approvals_and_sandbox: false,
        cwd: None,
        web_search: false,
        add_dir: Vec::new(),
        no_alt_screen: false,
        raw_overrides: Vec::new(),
        resume_picker: false,
        resume_last: false,
        resume_session_id: None,
        resume_show_all: false,
        fork_picker: false,
        fork_last: false,
        fork_session_id: None,
        fork_show_all: false,
    }
}

const ID: &str = "936da01f-9abd-4d9d-80c7-02af85c822a8";

#[test]
fn all_spellings_of_a_uuid_are_ids() {
    assert!(is_session_id(ID));
    assert!(is_session_id("936DA01F-9ABD-4D9D-80C7-02AF85C822A8"));
    assert!(is_session_id("936da01f9abd4d9d80c702af85c822a8"));
    assert!(is_session_id("{936da01f-9abd-4d9d-80c7-02af85c822a8}"));
    assert!(is_session_id("urn:uuid:936da01f-9abd-4d9d-80c7-02af85c822a8"));
    assert!(is_session_id("URN:UUID:936da01f-9abd-4d9d-80c7-02af85c822a8"));
}

#[test]
fn anything_else_is_a_name() {
    assert!(!is_session_id(""));
    assert!(!is_session_id("my session"));
    assert!(!is_session_id("936da01f-9abd-4d9d-80c7-02af85c822a"));
    assert!(!is_session_id("936da01f-9abd-4d9d-80c7-02af85c822ag"));
    assert!(!is_session_id("936da01f-9abd-4d9d-80c7002af85c822a8"));
    assert!(!is_session_id("936da01f-9abd-4d9d-80c7-02af85c822\u{e9}"));
    assert!(!is_session_id("[936da01f-9abd-4d9d-80c7-02af85c822a8]"));
    assert!(!is_session_id("{936da01f9abd4d9d80c702af85c822a8}"));
    assert!(!is_session_id("urn-uuid:936da01f-9abd-4d9d-80c7-02af85c822a8"));
    assert!(!is_session_id(" 936da01f-9abd-4d9d-80c7-02af85c822a8"));
}

#[test]
fn without_flags_a_new_session_is_started() {
    assert!(matches!(session_lookup(&cli()), Lookup::Fresh));
}

#[test]
fn named_session_comes_before_last_and_picker() {
    let mut cli = cli();
    cli.resume_picker = true;
    assert!(matches!(
        session_lookup(&cli),
        Lookup::Picker { action: CwdPromptAction::Resume }
    ));
    cli.resume_last = true;
    assert!(matches!(
        session_lookup(&cli),
        Lookup::Latest { action: CwdPromptAction::Resume }
    ));
    cli.resume_session_id = Some(ID.to_string());
    assert!(matches!(
        session_lookup(&cli),
        Lookup::Named { action: CwdPromptAction::Resume, id, by_id: true } if id == ID
    ));
    cli.resume_session_id = Some("refactor".to_string());
    assert!(matches!(
        session_lookup(&cli),
        Lookup::Named { action: CwdPromptAction::Resume, id, by_id: false } if id == "refactor"
    ));
}

#[test]
fn forking_shadows_resuming() {
    let mut cli = cli();
    cli.resume_session_id = Some(ID.to_string());
    cli.resume_last = true;
    cli.fork_picker = true;
    assert!(matches!(session_lookup(&cli), Lookup::Picker { action: CwdPromptAction::Fork }));
    cli.fork_last = true;
    assert!(matches!(session_lookup(&cli), Lookup::Latest { action: CwdPromptAction::Fork }));
    cli.fork_session_id = Some("base".to_string());
    assert!(matches!(
        session_lookup(&cli),
        Lookup::Named { action: CwdPromptAction::Fork, id, by_id: false } if id == "base"
    ));
}

#[test]
fn selection_keeps_the_path() {
    let path = PathBuf::from("/rollout.jsonl");
    assert_eq!(
        select(CwdPromptAction::Resume, path.clone()),
        SessionSelection::Resume(path.clone())
    );
    assert_eq!(select(CwdPromptAction::Fork, path.clone()), SessionSelection::Fork(path));
}

#[test]
fn each_action_has_its_own_show_all() {
    let mut cli = cli();
    cli.fork_show_all = true;
    assert!(show_all(&cli, CwdPromptAction::Fork));
    assert!(!show_all(&cli, CwdPromptAction::Resume));
    cli.fork_show_all = false;
    cli.resume_show_all = true;
    assert!(!show_all(&cli, CwdPromptAction::Fork));
    assert!(show_all(&cli, CwdPromptAction::Resume));
}

#[test]
fn missing_session_is_told_with_the_command() {
    assert_eq!(
        no_session_message(CwdPromptAction::Resume, "abc"),
        "No saved session found with ID abc. Run `codex resume` without an ID to choose from existing sessions."
    );
    assert_eq!(
        no_session_message(CwdPromptAction::Fork, "x"),
        "No saved session found with ID x. Run `codex fork` without an ID to choose from existing sessions."
    );
}

#[test]
fn first_listed_session_is_the_latest() {
    assert_eq!(latest_listed(Vec::new()), None);
    assert_eq!(
        latest_listed(vec![PathBuf::from("/new"), PathBuf::from("/old")]),
        Some(PathBuf::from("/new"))
    );
}
