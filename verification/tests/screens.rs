use std::path::PathBuf;

use codex_tui::screens::{
    determine_alt_screen_mode, get_login_status, needs_multiplexer, should_show_login_screen,
    should_show_onboarding, should_show_trust_screen,
};
use codex_tui::types::{
    AltScreenMode, AuthMode, Config, LoginStatus, Multiplexer, TrustLevel, WindowsSandboxLevel,
};

fn build_config() -> Config {
    Config {
        codex_home: PathBuf::from("/home/.codex"),
        cwd: PathBuf::from("/work"),
        active_profile: None,
        enforce_residency: None,
        chatgpt_base_url: "http://backend/".to_string(),
        model_provider_id: "openai".to_string(),
        requires_openai_auth: true,
        did_user_set_custom_approval_policy_or_sandbox_mode: false,
        trust_level: None,
        windows_sandbox_level: WindowsSandboxLevel::Disabled,
        tui_alternate_screen: AltScreenMode::Auto,
    }
}

#[test]
fn windows_skips_trust_prompt_without_sandbox() {
    let mut config = build_config();
    config.did_user_set_custom_approval_policy_or_sandbox_mode = false;
    config.trust_level = None;
    config.windows_sandbox_level = WindowsSandboxLevel::Disabled;

    assert!(
        !should_show_trust_screen(&config, true),
        "Windows trust prompt should always be skipped on native Windows"
    );
    assert!(
        should_show_trust_screen(&config, false),
        "Non-Windows should still show trust prompt when project is untrusted"
    );
}

#[test]
fn windows_shows_trust_prompt_with_sandbox() {
    let mut config = build_config();
    config.did_user_set_custom_approval_policy_or_sandbox_mode = false;
    config.trust_level = None;
    config.windows_sandbox_level = WindowsSandboxLevel::Enabled;

    assert!(
        should_show_trust_screen(&config, true),
        "Windows trust prompt should be shown on native Windows with sandbox enabled"
    );
    assert!(
        should_show_trust_screen(&config, false),
        "Non-Windows should still show trust prompt when project is untrusted"
    );
}

#[test]
fn untrusted_project_skips_trust_prompt() {
    let mut config = build_config();
    config.did_user_set_custom_approval_policy_or_sandbox_mode = false;
    config.trust_level = Some(TrustLevel::Untrusted);

    assert!(
        !should_show_trust_screen(&config, false),
        "Trust prompt should not be shown for projects explicitly marked as untrusted"
    );
}

#[test]
fn trusted_project_and_explicit_settings_skip_trust_prompt() {
    let mut config = build_config();
    config.trust_level = Some(TrustLevel::Trusted);
    assert!(!should_show_trust_screen(&config, false));
    config.trust_level = None;
    config.did_user_set_custom_approval_policy_or_sandbox_mode = true;
    assert!(!should_show_trust_screen(&config, false));
}

#[test]
fn alternate_screen_follows_flag_setting_and_multiplexer() {
    let zellij = Some(Multiplexer::Zellij);
    let other = Some(Multiplexer::Other);
    assert!(!determine_alt_screen_mode(true, AltScreenMode::Always, None));
    assert!(!determine_alt_screen_mode(true, AltScreenMode::Auto, other));
    assert!(determine_alt_screen_mode(false, AltScreenMode::Always, zellij));
    assert!(!determine_alt_screen_mode(false, AltScreenMode::Never, None));
    assert!(!determine_alt_screen_mode(false, AltScreenMode::Auto, zellij));
    assert!(determine_alt_screen_mode(false, AltScreenMode::Auto, other));
    assert!(determine_alt_screen_mode(false, AltScreenMode::Auto, None));
}

#[test]
fn multiplexer_is_looked_for_only_in_auto() {
    assert!(needs_multiplexer(false, AltScreenMode::Auto));
    assert!(!needs_multiplexer(true, AltScreenMode::Auto));
    assert!(!needs_multiplexer(false, AltScreenMode::Always));
    assert!(!needs_multiplexer(false, AltScreenMode::Never));
}

#[test]
fn login_status_follows_stored_credentials() {
    let mut config = build_config();
    assert_eq!(
        get_login_status(&config, Ok(Some(AuthMode::ApiKey))),
        LoginStatus::AuthMode(AuthMode::ApiKey)
    );
    assert_eq!(
        get_login_status(&config, Ok(Some(AuthMode::ChatGPT))),
        LoginStatus::AuthMode(AuthMode::ChatGPT)
    );
    assert_eq!(get_login_status(&config, Ok(None)), LoginStatus::NotAuthenticated);
    assert_eq!(
        get_login_status(&config, Err("broken".to_string())),
        LoginStatus::NotAuthenticated
    );
    config.requires_openai_auth = false;
    assert_eq!(
        get_login_status(&config, Ok(Some(AuthMode::ApiKey))),
        LoginStatus::NotAuthenticated
    );
}

#[test]
fn login_screen_is_for_openai_providers_without_login() {
    let mut config = build_config();
    assert!(should_show_login_screen(LoginStatus::NotAuthenticated, &config));
    assert!(!should_show_login_screen(LoginStatus::AuthMode(AuthMode::ChatGPT), &config));
    config.requires_openai_auth = false;
    assert!(!should_show_login_screen(LoginStatus::NotAuthenticated, &config));
}

#[test]
fn onboarding_is_trust_or_login() {
    let mut config = build_config();
    let logged_in = LoginStatus::AuthMode(AuthMode::ApiKey);
    assert!(should_show_onboarding(logged_in, &config, true));
    assert!(!should_show_onboarding(logged_in, &config, false));
    assert!(should_show_onboarding(LoginStatus::NotAuthenticated, &config, false));
    config.requires_openai_auth = false;
    assert!(!should_show_onboarding(LoginStatus::NotAuthenticated, &config, false));
    assert!(should_show_onboarding(LoginStatus::NotAuthenticated, &config, true));
}
