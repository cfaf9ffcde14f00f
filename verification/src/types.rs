//! The values that the start of a session decides on.

use std::path::PathBuf;

use vstd::prelude::*;

verus! {

/// What the tools of a session may touch.
#[derive(Debug, Clone, Copy, PartialEq, Eq)]
pub enum SandboxMode {
    ReadOnly,
    WorkspaceWrite,
    DangerFullAccess,
}

/// When the user is asked before a command runs.
#[derive(Debug, Clone, Copy, PartialEq, Eq)]
pub enum AskForApproval {
    UnlessTrusted,
    OnFailure,
    OnRequest,
    Never,
}

/// How the user is logged in.
#[derive(Debug, Clone, Copy, PartialEq, Eq)]
pub enum AuthMode {
    ApiKey,
    ChatGPT,
}

#[derive(Debug, Clone, Copy, PartialEq, Eq)]
pub enum LoginStatus {
    AuthMode(AuthMode),
    NotAuthenticated,
}

/// What the user has said of the project in the working directory.
#[derive(Debug, Clone, Copy, PartialEq, Eq)]
pub enum TrustLevel {
    Trusted,
    Untrusted,
}

/// Whether native Windows can confine a command.
#[derive(Debug, Clone, Copy, PartialEq, Eq)]
pub enum WindowsSandboxLevel {
    Disabled,
    Enabled,
}

/// The setting `tui.alternate_screen`.
#[derive(Debug, Clone, Copy, PartialEq, Eq)]
pub enum AltScreenMode {
    Always,
    Never,
    Auto,
}

/// The terminal multiplexer around the session.
#[derive(Debug, Clone, Copy, PartialEq, Eq)]
pub enum Multiplexer {
    Zellij,
    Other,
}

/// The command line.
#[derive(Debug, Clone)]
pub struct Cli {
    /// The prompt to start with.
    pub prompt: Option<String>,
    /// Images that go with the prompt.
    pub images: Vec<PathBuf>,
    pub model: Option<String>,
    /// Use a local open source model provider.
    pub oss: bool,
    pub oss_provider: Option<String>,
    pub config_profile: Option<String>,
    pub sandbox_mode: Option<SandboxMode>,
    pub approval_policy: Option<AskForApproval>,
    pub full_auto: bool,
    pub dangerously_bypass_approvals_and_sandbox: bool,
    pub cwd: Option<PathBuf>,
    /// The flag `--search`.
    pub web_search: bool,
    /// Directories to make writable beside the workspace.
    pub add_dir: Vec<PathBuf>,
    pub no_alt_screen: bool,
    /// The `-c key=value` overrides, as they were given.
    pub raw_overrides: Vec<String>,
    pub resume_picker: bool,
    pub resume_last: bool,
    pub resume_session_id: Option<String>,
    pub resume_show_all: bool,
    pub fork_picker: bool,
    pub fork_last: bool,
    pub fork_session_id: Option<String>,
    pub fork_show_all: bool,
}

/// What the start of a session reads of `config.toml` itself.
#[derive(Debug, Clone)]
pub struct ConfigToml {
    pub chatgpt_base_url: Option<String>,
}

/// What the start of a session reads of the configuration in effect.
#[derive(Debug, Clone)]
pub struct Config {
    /// The home directory of the program.
    pub codex_home: PathBuf,
    pub cwd: PathBuf,
    pub model_provider_id: String,
    /// The profile that the configuration was loaded with, if any.
    pub active_profile: Option<String>,
    /// Where requests have to be served, if that is required.
    pub enforce_residency: Option<String>,
    /// The address of the ChatGPT backend.
    pub chatgpt_base_url: String,
    /// The model provider wants an OpenAI login.
    pub requires_openai_auth: bool,
    pub did_user_set_custom_approval_policy_or_sandbox_mode: bool,
    /// What has been decided on the project in `cwd`, if anything.
    pub trust_level: Option<TrustLevel>,
    pub windows_sandbox_level: WindowsSandboxLevel,
    pub tui_alternate_screen: AltScreenMode,
}

/// What the command line overrides in the configuration.
#[derive(Debug, Clone)]
pub struct ConfigOverrides {
    pub model: Option<String>,
    pub approval_policy: Option<AskForApproval>,
    pub sandbox_mode: Option<SandboxMode>,
    pub cwd: Option<PathBuf>,
    pub model_provider: Option<String>,
    pub config_profile: Option<String>,
    pub codex_linux_sandbox_exe: Option<PathBuf>,
    pub show_raw_agent_reasoning: Option<bool>,
    pub additional_writable_roots: Vec<PathBuf>,
}

/// Which requirements of the user's organisation a configuration is loaded with.
#[derive(Debug, Clone, Copy, PartialEq, Eq)]
pub enum CloudRequirements {
    /// Those that were prepared when the program started.
    Initial,
    /// Those that were prepared anew once the user had come past the login screen.
    Refreshed,
}

/// What the program knows of the build that it is.
#[derive(Debug, Clone, Copy, PartialEq, Eq)]
pub struct Build {
    /// It runs on native Windows.
    pub native_windows: bool,
    /// It was built without debug assertions.
    pub release: bool,
}

/// The tokens that a session has used.
#[derive(Debug, Clone, Copy, PartialEq, Eq)]
pub struct TokenUsage {
    pub input_tokens: i64,
    pub cached_input_tokens: i64,
    pub output_tokens: i64,
    pub reasoning_output_tokens: i64,
    pub total_tokens: i64,
}

impl Default for TokenUsage {
    fn default() -> (usage: Self)
        ensures
            usage == no_tokens(),
    {
        TokenUsage {
            input_tokens: 0,
            cached_input_tokens: 0,
            output_tokens: 0,
            reasoning_output_tokens: 0,
            total_tokens: 0,
        }
    }
}

/// No tokens at all.
pub open spec fn no_tokens() -> TokenUsage {
    TokenUsage {
        input_tokens: 0,
        cached_input_tokens: 0,
        output_tokens: 0,
        reasoning_output_tokens: 0,
        total_tokens: 0,
    }
}

/// Why a session ended.
#[derive(Debug, Clone, PartialEq, Eq)]
pub enum ExitReason {
    UserRequested,
    Fatal(String),
}

/// A way to update the program, by the command that does it.
#[derive(Debug, Clone, PartialEq, Eq)]
pub struct UpdateAction {
    pub command: String,
}

/// What a session leaves behind.
#[derive(Debug, Clone, PartialEq, Eq)]
pub struct AppExitInfo {
    pub token_usage: TokenUsage,
    pub thread_id: Option<String>,
    pub thread_name: Option<String>,
    /// The update that the user chose, which is still to be run.
    pub update_action: Option<UpdateAction>,
    pub exit_reason: ExitReason,
}

/// By what earlier sessions are ordered, the latest first.
#[derive(Debug, Clone, Copy, PartialEq, Eq)]
pub enum ThreadSortKey {
    CreatedAt,
    UpdatedAt,
}

/// Which earlier sessions count.
#[derive(Debug, Clone, Copy, PartialEq, Eq)]
pub enum SessionSources {
    /// Those that a user took part in.
    Interactive,
    Any,
}

/// Which earlier sessions are asked for, from the first page on.
#[derive(Debug, Clone, Copy)]
pub struct ThreadQuery<'a> {
    pub page_size: usize,
    pub sort_key: ThreadSortKey,
    pub sources: SessionSources,
    /// Only sessions of this provider are asked for.
    pub provider_filter: &'a String,
    /// The provider of sessions that name none.
    pub default_provider: &'a String,
}

/// Which session to open.
#[derive(Debug, Clone, PartialEq, Eq)]
pub enum SessionSelection {
    StartFresh,
    /// Go on with the session whose rollout is at the path.
    Resume(PathBuf),
    /// Start a session from the history of the one at the path.
    Fork(PathBuf),
    Exit,
}

/// What is done with an earlier session.
#[derive(Debug, Clone, Copy, PartialEq, Eq)]
pub enum CwdPromptAction {
    Resume,
    Fork,
}

/// Which directory the user chose to work in.
#[derive(Debug, Clone, Copy, PartialEq, Eq)]
pub enum CwdSelection {
    Current,
    Session,
}

} // verus!
