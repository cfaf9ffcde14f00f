//! What the command line makes of the configuration.

use std::path::PathBuf;

use vstd::prelude::*;

use crate::types::{AskForApproval, Cli, ConfigOverrides, ConfigToml, SandboxMode};

verus! {

/// The sandbox and approval settings that the flags ask for. `--full-auto` comes
/// before the flag that bypasses both, and either before explicit settings.
pub open spec fn requested_permissions(cli: Cli) -> (Option<SandboxMode>, Option<AskForApproval>) {
    if cli.full_auto {
        (Some(SandboxMode::WorkspaceWrite), Some(AskForApproval::OnRequest))
    } else if cli.dangerously_bypass_approvals_and_sandbox {
        (Some(SandboxMode::DangerFullAccess), Some(AskForApproval::Never))
    } else {
        (cli.sandbox_mode, cli.approval_policy)
    }
}

/// The sandbox and approval settings that the flags ask for.
pub fn permissions(cli: &Cli) -> (settings: (Option<SandboxMode>, Option<AskForApproval>))
    ensures
        settings == requested_permissions(*cli),
{
    if cli.full_auto {
        (Some(SandboxMode::WorkspaceWrite), Some(AskForApproval::OnRequest))
    } else if cli.dangerously_bypass_approvals_and_sandbox {
        (Some(SandboxMode::DangerFullAccess), Some(AskForApproval::Never))
    } else {
        (cli.sandbox_mode, cli.approval_policy)
    }
}

/// The `-c` overrides in effect: those given, in their order, and behind them the
/// canonical setting for `--search`.
pub open spec fn effective_overrides(cli: Cli, overrides: Seq<String>) -> bool {
    if cli.web_search {
        &&& overrides.len() == cli.raw_overrides@.len() + 1
        &&& overrides.drop_last() == cli.raw_overrides@
        &&& overrides.last()@ == "web_search=\"live\""@
    } else {
        overrides == cli.raw_overrides@
    }
}

/// The `-c` overrides in effect.
pub fn raw_overrides(cli: &Cli) -> (overrides: Vec<String>)
    ensures
        effective_overrides(*cli, overrides@),
{
    let mut overrides: Vec<String> = Vec::new();
    let mut i: usize = 0;
    while i < cli.raw_overrides.len()
        invariant
            i <= cli.raw_overrides@.len(),
            overrides@ == cli.raw_overrides@.take(i as int),
        decreases cli.raw_overrides@.len() - i,
    {
        overrides.push(cli.raw_overrides[i].clone());
        i += 1;
    }
    assert(overrides@ =~= cli.raw_overrides@);
    if cli.web_search {
        overrides.push("web_search=\"live\"".to_owned());
        assert(overrides@.drop_last() =~= cli.raw_overrides@);
    }
    overrides
}

/// The address of the ChatGPT backend: the configured one, or else the public one.
pub open spec fn backend_address(toml: ConfigToml) -> Seq<char> {
    match toml.chatgpt_base_url {
        Some(url) => url@,
        None => "https://chatgpt.com/backend-api/"@,
    }
}

/// The address of the ChatGPT backend.
pub fn chatgpt_base_url(toml: &ConfigToml) -> (url: String)
    ensures
        url@ == backend_address(*toml),
{
    match &toml.chatgpt_base_url {
        Some(url) => url.clone(),
        None => "https://chatgpt.com/backend-api/".to_owned(),
    }
}

/// The model to ask for: the one given, or else the default one of a local
/// provider. Otherwise the configuration decides.
pub open spec fn requested_model(cli: Cli, default_model: Option<String>) -> Option<String> {
    if cli.model is Some {
        cli.model
    } else if cli.oss {
        default_model
    } else {
        None
    }
}

/// The overrides carry what the command line says, with the given provider and
/// default model of a local provider.
pub open spec fn overrides_say(
    overrides: ConfigOverrides,
    cli: Cli,
    provider: Option<String>,
    default_model: Option<String>,
    linux_sandbox_exe: Option<PathBuf>,
) -> bool {
    &&& overrides.model == requested_model(cli, default_model)
    &&& (overrides.sandbox_mode, overrides.approval_policy) == requested_permissions(cli)
    &&& overrides.cwd == cli.cwd
    &&& overrides.model_provider == provider
    &&& overrides.config_profile == cli.config_profile
    &&& overrides.codex_linux_sandbox_exe == linux_sandbox_exe
    &&& overrides.show_raw_agent_reasoning == if cli.oss {
        Some(true)
    } else {
        None
    }
    &&& overrides.additional_writable_roots@ == cli.add_dir@
}

fn copied_text(text: &Option<String>) -> (copy: Option<String>)
    ensures
        copy == *text,
{
    match text {
        Some(text) => Some(text.clone()),
        None => None,
    }
}

fn copied_path(path: &Option<PathBuf>) -> (copy: Option<PathBuf>)
    ensures
        copy == *path,
{
    match path {
        Some(path) => Some(path.clone()),
        None => None,
    }
}

fn copied_paths(paths: &Vec<PathBuf>) -> (copy: Vec<PathBuf>)
    ensures
        copy@ == paths@,
{
    let mut copy: Vec<PathBuf> = Vec::new();
    let mut i: usize = 0;
    while i < paths.len()
        invariant
            i <= paths@.len(),
            copy@ == paths@.take(i as int),
        decreases paths@.len() - i,
    {
        copy.push(paths[i].clone());
        i += 1;
    }
    assert(copy@ =~= paths@);
    copy
}

/// What the command line overrides in the configuration.
pub fn config_overrides(
    cli: &Cli,
    provider: &Option<String>,
    default_model: &Option<String>,
    linux_sandbox_exe: &Option<PathBuf>,
) -> (overrides: ConfigOverrides)
    ensures
        overrides_say(overrides, *cli, *provider, *default_model, *linux_sandbox_exe),
{
    let (sandbox_mode, approval_policy) = permissions(cli);
    let model = if cli.model.is_some() {
        copied_text(&cli.model)
    } else if cli.oss {
        copied_text(default_model)
    } else {
        None
    };
    ConfigOverrides {
        model,
        approval_policy,
        sandbox_mode,
        cwd: copied_path(&cli.cwd),
        model_provider: copied_text(provider),
        config_profile: copied_text(&cli.config_profile),
        codex_linux_sandbox_exe: copied_path(linux_sandbox_exe),
        show_raw_agent_reasoning: if cli.oss {
            Some(true)
        } else {
            None
        },
        additional_writable_roots: copied_paths(&cli.add_dir),
    }
}

/// `--full-auto` sandboxes to the workspace and asks on request, whatever else is given.
pub proof fn law_full_auto_comes_first(cli: Cli)
    requires
        cli.full_auto,
    ensures
        requested_permissions(cli) == (
            Some(SandboxMode::WorkspaceWrite),
            Some(AskForApproval::OnRequest),
        ),
{
}

/// Nothing but the bypass flag or an explicit setting gives up the sandbox or
/// the approvals.
pub proof fn law_protection_is_given_up_only_on_request(cli: Cli)
    ensures
        requested_permissions(cli).0 == Some(SandboxMode::DangerFullAccess) ==> !cli.full_auto && (
        cli.dangerously_bypass_approvals_and_sandbox || cli.sandbox_mode == Some(
            SandboxMode::DangerFullAccess,
        )),
        requested_permissions(cli).1 == Some(AskForApproval::Never) ==> !cli.full_auto && (
        cli.dangerously_bypass_approvals_and_sandbox || cli.approval_policy == Some(
            AskForApproval::Never,
        )),
{
}

/// A model that is given is the model that is asked for, and without `--oss` no
/// other is.
pub proof fn law_given_model_wins(cli: Cli, default_model: Option<String>)
    ensures
        cli.model is Some ==> requested_model(cli, default_model) == cli.model,
        !cli.oss ==> requested_model(cli, default_model) == cli.model,
{
}

/// What a call of [`permissions`] gives, for every command line: the safe pair for
/// `--full-auto`, else the unprotected pair for the bypass flag, else each setting just
/// as it was given, whether or not the other one was.
pub proof fn law_permissions_are_as_asked(
    cli: Cli,
    settings: (Option<SandboxMode>, Option<AskForApproval>),
)
    requires
        call_ensures(permissions, (&cli,), settings),
    ensures
        cli.full_auto ==> settings.0 == Some(SandboxMode::WorkspaceWrite) && settings.1 == Some(
            AskForApproval::OnRequest,
        ),
        !cli.full_auto && cli.dangerously_bypass_approvals_and_sandbox ==> settings.0 == Some(
            SandboxMode::DangerFullAccess,
        ) && settings.1 == Some(AskForApproval::Never),
        !cli.full_auto && !cli.dangerously_bypass_approvals_and_sandbox ==> settings.0
            == cli.sandbox_mode && settings.1 == cli.approval_policy,
{
}

/// What a call of [`raw_overrides`] gives: those that were given, in their places, and
/// behind them, exactly for `--search`, one more that turns live search on.
pub proof fn law_given_overrides_keep_their_places(cli: Cli, overrides: Vec<String>)
    requires
        call_ensures(raw_overrides, (&cli,), overrides),
    ensures
        overrides@.len() == cli.raw_overrides@.len() + if cli.web_search {
            1int
        } else {
            0int
        },
        forall|i: int|
            0 <= i < cli.raw_overrides@.len() ==> #[trigger] overrides@[i] == cli.raw_overrides@[i],
        cli.web_search ==> overrides@[cli.raw_overrides@.len() as int]@ == "web_search=\"live\""@,
{
    if cli.web_search {
        assert forall|i: int| 0 <= i < cli.raw_overrides@.len() implies #[trigger] overrides@[i]
            == cli.raw_overrides@[i] by {
            assert(overrides@.drop_last()[i] == overrides@[i]);
        }
    }
}

/// What a call of [`chatgpt_base_url`] gives: an address that is configured counts, and
/// only without one the public one does.
pub proof fn law_configured_address_counts(toml: ConfigToml, url: String)
    requires
        call_ensures(chatgpt_base_url, (&toml,), url),
    ensures
        toml.chatgpt_base_url matches Some(configured) ==> url@ == configured@,
        toml.chatgpt_base_url is None ==> url@ == "https://chatgpt.com/backend-api/"@,
{
}

/// What a call of [`config_overrides`] gives, setting by setting. Nothing that was
/// given is lost, whatever else was given, and nothing is added but the model and the
/// raw reasoning that go with a local provider.
pub proof fn law_overrides_carry_the_command_line(
    cli: Cli,
    provider: Option<String>,
    default_model: Option<String>,
    linux_sandbox_exe: Option<PathBuf>,
    overrides: ConfigOverrides,
)
    requires
        call_ensures(
            config_overrides,
            (&cli, &provider, &default_model, &linux_sandbox_exe),
            overrides,
        ),
    ensures
        cli.model is Some ==> overrides.model == cli.model,
        cli.model is None && cli.oss ==> overrides.model == default_model,
        cli.model is None && !cli.oss ==> overrides.model is None,
        cli.full_auto ==> overrides.sandbox_mode == Some(SandboxMode::WorkspaceWrite)
            && overrides.approval_policy == Some(AskForApproval::OnRequest),
        !cli.full_auto && cli.dangerously_bypass_approvals_and_sandbox ==> overrides.sandbox_mode
            == Some(SandboxMode::DangerFullAccess) && overrides.approval_policy == Some(
            AskForApproval::Never,
        ),
        !cli.full_auto && !cli.dangerously_bypass_approvals_and_sandbox ==> overrides.sandbox_mode
            == cli.sandbox_mode && overrides.approval_policy == cli.approval_policy,
        overrides.cwd == cli.cwd,
        overrides.model_provider == provider,
        overrides.config_profile == cli.config_profile,
        overrides.codex_linux_sandbox_exe == linux_sandbox_exe,
        cli.oss ==> overrides.show_raw_agent_reasoning == Some(true),
        !cli.oss ==> overrides.show_raw_agent_reasoning is None,
        overrides.additional_writable_roots@ == cli.add_dir@,
{
}

/// The four settings that speak of the sandbox and the approvals decide on them: two
/// command lines that agree on these get the same, whatever else they say.
pub proof fn law_nothing_else_touches_permissions(
    a: Cli,
    b: Cli,
    of_a: (Option<SandboxMode>, Option<AskForApproval>),
    of_b: (Option<SandboxMode>, Option<AskForApproval>),
)
    requires
        a.full_auto == b.full_auto,
        a.dangerously_bypass_approvals_and_sandbox == b.dangerously_bypass_approvals_and_sandbox,
        a.sandbox_mode == b.sandbox_mode,
        a.approval_policy == b.approval_policy,
        call_ensures(permissions, (&a,), of_a),
        call_ensures(permissions, (&b,), of_b),
    ensures
        of_a == of_b,
{
}

} // verus!
