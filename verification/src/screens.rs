//! Which screens come before the session, and on which screen buffer it runs.

use vstd::prelude::*;

use crate::types::{AltScreenMode, AuthMode, Config, LoginStatus, Multiplexer, WindowsSandboxLevel};

verus! {

/// The alternate screen is wanted. `--no-alt-screen` rules it out; otherwise the
/// setting decides, and `auto` gives it up in Zellij alone, which keeps no
/// scrollback there.
pub open spec fn wants_alt_screen(
    no_alt_screen: bool,
    mode: AltScreenMode,
    multiplexer: Option<Multiplexer>,
) -> bool {
    &&& !no_alt_screen
    &&& mode is Always || (mode is Auto && multiplexer != Some(Multiplexer::Zellij))
}

/// The multiplexer has a say in whether the alternate screen is used.
pub open spec fn multiplexer_decides(no_alt_screen: bool, mode: AltScreenMode) -> bool {
    !no_alt_screen && mode is Auto
}

/// Whether the terminal has to be looked at before
/// [`determine_alt_screen_mode`] can answer.
pub fn needs_multiplexer(no_alt_screen: bool, tui_alternate_screen: AltScreenMode) -> (needs: bool)
    ensures
        needs == multiplexer_decides(no_alt_screen, tui_alternate_screen),
{
    !no_alt_screen && matches!(tui_alternate_screen, AltScreenMode::Auto)
}

/// Whether to use the terminal's alternate screen buffer, in the given
/// multiplexer.
///
/// The alternate screen gives a clean fullscreen view that leaves the scrollback
/// alone. Zellij keeps no scrollback there and cannot be told to, so `auto`
/// stays out of it in Zellij.
pub fn determine_alt_screen_mode(
    no_alt_screen: bool,
    tui_alternate_screen: AltScreenMode,
    multiplexer: Option<Multiplexer>,
) -> (alt_screen: bool)
    ensures
        alt_screen == wants_alt_screen(no_alt_screen, tui_alternate_screen, multiplexer),
{
    if no_alt_screen {
        false
    } else {
        match tui_alternate_screen {
            AltScreenMode::Always => true,
            AltScreenMode::Never => false,
            AltScreenMode::Auto => !matches!(multiplexer, Some(Multiplexer::Zellij)),
        }
    }
}

/// The login status that the stored credentials show: `stored` is what reading
/// them gave, which a provider without OpenAI login does not ask for. Credentials
/// that cannot be read count as none.
pub fn get_login_status(config: &Config, stored: Result<Option<AuthMode>, String>) -> (status: LoginStatus)
    ensures
        status == login_status(config.requires_openai_auth, stored),
{
    if config.requires_openai_auth {
        match stored {
            Ok(Some(mode)) => LoginStatus::AuthMode(mode),
            Ok(None) => LoginStatus::NotAuthenticated,
            Err(_) => LoginStatus::NotAuthenticated,
        }
    } else {
        LoginStatus::NotAuthenticated
    }
}

/// The user is logged in exactly if the provider wants it and credentials were found.
pub open spec fn login_status(
    requires_openai_auth: bool,
    stored: Result<Option<AuthMode>, String>,
) -> LoginStatus {
    if requires_openai_auth && stored is Ok && stored->Ok_0 is Some {
        LoginStatus::AuthMode(stored->Ok_0->0)
    } else {
        LoginStatus::NotAuthenticated
    }
}

/// The user is to be asked whether to trust the project: nothing is decided yet,
/// neither for the project nor by explicit settings, and the answer would have
/// an effect on this platform.
pub open spec fn shows_trust(config: Config, native_windows: bool) -> bool {
    &&& config.trust_level is None
    &&& !config.did_user_set_custom_approval_policy_or_sandbox_mode
    &&& native_windows ==> !(config.windows_sandbox_level is Disabled)
}

/// The user is to be asked to log in.
pub open spec fn shows_login(status: LoginStatus, config: Config) -> bool {
    config.requires_openai_auth && status is NotAuthenticated
}

/// Whether the user has configured a sandbox or approval policy, or the current
/// project is already decided on. If not, the trust screen is shown.
pub fn should_show_trust_screen(config: &Config, native_windows: bool) -> (show: bool)
    ensures
        show == shows_trust(*config, native_windows),
{
    if native_windows && matches!(config.windows_sandbox_level, WindowsSandboxLevel::Disabled) {
        // Without its sandbox, native Windows cannot confine writes: there is
        // nothing to ask.
        return false;
    }
    if config.did_user_set_custom_approval_policy_or_sandbox_mode {
        return false;
    }
    config.trust_level.is_none()
}

/// Whether the session opens with the onboarding screens.
pub fn should_show_onboarding(
    login_status: LoginStatus,
    config: &Config,
    show_trust_screen: bool,
) -> (show: bool)
    ensures
        show == (show_trust_screen || shows_login(login_status, *config)),
{
    if show_trust_screen {
        return true;
    }
    should_show_login_screen(login_status, config)
}

/// Whether the login screen is shown: only for providers that want an OpenAI
/// login, and only to a user without one.
pub fn should_show_login_screen(login_status: LoginStatus, config: &Config) -> (show: bool)
    ensures
        show == shows_login(login_status, *config),
{
    if !config.requires_openai_auth {
        return false;
    }
    matches!(login_status, LoginStatus::NotAuthenticated)
}

/// `--no-alt-screen` rules the alternate screen out, whatever is configured.
pub proof fn law_no_alt_screen_wins(mode: AltScreenMode, multiplexer: Option<Multiplexer>)
    ensures
        !wants_alt_screen(true, mode, multiplexer),
{
}

/// Without the flag, `always` means everywhere, `never` nowhere, and `auto`
/// everywhere but in Zellij.
pub proof fn law_alt_screen_setting(multiplexer: Option<Multiplexer>)
    ensures
        wants_alt_screen(false, AltScreenMode::Always, multiplexer),
        !wants_alt_screen(false, AltScreenMode::Never, multiplexer),
        !wants_alt_screen(false, AltScreenMode::Auto, multiplexer) <==> multiplexer == Some(
            Multiplexer::Zellij,
        ),
{
}

/// Where the multiplexer does not decide, the answer is the same in all of them.
pub proof fn law_multiplexer_matters_only_when_it_decides(
    no_alt_screen: bool,
    mode: AltScreenMode,
    one: Option<Multiplexer>,
    other: Option<Multiplexer>,
)
    requires
        !multiplexer_decides(no_alt_screen, mode),
    ensures
        wants_alt_screen(no_alt_screen, mode, one) == wants_alt_screen(no_alt_screen, mode, other),
{
}

/// A provider that wants no OpenAI login never brings up the login screen, and
/// what credentials there are does not matter.
pub proof fn law_no_login_without_openai(
    config: Config,
    status: LoginStatus,
    stored: Result<Option<AuthMode>, String>,
)
    requires
        !config.requires_openai_auth,
    ensures
        !shows_login(status, config),
        login_status(config.requires_openai_auth, stored) is NotAuthenticated,
{
}

/// Who is logged in is not asked to log in, and who is not is asked, where the
/// provider wants a login.
pub proof fn law_login_screen_follows_credentials(
    config: Config,
    stored: Result<Option<AuthMode>, String>,
)
    requires
        config.requires_openai_auth,
    ensures
        shows_login(login_status(true, stored), config) <==> !(stored is Ok && stored->Ok_0 is Some),
{
}

/// Once the project is decided on, either way, or the user has made explicit
/// settings, trust is not asked for.
pub proof fn law_trust_is_asked_once(config: Config, native_windows: bool)
    requires
        config.trust_level is Some || config.did_user_set_custom_approval_policy_or_sandbox_mode,
    ensures
        !shows_trust(config, native_windows),
{
}

/// Native Windows asks for trust only with its sandbox; elsewhere that sandbox
/// does not matter.
pub proof fn law_trust_on_windows(config: Config, level: WindowsSandboxLevel)
    ensures
        config.windows_sandbox_level is Disabled ==> !shows_trust(config, true),
        config.windows_sandbox_level is Enabled ==> shows_trust(config, true) == shows_trust(
            config,
            false,
        ),
        shows_trust(config, false) == shows_trust(
            Config { windows_sandbox_level: level, ..config },
            false,
        ),
{
}

/// What a call of [`determine_alt_screen_mode`] gives: never with `--no-alt-screen`;
/// without it, always, never, or everywhere but in Zellij, as is set.
pub proof fn law_alternate_screen_is_used_as_set(
    no_alt_screen: bool,
    mode: AltScreenMode,
    multiplexer: Option<Multiplexer>,
    alt_screen: bool,
)
    requires
        call_ensures(determine_alt_screen_mode, (no_alt_screen, mode, multiplexer), alt_screen),
    ensures
        no_alt_screen ==> !alt_screen,
        !no_alt_screen && mode is Always ==> alt_screen,
        mode is Never ==> !alt_screen,
        !no_alt_screen && mode is Auto ==> (alt_screen <==> multiplexer != Some(
            Multiplexer::Zellij,
        )),
{
}

/// A call of [`needs_multiplexer`] says yes exactly where two multiplexers can make a
/// difference to [`determine_alt_screen_mode`].
pub proof fn law_multiplexer_is_needed_where_it_makes_a_difference(
    no_alt_screen: bool,
    mode: AltScreenMode,
    needs: bool,
    in_zellij: bool,
    outside: bool,
)
    requires
        call_ensures(needs_multiplexer, (no_alt_screen, mode), needs),
        call_ensures(
            determine_alt_screen_mode,
            (no_alt_screen, mode, Some(Multiplexer::Zellij)),
            in_zellij,
        ),
        call_ensures(determine_alt_screen_mode, (no_alt_screen, mode, None), outside),
    ensures
        needs <==> in_zellij != outside,
{
}

/// What a call of [`get_login_status`] gives: the user is logged in the way that the
/// stored credentials say, where the provider wants a login and there are any, and not
/// at all otherwise.
pub proof fn law_login_status_is_that_of_the_credentials(
    config: Config,
    stored: Result<Option<AuthMode>, String>,
    status: LoginStatus,
)
    requires
        call_ensures(get_login_status, (&config, stored), status),
    ensures
        config.requires_openai_auth ==> (stored matches Ok(Some(mode)) ==> status
            == LoginStatus::AuthMode(mode)),
        stored == Ok::<Option<AuthMode>, String>(None) ==> status is NotAuthenticated,
        stored is Err ==> status is NotAuthenticated,
        !config.requires_openai_auth ==> status is NotAuthenticated,
{
}

/// A call of [`should_show_trust_screen`] says yes exactly if the project is undecided,
/// no explicit setting was made, and the platform can act on the answer.
pub proof fn law_trust_is_asked_where_it_is_open(config: Config, native_windows: bool, show: bool)
    requires
        call_ensures(should_show_trust_screen, (&config, native_windows), show),
    ensures
        config.trust_level is Some ==> !show,
        config.did_user_set_custom_approval_policy_or_sandbox_mode ==> !show,
        native_windows && config.windows_sandbox_level is Disabled ==> !show,
        config.trust_level is None && !config.did_user_set_custom_approval_policy_or_sandbox_mode
            && (!native_windows || config.windows_sandbox_level is Enabled) ==> show,
{
}

/// A call of [`should_show_login_screen`] says yes exactly if the provider wants a login
/// and the user has none, and one of [`should_show_onboarding`] exactly if either screen
/// is to be shown, however the user is logged in.
pub proof fn law_onboarding_shows_what_is_open(
    status: LoginStatus,
    config: Config,
    show_trust: bool,
    show_login: bool,
    show: bool,
)
    requires
        call_ensures(should_show_login_screen, (status, &config), show_login),
        call_ensures(should_show_onboarding, (status, &config, show_trust), show),
    ensures
        show_login <==> config.requires_openai_auth && status == LoginStatus::NotAuthenticated,
        show <==> show_trust || show_login,
{
}

} // verus!
