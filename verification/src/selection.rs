//! Which session the command line asks for.

use std::path::PathBuf;

use vstd::prelude::*;

use crate::session_id::{is_session_id, is_uuid};
use crate::types::{Cli, CwdPromptAction, SessionSelection};

verus! {

/// How the session to open is found.
pub enum Lookup {
    /// There is none to be found: a new one is started.
    Fresh,
    /// By its id, or else by its name.
    Named { action: CwdPromptAction, id: String, by_id: bool },
    /// It is the one used last.
    Latest { action: CwdPromptAction },
    /// The user picks it.
    Picker { action: CwdPromptAction },
}

/// An earlier session is to be forked.
pub open spec fn forks(cli: Cli) -> bool {
    cli.fork_picker || cli.fork_last || cli.fork_session_id is Some
}

/// What is done with an earlier session, if one is used. Any flag that forks
/// rules out resuming.
pub open spec fn requested_action(cli: Cli) -> CwdPromptAction {
    if forks(cli) {
        CwdPromptAction::Fork
    } else {
        CwdPromptAction::Resume
    }
}

/// The name or id of the session that is asked for.
pub open spec fn requested_id(cli: Cli) -> Option<String> {
    if forks(cli) {
        cli.fork_session_id
    } else {
        cli.resume_session_id
    }
}

/// A session that is named comes before the last one, and that before the picker.
pub open spec fn requested_lookup(cli: Cli) -> Lookup {
    let action = requested_action(cli);
    if requested_id(cli) is Some {
        let id = requested_id(cli)->0;
        Lookup::Named { action, id, by_id: is_uuid(id@) }
    } else if (forks(cli) && cli.fork_last) || (!forks(cli) && cli.resume_last) {
        Lookup::Latest { action }
    } else if forks(cli) || cli.resume_picker {
        Lookup::Picker { action }
    } else {
        Lookup::Fresh
    }
}

fn named(action: CwdPromptAction, id: &String) -> (lookup: Lookup)
    ensures
        lookup == (Lookup::Named { action, id: *id, by_id: is_uuid(id@) }),
{
    let by_id = is_session_id(id.as_str());
    Lookup::Named { action, id: id.clone(), by_id }
}

/// How the session that the command line asks for is found.
pub fn session_lookup(cli: &Cli) -> (lookup: Lookup)
    ensures
        lookup == requested_lookup(*cli),
{
    let use_fork = cli.fork_picker || cli.fork_last || cli.fork_session_id.is_some();
    if use_fork {
        match &cli.fork_session_id {
            Some(id) => named(CwdPromptAction::Fork, id),
            None => if cli.fork_last {
                Lookup::Latest { action: CwdPromptAction::Fork }
            } else {
                Lookup::Picker { action: CwdPromptAction::Fork }
            },
        }
    } else {
        match &cli.resume_session_id {
            Some(id) => named(CwdPromptAction::Resume, id),
            None => if cli.resume_last {
                Lookup::Latest { action: CwdPromptAction::Resume }
            } else if cli.resume_picker {
                Lookup::Picker { action: CwdPromptAction::Resume }
            } else {
                Lookup::Fresh
            },
        }
    }
}

/// Doing that with the session at the path.
pub open spec fn selection_of(action: CwdPromptAction, path: PathBuf) -> SessionSelection {
    match action {
        CwdPromptAction::Resume => SessionSelection::Resume(path),
        CwdPromptAction::Fork => SessionSelection::Fork(path),
    }
}

/// Doing that with the session at the path.
pub fn select(action: CwdPromptAction, path: PathBuf) -> (selection: SessionSelection)
    ensures
        selection == selection_of(action, path),
{
    match action {
        CwdPromptAction::Resume => SessionSelection::Resume(path),
        CwdPromptAction::Fork => SessionSelection::Fork(path),
    }
}

/// The first of the sessions listed, which is the last one used, if there is any.
pub fn latest_listed(rollouts: Vec<PathBuf>) -> (latest: Option<PathBuf>)
    ensures
        latest == if rollouts@.len() > 0 {
            Some(rollouts@[0])
        } else {
            None
        },
{
    if rollouts.len() > 0 {
        Some(rollouts[0].clone())
    } else {
        None
    }
}

/// The sessions to choose from are not limited to those of the current directory.
pub open spec fn shows_all(cli: Cli, action: CwdPromptAction) -> bool {
    match action {
        CwdPromptAction::Resume => cli.resume_show_all,
        CwdPromptAction::Fork => cli.fork_show_all,
    }
}

/// Whether the picker shows the sessions of all directories.
pub fn show_all(cli: &Cli, action: CwdPromptAction) -> (all: bool)
    ensures
        all == shows_all(*cli, action),
{
    match action {
        CwdPromptAction::Resume => cli.resume_show_all,
        CwdPromptAction::Fork => cli.fork_show_all,
    }
}

/// What the user is told when there is no session of that name or id.
pub open spec fn no_session_text(action: CwdPromptAction, id: Seq<char>) -> Seq<char> {
    "No saved session found with ID "@ + id + ". Run `codex "@ + (match action {
        CwdPromptAction::Resume => "resume"@,
        CwdPromptAction::Fork => "fork"@,
    }) + "` without an ID to choose from existing sessions."@
}

/// What the user is told when there is no session of that name or id.
pub fn no_session_message(action: CwdPromptAction, id: &str) -> (message: String)
    ensures
        message@ == no_session_text(action, id@),
{
    let command = match action {
        CwdPromptAction::Resume => "resume",
        CwdPromptAction::Fork => "fork",
    };
    "No saved session found with ID ".to_owned().concat(id).concat(". Run `codex ").concat(
        command,
    ).concat("` without an ID to choose from existing sessions.")
}

/// The flags that fork are the same.
pub open spec fn same_fork_flags(a: Cli, b: Cli) -> bool {
    &&& a.fork_picker == b.fork_picker
    &&& a.fork_last == b.fork_last
    &&& a.fork_session_id == b.fork_session_id
}

/// Forking rules out resuming: where a flag forks, the flags that resume do not matter.
pub proof fn law_fork_shadows_resume(a: Cli, b: Cli)
    requires
        forks(a),
        same_fork_flags(a, b),
    ensures
        requested_lookup(a) == requested_lookup(b),
        requested_lookup(a) matches Lookup::Named { action, .. } ==> action is Fork,
        requested_lookup(a) matches Lookup::Latest { action } ==> action is Fork,
        requested_lookup(a) matches Lookup::Picker { action } ==> action is Fork,
        !(requested_lookup(a) is Fresh),
{
}

/// A new session is started exactly if no flag asks for an earlier one.
pub proof fn law_fresh_without_flags(cli: Cli)
    ensures
        requested_lookup(cli) is Fresh <==> !forks(cli) && cli.resume_session_id is None
            && !cli.resume_last && !cli.resume_picker,
{
}

/// What a call of [`session_lookup`] gives for a command line that forks: the session
/// that it names, as what it is named by, else the last one, else one that is picked,
/// and always to be forked.
pub proof fn law_fork_flags_are_followed(cli: Cli, lookup: Lookup)
    requires
        call_ensures(session_lookup, (&cli,), lookup),
    ensures
        cli.fork_session_id matches Some(id) ==> lookup == (Lookup::Named {
            action: CwdPromptAction::Fork,
            id,
            by_id: is_uuid(id@),
        }),
        cli.fork_session_id is None && cli.fork_last ==> lookup == (Lookup::Latest {
            action: CwdPromptAction::Fork,
        }),
        cli.fork_session_id is None && !cli.fork_last && cli.fork_picker ==> lookup
            == (Lookup::Picker { action: CwdPromptAction::Fork }),
{
}

/// What a call of [`session_lookup`] gives for a command line that does not fork: the
/// session that it names, else the last one, else one that is picked, to be resumed, and
/// a new one where it asks for none.
pub proof fn law_resume_flags_are_followed(cli: Cli, lookup: Lookup)
    requires
        !cli.fork_picker && !cli.fork_last && cli.fork_session_id is None,
        call_ensures(session_lookup, (&cli,), lookup),
    ensures
        cli.resume_session_id matches Some(id) ==> lookup == (Lookup::Named {
            action: CwdPromptAction::Resume,
            id,
            by_id: is_uuid(id@),
        }),
        cli.resume_session_id is None && cli.resume_last ==> lookup == (Lookup::Latest {
            action: CwdPromptAction::Resume,
        }),
        cli.resume_session_id is None && !cli.resume_last && cli.resume_picker ==> lookup
            == (Lookup::Picker { action: CwdPromptAction::Resume }),
        cli.resume_session_id is None && !cli.resume_last && !cli.resume_picker ==> lookup
            == Lookup::Fresh,
{
}

/// A session is opened at the path it was found at, and in the way it was asked for:
/// calls of [`select`] give the same only for the same action and path.
pub proof fn law_selection_tells_action_and_path(
    action: CwdPromptAction,
    path: PathBuf,
    selection: SessionSelection,
)
    requires
        call_ensures(select, (action, path), selection),
    ensures
        selection is Resume <==> action is Resume,
        selection is Fork <==> action is Fork,
        selection matches SessionSelection::Resume(p) ==> p == path,
        selection matches SessionSelection::Fork(p) ==> p == path,
{
}

/// What a call of [`latest_listed`] gives: the first of the sessions that were listed,
/// however many there are, and none only if there is none.
pub proof fn law_latest_is_the_first_listed(rollouts: Vec<PathBuf>, latest: Option<PathBuf>)
    requires
        call_ensures(latest_listed, (rollouts,), latest),
    ensures
        latest is None <==> rollouts@.len() == 0,
        latest matches Some(path) ==> path == rollouts@.first(),
{
}

/// What a call of [`show_all`] gives: each action goes by its own flag.
pub proof fn law_each_action_has_its_own_show_all(cli: Cli, action: CwdPromptAction, all: bool)
    requires
        call_ensures(show_all, (&cli, action), all),
    ensures
        action is Resume ==> all == cli.resume_show_all,
        action is Fork ==> all == cli.fork_show_all,
{
}

/// What a call of [`no_session_message`] gives: it names the session as it was asked
/// for, and the command that shows the others.
pub proof fn law_missing_session_message(action: CwdPromptAction, id: &str, message: String)
    requires
        call_ensures(no_session_message, (action, id), message),
    ensures
        action is Resume ==> message@ == "No saved session found with ID "@ + id@
            + ". Run `codex "@ + "resume"@
            + "` without an ID to choose from existing sessions."@,
        action is Fork ==> message@ == "No saved session found with ID "@ + id@
            + ". Run `codex "@ + "fork"@ + "` without an ID to choose from existing sessions."@,
{
}

} // verus!
