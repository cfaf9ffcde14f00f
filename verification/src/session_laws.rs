//! What holds of every run of a session, whatever comes back from the outside.

use std::path::PathBuf;

use vstd::prelude::*;

use crate::cwd::{CwdEvent, CwdResolution, CwdStep};
use crate::overrides::{overrides_say, requested_permissions};
use crate::screens::{multiplexer_decides, shows_trust, wants_alt_screen};
use crate::selection::{
    forks, no_session_text, requested_action, requested_id, requested_lookup, selection_of,
};
use crate::session::{
    CleanupStep, Session, SessionEnd, SessionEvent, SessionStep, SessionWork,
};
use crate::session_id::is_uuid;
use crate::startup::Outcome;
use crate::types::{
    AppExitInfo, Cli, CloudRequirements, Config, CwdPromptAction, CwdSelection, ExitReason,
    LoginStatus, Multiplexer, SessionSelection, UpdateAction,
};

verus! {

impl Session {
    /// The session after a run of events.
    pub open spec fn run(self, events: Seq<SessionEvent>) -> Session
        decreases events.len(),
    {
        if events.len() == 0 {
            self
        } else {
            self.run(events.drop_last()).after(events.last())
        }
    }

    /// During the run, an event came at a step, both as `at` says.
    pub open spec fn met(
        self,
        events: Seq<SessionEvent>,
        at: spec_fn(SessionStep, SessionEvent) -> bool,
    ) -> bool {
        exists|i: int|
            #![trigger events[i]]
            0 <= i < events.len() && at(self.run(events.take(i)).step, events[i])
    }

    /// The session that is opened, once that is settled.
    pub open spec fn selection(self) -> Option<SessionSelection> {
        match self.step {
            SessionStep::ApplyResidency { selection } | SessionStep::DetectMultiplexer {
                selection,
            } | SessionStep::RunApp { selection, .. } => Some(selection),
            _ => None,
        }
    }
}

proof fn lemma_met_earlier(
    start: Session,
    events: Seq<SessionEvent>,
    at: spec_fn(SessionStep, SessionEvent) -> bool,
)
    requires
        events.len() > 0,
        start.met(events.drop_last(), at),
    ensures
        start.met(events, at),
{
    let earlier = events.drop_last();
    let i = choose|i: int|
        #![trigger earlier[i]]
        0 <= i < earlier.len() && at(start.run(earlier.take(i)).step, earlier[i]);
    assert(earlier.take(i) =~= events.take(i));
    assert(events[i] == earlier[i]);
}

proof fn lemma_met_last(
    start: Session,
    events: Seq<SessionEvent>,
    at: spec_fn(SessionStep, SessionEvent) -> bool,
)
    requires
        events.len() > 0,
        at(start.run(events.drop_last()).step, events.last()),
    ensures
        start.met(events, at),
{
    assert(events.take(events.len() - 1) =~= events.drop_last());
    assert(events[events.len() - 1] == events.last());
}

/// What the session was started with does not change, and what it remembers keeps
/// fitting together.
pub proof fn law_session_stays_well_formed(start: Session, events: Seq<SessionEvent>)
    requires
        start.wf(),
    ensures
        start.run(events).wf(),
        start.run(events).cli == start.cli,
        start.run(events).build == start.build,
        start.run(events).cli_overrides == start.cli_overrides,
        start.run(events).overrides == start.overrides,
    decreases events.len(),
{
    if events.len() > 0 {
        law_session_stays_well_formed(start, events.drop_last());
        start.run(events.drop_last()).lemma_after_fits(events.last());
    }
}

/// The session comes to an end: it takes at most sixteen events that it waits
/// for, and every one of them brings it nearer.
pub proof fn law_session_ends(start: Session, events: Seq<SessionEvent>)
    requires
        forall|i: int|
            #![trigger events[i]]
            0 <= i < events.len() ==> start.run(events.take(i)).awaits(events[i]),
    ensures
        start.run(events).rank() + events.len() <= start.rank(),
        start.rank() <= 16,
    decreases events.len(),
{
    if events.len() > 0 {
        let earlier = events.drop_last();
        assert forall|i: int| #![trigger earlier[i]] 0 <= i < earlier.len() implies start.run(
            earlier.take(i),
        ).awaits(earlier[i]) by {
            assert(earlier[i] == events[i]);
            assert(earlier.take(i) =~= events.take(i));
        }
        law_session_ends(start, earlier);
        assert(events.take(events.len() - 1) =~= earlier);
        assert(events[events.len() - 1] == events.last());
        start.run(earlier).lemma_after_is_nearer(events.last());
    }
}

/// The end is final: nothing that comes later changes it.
pub proof fn law_session_end_is_final(session: Session, events: Seq<SessionEvent>)
    requires
        session.step is Ended,
    ensures
        session.run(events) == session,
    decreases events.len(),
{
    if events.len() > 0 {
        law_session_end_is_final(session, events.drop_last());
    }
}

/// The session is under way, or it ends with what the application returned.
pub open spec fn is_alive(session: Session) -> bool {
    session.step matches SessionStep::Ended(end) ==> end is App
}

/// The event is no reason to end the session before the application has run.
pub open spec fn is_good_news(step: SessionStep, event: SessionEvent) -> bool {
    match event {
        SessionEvent::Failed(_) => step is FindLatest,
        SessionEvent::UpdateAnswered(chosen) => chosen is None,
        SessionEvent::Onboarded { should_exit, .. } => !should_exit,
        SessionEvent::Found(found) => step is FindSession ==> found is Some,
        SessionEvent::Picked(selection) => !(selection is Exit),
        _ => true,
    }
}

#[verifier::rlimit(40)]
proof fn lemma_stays_alive(session: Session, event: SessionEvent)
    requires
        is_alive(session),
        is_good_news(session.step, event),
        !(session.step is RestoreForUpdate),
    ensures
        is_alive(session.after(event)),
        !(session.after(event).step is RestoreForUpdate),
{
    if let SessionEvent::Failed(error) = event {
        assert(session.awaits(event) ==> is_alive(session.after_failure(error)));
    } else {
        match session.step {
            SessionStep::StartLog | SessionStep::ReadCredentials | SessionStep::Onboard { .. }
            | SessionStep::Reload { .. } => {
                assert(is_alive(session.after(event)));
            },
            SessionStep::FindSession { .. } | SessionStep::FindLatest { .. }
            | SessionStep::PickSession { .. } | SessionStep::ResolveCwd { .. } => {
                assert(is_alive(session.after(event)));
            },
            _ => {
                assert(is_alive(session.after(event)));
            },
        }
    }
}

/// Good news lead to the application: as long as nothing fails, no update is
/// chosen and the user does not leave, the session does not end but with what the
/// application returned.
pub proof fn law_good_news_lead_to_the_application(start: Session, events: Seq<SessionEvent>)
    requires
        start.step is InitTerminal,
        forall|i: int|
            #![trigger events[i]]
            0 <= i < events.len() ==> is_good_news(start.run(events.take(i)).step, events[i]),
    ensures
        is_alive(start.run(events)),
        !(start.run(events).step is RestoreForUpdate),
    decreases events.len(),
{
    if events.len() > 0 {
        let earlier = events.drop_last();
        assert forall|i: int| #![trigger earlier[i]] 0 <= i < earlier.len() implies is_good_news(
            start.run(earlier.take(i)).step,
            earlier[i],
        ) by {
            assert(earlier[i] == events[i]);
            assert(earlier.take(i) =~= events.take(i));
        }
        law_good_news_lead_to_the_application(start, earlier);
        assert(events.take(events.len() - 1) =~= earlier);
        assert(events[events.len() - 1] == events.last());
        lemma_stays_alive(start.run(earlier), events.last());
    }
}

/// There is no dead end: until the session is over, it waits for something, and
/// good news are possible, a configuration or a rollout among them.
pub proof fn law_session_has_no_dead_end(
    session: Session,
    config: Config,
    path: PathBuf,
    result: Result<AppExitInfo, String>,
)
    requires
        !(session.step is Ended),
    ensures
        exists|event: SessionEvent| #[trigger]
            session.awaits(event) && is_good_news(session.step, event),
{
    let event = match session.step {
        SessionStep::InitTerminal | SessionStep::RestoreForUpdate { .. } | SessionStep::StartLog
        | SessionStep::ApplyResidency { .. } => SessionEvent::Done,
        SessionStep::RunApp { .. } => SessionEvent::AppReturned(result),
        SessionStep::PromptUpdate => SessionEvent::UpdateAnswered(None),
        SessionStep::ReadCredentials => SessionEvent::Credentials(Ok(None)),
        SessionStep::Onboard { .. } => SessionEvent::Onboarded {
            should_exit: false,
            trust_decided: false,
        },
        SessionStep::Reload { .. } | SessionStep::ReloadAt { .. } => SessionEvent::ConfigLoaded(
            config,
        ),
        SessionStep::FindSession { .. } | SessionStep::FindLatest { .. } => SessionEvent::Found(
            Some(path),
        ),
        SessionStep::PickSession { .. } => SessionEvent::Picked(SessionSelection::StartFresh),
        SessionStep::ResolveCwd { search, .. } => SessionEvent::Cwd(
            match search.step {
                CwdStep::ReadRollout | CwdStep::Resolved(_) => CwdEvent::LatestTurn(None),
                CwdStep::ReadMeta => CwdEvent::Meta(None),
                CwdStep::Compare { .. } => CwdEvent::Normalized { current: None, session: None },
                CwdStep::Prompt { .. } => CwdEvent::Selected(CwdSelection::Session),
            },
        ),
        SessionStep::DetectMultiplexer { .. } => SessionEvent::Multiplexer(None),
        SessionStep::Ended(_) => SessionEvent::Done,
    };
    assert(session.awaits(event));
}

/// Every end that is no error gives the terminal back: first of all on the way out,
/// and then the session log is ended, or, for an update, before it.
#[verifier::rlimit(40)]
pub proof fn law_terminal_is_given_back(start: Session, events: Seq<SessionEvent>, end: SessionEnd)
    requires
        start.step is InitTerminal,
        start.run(events).step == SessionStep::Ended(end),
        end.is_early() || end is App,
    ensures
        match end {
            SessionEnd::Update(action) => end.tidies().len() == 0 && start.met(
                events,
                |step: SessionStep, event: SessionEvent|
                    step == (SessionStep::RestoreForUpdate { action }) && event is Done,
            ),
            _ => end.tidies().len() >= 2 && end.tidies()[0] is RestoreTerminal
                && end.tidies()[1] is EndSessionLog,
        },
    decreases events.len(),
{
    if let SessionEnd::Update(action) = end {
        let at = |step: SessionStep, event: SessionEvent|
            step == (SessionStep::RestoreForUpdate { action }) && event is Done;
        let before = start.run(events.drop_last());
        if before.step == SessionStep::Ended(end) {
            law_terminal_is_given_back(start, events.drop_last(), end);
            lemma_met_earlier(start, events, at);
        } else {
            assert(at(before.step, events.last()));
            lemma_met_last(start, events, at);
        }
    }
}

#[verifier::rlimit(40)]
proof fn lemma_update_was_chosen(start: Session, events: Seq<SessionEvent>, action: UpdateAction)
    requires
        start.step is InitTerminal,
        start.run(events).step == (SessionStep::RestoreForUpdate { action }) || start.run(
            events,
        ).step == SessionStep::Ended(SessionEnd::Update(action)),
    ensures
        start.met(
            events,
            |step: SessionStep, event: SessionEvent|
                step is PromptUpdate && event == SessionEvent::UpdateAnswered(Some(action)),
        ),
    decreases events.len(),
{
    let at = |step: SessionStep, event: SessionEvent|
        step is PromptUpdate && event == SessionEvent::UpdateAnswered(Some(action));
    let before = start.run(events.drop_last());
    if before.step == (SessionStep::RestoreForUpdate { action }) || before.step
        == SessionStep::Ended(SessionEnd::Update(action)) {
        lemma_update_was_chosen(start, events.drop_last(), action);
        lemma_met_earlier(start, events, at);
    } else {
        assert(at(before.step, events.last()));
        lemma_met_last(start, events, at);
    }
}

/// An update that is handed on is the one that the user chose.
pub proof fn law_update_was_chosen(
    start: Session,
    events: Seq<SessionEvent>,
    action: UpdateAction,
    outcome: Outcome,
)
    requires
        start.step is InitTerminal,
        start.run(events).step == SessionStep::Ended(SessionEnd::Update(action)),
        SessionEnd::Update(action).comes_to(outcome),
    ensures
        outcome matches Outcome::Returned(Ok(info)) && info.update_action == Some(action)
            && info.exit_reason is UserRequested,
        start.met(
            events,
            |step: SessionStep, event: SessionEvent|
                step is PromptUpdate && event == SessionEvent::UpdateAnswered(Some(action)),
        ),
{
    lemma_update_was_chosen(start, events, action);
}

/// A session whose application has run returns what the application returned.
#[verifier::rlimit(40)]
pub proof fn law_session_returns_what_the_application_returned(
    start: Session,
    events: Seq<SessionEvent>,
    result: Result<AppExitInfo, String>,
    outcome: Outcome,
)
    requires
        start.step is InitTerminal,
        start.run(events).step == SessionStep::Ended(SessionEnd::App(result)),
        SessionEnd::App(result).comes_to(outcome),
    ensures
        outcome == Outcome::Returned(result),
        start.met(
            events,
            |step: SessionStep, event: SessionEvent|
                step is RunApp && event == SessionEvent::AppReturned(result),
        ),
    decreases events.len(),
{
    let at = |step: SessionStep, event: SessionEvent|
        step is RunApp && event == SessionEvent::AppReturned(result);
    let before = start.run(events.drop_last());
    if before.step == start.run(events).step {
        law_session_returns_what_the_application_returned(
            start,
            events.drop_last(),
            result,
            outcome,
        );
        lemma_met_earlier(start, events, at);
    } else {
        assert(at(before.step, events.last()));
        lemma_met_last(start, events, at);
    }
}

/// An error that the session returns is one that came back from the outside.
#[verifier::rlimit(40)]
pub proof fn law_session_error_came_back(start: Session, events: Seq<SessionEvent>, error: String)
    requires
        start.step is InitTerminal,
        start.run(events).step == SessionStep::Ended(SessionEnd::Error(error)),
    ensures
        start.met(
            events,
            |step: SessionStep, event: SessionEvent| event == SessionEvent::Failed(error),
        ),
    decreases events.len(),
{
    let at = |step: SessionStep, event: SessionEvent| event == SessionEvent::Failed(error);
    let before = start.run(events.drop_last());
    if before.step == start.run(events).step {
        law_session_error_came_back(start, events.drop_last(), error);
        lemma_met_earlier(start, events, at);
    } else {
        assert(at(before.step, events.last()));
        lemma_met_last(start, events, at);
    }
}

/// The events give the path as that of a session to be resumed or forked.
pub open spec fn names_session(event: SessionEvent, path: PathBuf) -> bool {
    ||| event == SessionEvent::Found(Some(path))
    ||| event == SessionEvent::Picked(SessionSelection::Resume(path))
    ||| event == SessionEvent::Picked(SessionSelection::Fork(path))
}

/// The path is that of the session to be resumed or forked.
pub open spec fn concerns(selection: SessionSelection, path: PathBuf) -> bool {
    selection == SessionSelection::Resume(path) || selection == SessionSelection::Fork(path)
}

/// The path that the session is about at its step, if it is about one.
pub open spec fn is_about(session: Session, path: PathBuf) -> bool {
    match session.step {
        SessionStep::ResolveCwd { path: p, .. } => p == path,
        SessionStep::ReloadAt { selection, .. } => concerns(selection, path),
        SessionStep::ApplyResidency { selection } => concerns(selection, path),
        SessionStep::DetectMultiplexer { selection } => concerns(selection, path),
        SessionStep::RunApp { selection, .. } => concerns(selection, path),
        _ => false,
    }
}

#[verifier::rlimit(40)]
proof fn lemma_named_by(session: Session, event: SessionEvent, path: PathBuf)
    requires
        is_about(session.after(event), path),
        !is_about(session, path),
    ensures
        names_session(event, path),
{
    if let SessionEvent::Failed(error) = event {
        assert(!is_about(session.after_failure(error), path));
    } else {
        match session.step {
            SessionStep::StartLog | SessionStep::ReadCredentials | SessionStep::Onboard { .. }
            | SessionStep::Reload { .. } => {
                assert(!is_about(session.after(event), path));
            },
            SessionStep::FindSession { .. } | SessionStep::FindLatest { .. }
            | SessionStep::PickSession { .. } => {
                assert(names_session(event, path));
            },
            _ => {
                assert(!is_about(session.after(event), path));
            },
        }
    }
}

/// An earlier session is opened only if the lookup or the user named it.
#[verifier::rlimit(40)]
pub proof fn law_opened_session_was_named(start: Session, events: Seq<SessionEvent>, path: PathBuf)
    requires
        start.step is InitTerminal,
        is_about(start.run(events), path),
    ensures
        start.met(events, |step: SessionStep, event: SessionEvent| names_session(event, path)),
    decreases events.len(),
{
    let at = |step: SessionStep, event: SessionEvent| names_session(event, path);
    let before = start.run(events.drop_last());
    if is_about(before, path) {
        law_opened_session_was_named(start, events.drop_last(), path);
        lemma_met_earlier(start, events, at);
    } else {
        lemma_named_by(before, events.last(), path);
        lemma_met_last(start, events, at);
    }
}

/// A session that is asked for and does not exist is answered with a fatal end
/// that names it and the way to the others. The terminal is given back and cleared.
pub proof fn law_missing_session_is_told(
    session: Session,
    action: CwdPromptAction,
    id: String,
    by_id: bool,
    outcome: Outcome,
)
    requires
        session.step == (SessionStep::FindSession { action, id, by_id }),
    ensures
        ({
            let end = SessionEnd::NoSession { action, id };
            &&& session.after(SessionEvent::Found(None)) == session.ends(end)
            &&& end.tidies() == seq![
                CleanupStep::RestoreTerminal,
                CleanupStep::EndSessionLog,
                CleanupStep::ClearScreen,
            ]
            &&& end.comes_to(outcome) ==> (outcome matches Outcome::Returned(Ok(info))
                && info.exit_reason matches ExitReason::Fatal(message) && message@
                == no_session_text(action, id@))
        }),
{
}

/// A session is reported missing only if it is the one that the command line
/// names, and it was looked for, by its id if it is one, in vain.
#[verifier::rlimit(40)]
pub proof fn law_missing_session_was_looked_for(
    start: Session,
    events: Seq<SessionEvent>,
    action: CwdPromptAction,
    id: String,
)
    requires
        start.step is InitTerminal,
        start.run(events).step == SessionStep::Ended(SessionEnd::NoSession { action, id }),
    ensures
        requested_id(start.cli) == Some(id),
        requested_action(start.cli) == action,
        start.met(
            events,
            |step: SessionStep, event: SessionEvent|
                step == (SessionStep::FindSession { action, id, by_id: is_uuid(id@) }) && event
                    == SessionEvent::Found(None),
        ),
    decreases events.len(),
{
    let at = |step: SessionStep, event: SessionEvent|
        step == (SessionStep::FindSession { action, id, by_id: is_uuid(id@) }) && event
            == SessionEvent::Found(None);
    let before = start.run(events.drop_last());
    law_session_stays_well_formed(start, events);
    if before.step == SessionStep::Ended(SessionEnd::NoSession { action, id }) {
        law_missing_session_was_looked_for(start, events.drop_last(), action, id);
        lemma_met_earlier(start, events, at);
    } else {
        law_session_stays_well_formed(start, events.drop_last());
        assert(at(before.step, events.last()));
        lemma_met_last(start, events, at);
    }
}

/// The configuration has been loaded again for the session to be opened, with this
/// directory to fall back to.
pub open spec fn reloads_for(
    step: SessionStep,
    event: SessionEvent,
    opened: SessionSelection,
    fallback: Option<PathBuf>,
    config: Config,
) -> bool {
    &&& step == (SessionStep::ReloadAt { selection: opened, fallback })
    &&& event == SessionEvent::ConfigLoaded(config)
}

/// The search for the directory of the session to be opened has come to its end, with
/// this directory or without one.
pub open spec fn resolves_to(
    step: SessionStep,
    event: SessionEvent,
    opened: SessionSelection,
    fallback: Option<PathBuf>,
) -> bool {
    &&& step matches SessionStep::ResolveCwd { action, path, search }
    &&& event matches SessionEvent::Cwd(answer)
    &&& search.awaits(answer)
    &&& search.after(answer).step == CwdStep::Resolved(fallback)
    &&& opened == selection_of(action, path)
}

#[verifier::rlimit(40)]
proof fn lemma_reloaded_by(session: Session, event: SessionEvent, opened: SessionSelection)
    requires
        session.after(event).selection() == Some(opened),
        opened is Resume || opened is Fork,
    ensures
        if session.selection() == Some(opened) {
            session.after(event).config == session.config
        } else {
            session.step is ReloadAt && reloads_for(
                session.step,
                event,
                opened,
                session.step->ReloadAt_fallback,
                session.after(event).config,
            )
        },
{
    if let SessionEvent::Failed(error) = event {
        assert(session.after_failure(error).config == session.config);
    } else {
        match session.step {
            SessionStep::StartLog | SessionStep::ReadCredentials | SessionStep::Onboard { .. }
            | SessionStep::Reload { .. } => {
                assert(session.after(event).selection() != Some(opened));
            },
            SessionStep::FindSession { .. } | SessionStep::FindLatest { .. }
            | SessionStep::PickSession { .. } | SessionStep::ResolveCwd { .. } => {
                assert(session.after(event).selection() != Some(opened));
            },
            SessionStep::ReloadAt { fallback, .. } => {
                assert(reloads_for(
                    session.step,
                    event,
                    opened,
                    fallback,
                    session.after(event).config,
                ));
            },
            _ => {
                assert(session.after(event).config == session.config);
            },
        }
    }
}

#[verifier::rlimit(40)]
proof fn lemma_fallback_comes_from(
    session: Session,
    event: SessionEvent,
    opened: SessionSelection,
    fallback: Option<PathBuf>,
)
    requires
        session.wf(),
        session.after(event).step == (SessionStep::ReloadAt { selection: opened, fallback }),
        session.step != session.after(event).step,
    ensures
        resolves_to(session.step, event, opened, fallback),
        session.after(event).config == session.config,
{
    if let SessionEvent::Failed(error) = event {
        assert(!(session.after_failure(error).step is ReloadAt));
    } else {
        match session.step {
            SessionStep::StartLog | SessionStep::ReadCredentials | SessionStep::Onboard { .. }
            | SessionStep::Reload { .. } => {
                assert(!(session.after(event).step is ReloadAt));
            },
            SessionStep::FindSession { .. } | SessionStep::FindLatest { .. }
            | SessionStep::PickSession { .. } => {
                assert(!(session.after(event).step is ReloadAt));
            },
            SessionStep::ResolveCwd { .. } => {},
            _ => {
                assert(!(session.after(event).step is ReloadAt));
            },
        }
    }
}

proof fn lemma_fallback_was_resolved(
    start: Session,
    events: Seq<SessionEvent>,
    opened: SessionSelection,
    fallback: Option<PathBuf>,
)
    requires
        start.step is InitTerminal,
        start.run(events).step == (SessionStep::ReloadAt { selection: opened, fallback }),
    ensures
        start.met(
            events,
            |step: SessionStep, event: SessionEvent| resolves_to(step, event, opened, fallback),
        ),
    decreases events.len(),
{
    let at = |step: SessionStep, event: SessionEvent| resolves_to(step, event, opened, fallback);
    let before = start.run(events.drop_last());
    law_session_stays_well_formed(start, events.drop_last());
    if before.step == start.run(events).step {
        lemma_fallback_was_resolved(start, events.drop_last(), opened, fallback);
        lemma_met_earlier(start, events, at);
    } else {
        lemma_fallback_comes_from(before, events.last(), opened, fallback);
        lemma_met_last(start, events, at);
    }
}

/// The configuration was loaded for the session to be opened, with the directory that
/// the search for it came to.
pub open spec fn loaded_where_found(
    start: Session,
    events: Seq<SessionEvent>,
    opened: SessionSelection,
    fallback: Option<PathBuf>,
    config: Config,
) -> bool {
    &&& start.met(
        events,
        |step: SessionStep, event: SessionEvent| resolves_to(step, event, opened, fallback),
    )
    &&& start.met(
        events,
        |step: SessionStep, event: SessionEvent|
            reloads_for(step, event, opened, fallback, config),
    )
}

/// An earlier session is opened in a configuration that was loaded for it, in the
/// directory that was found.
pub proof fn law_earlier_session_has_its_own_config(
    start: Session,
    events: Seq<SessionEvent>,
    opened: SessionSelection,
)
    requires
        start.step is InitTerminal,
        start.run(events).selection() == Some(opened),
        opened is Resume || opened is Fork,
    ensures
        exists|fallback: Option<PathBuf>| #[trigger]
            loaded_where_found(start, events, opened, fallback, start.run(events).config),
    decreases events.len(),
{
    let earlier = events.drop_last();
    let before = start.run(earlier);
    let config = start.run(events).config;
    lemma_reloaded_by(before, events.last(), opened);
    let fallback = if before.selection() == Some(opened) {
        law_earlier_session_has_its_own_config(start, earlier, opened);
        choose|fallback: Option<PathBuf>| #[trigger]
            loaded_where_found(start, earlier, opened, fallback, config)
    } else {
        before.step->ReloadAt_fallback
    };
    let at = |step: SessionStep, event: SessionEvent|
        reloads_for(step, event, opened, fallback, config);
    let found = |step: SessionStep, event: SessionEvent| resolves_to(step, event, opened, fallback);
    if before.selection() == Some(opened) {
        lemma_met_earlier(start, events, at);
    } else {
        lemma_fallback_was_resolved(start, earlier, opened, fallback);
        lemma_met_last(start, events, at);
    }
    lemma_met_earlier(start, events, found);
    assert(loaded_where_found(start, events, opened, fallback, config));
}

/// The search as it begins, in the session's own directory. The user may be asked
/// only if the command line gives no directory.
pub open spec fn new_search(session: Session) -> CwdResolution {
    CwdResolution {
        current: session.config.cwd,
        allow_prompt: session.cli.cwd is None,
        step: CwdStep::ReadRollout,
    }
}

/// The answers came back, one and all, during the run.
pub open spec fn came_back(events: Seq<SessionEvent>, answers: Seq<CwdEvent>) -> bool {
    forall|i: int|
        0 <= i < answers.len() ==> events.contains(SessionEvent::Cwd(#[trigger] answers[i]))
}

/// The search that began in the session's own directory comes to this step by answers
/// that came back during the run.
pub open spec fn search_leads_to(session: Session, events: Seq<SessionEvent>, step: CwdStep) -> bool {
    exists|answers: Seq<CwdEvent>|
        #[trigger] came_back(events, answers) && new_search(session).run(answers).step == step
}

#[verifier::rlimit(40)]
proof fn lemma_searched_by(session: Session, event: SessionEvent)
    requires
        session.wf(),
        session.after(event).step is ResolveCwd || session.after(event).step is ReloadAt,
    ensures
        session.after(event).config == session.config,
        session.after(event).cli == session.cli,
        session.after(event) == session || match session.step {
            SessionStep::ResolveCwd { search, .. } => event matches SessionEvent::Cwd(answer)
                && match session.after(event).step {
                SessionStep::ResolveCwd { search: next, .. } => next == search.after(answer),
                SessionStep::ReloadAt { fallback, .. } => search.after(answer).step
                    == CwdStep::Resolved(fallback),
                _ => false,
            },
            _ => session.after(event).step matches SessionStep::ResolveCwd { search, .. } && search
                == new_search(session),
        },
{
    if let SessionEvent::Failed(error) = event {
        assert(session.awaits(event) ==> !(session.after_failure(error).step is ResolveCwd)
            && !(session.after_failure(error).step is ReloadAt));
    } else {
        match session.step {
            SessionStep::StartLog | SessionStep::ReadCredentials | SessionStep::Onboard { .. }
            | SessionStep::Reload { .. } => {
                assert(!(session.after(event).step is ReloadAt));
                assert(!(session.after(event).step is ResolveCwd));
            },
            SessionStep::FindSession { .. } | SessionStep::FindLatest { .. }
            | SessionStep::PickSession { .. } => {},
            SessionStep::ResolveCwd { .. } => {},
            _ => {},
        }
    }
}

/// What directory an earlier session falls back to is settled by the search that
/// begins in the session's own directory: as far as the search has come, and where it
/// has come to an end, it has come there by the answers to its questions.
pub proof fn law_fallback_is_searched_for(start: Session, events: Seq<SessionEvent>)
    requires
        start.step is InitTerminal,
    ensures
        start.run(events).step matches SessionStep::ResolveCwd { search, .. } ==> search_leads_to(
            start.run(events),
            events,
            search.step,
        ),
        start.run(events).step matches SessionStep::ReloadAt { fallback, .. } ==> search_leads_to(
            start.run(events),
            events,
            CwdStep::Resolved(fallback),
        ),
    decreases events.len(),
{
    let now = start.run(events);
    if events.len() > 0 && (now.step is ResolveCwd || now.step is ReloadAt) {
        let earlier = events.drop_last();
        let before = start.run(earlier);
        let event = events.last();
        law_session_stays_well_formed(start, earlier);
        law_session_stays_well_formed(start, events);
        law_fallback_is_searched_for(start, earlier);
        lemma_searched_by(before, event);
        assert(new_search(now) == new_search(before));
        assert(events[events.len() - 1] == event);
        if now == before || before.step is ResolveCwd {
            let reached = match before.step {
                SessionStep::ResolveCwd { search, .. } => search.step,
                SessionStep::ReloadAt { fallback, .. } => CwdStep::Resolved(fallback),
                _ => CwdStep::ReadRollout,
            };
            let answers = choose|answers: Seq<CwdEvent>|
                #[trigger] came_back(earlier, answers) && new_search(before).run(answers).step
                    == reached;
            let more = if now == before {
                answers
            } else {
                answers.push(event->Cwd_0)
            };
            assert forall|i: int| 0 <= i < more.len() implies events.contains(
                SessionEvent::Cwd(#[trigger] more[i]),
            ) by {
                if i < answers.len() {
                    let cwd = SessionEvent::Cwd(answers[i]);
                    let k = choose|k: int| 0 <= k < earlier.len() && earlier[k] == cwd;
                    assert(events[k] == cwd);
                }
            }
            assert(came_back(events, more));
            if now != before {
                assert(more.drop_last() =~= answers);
                lemma_search_keeps(new_search(before), answers);
            }
        } else {
            let none = Seq::<CwdEvent>::empty();
            assert(came_back(events, none));
            assert(new_search(now).run(none) == new_search(now));
        }
    }
}

proof fn lemma_search_keeps(search: CwdResolution, answers: Seq<CwdEvent>)
    ensures
        search.run(answers).current == search.current,
        search.run(answers).allow_prompt == search.allow_prompt,
    decreases answers.len(),
{
    if answers.len() > 0 {
        lemma_search_keeps(search, answers.drop_last());
    }
}

/// Onboarding came to an answer that asks for the configuration to be loaded again.
pub open spec fn asks_for_reload(step: SessionStep, event: SessionEvent) -> bool {
    &&& step matches SessionStep::Onboard { show_login, .. }
    &&& event matches SessionEvent::Onboarded { should_exit, trust_decided }
    &&& !should_exit
    &&& trust_decided || show_login
}

#[verifier::rlimit(40)]
proof fn lemma_config_changed_by(session: Session, event: SessionEvent)
    ensures
        session.after(event).config != session.config ==> session.step is Reload
            || session.step is ReloadAt,
        session.after(event).step is Reload && !(session.step is Reload) ==> asks_for_reload(
            session.step,
            event,
        ),
{
    if let SessionEvent::Failed(error) = event {
        assert(session.after_failure(error).config == session.config);
    } else {
        match session.step {
            SessionStep::StartLog | SessionStep::ReadCredentials => {
                assert(session.after(event).config == session.config);
                assert(!(session.after(event).step is Reload));
            },
            SessionStep::Onboard { .. } => {
                assert(session.after(event).config == session.config);
            },
            SessionStep::Reload { .. } => {
                assert(session.after(event).step is Reload ==> session.after(event) == session);
            },
            _ => {},
        }
    }
}

/// Before a session is chosen, the configuration is the initial one, unless the
/// user was onboarded with a decision on trust or past the login screen.
#[verifier::rlimit(40)]
pub proof fn law_config_changes_only_through_onboarding(start: Session, events: Seq<SessionEvent>)
    requires
        start.step is InitTerminal,
    ensures
        start.run(events).rank() >= 12 ==> start.run(events).config == start.config,
        start.run(events).rank() >= 10 && start.run(events).config != start.config
            || start.run(events).step is Reload ==> start.met(
            events,
            |step: SessionStep, event: SessionEvent| asks_for_reload(step, event),
        ),
    decreases events.len(),
{
    let at = |step: SessionStep, event: SessionEvent| asks_for_reload(step, event);
    if events.len() > 0 {
        let before = start.run(events.drop_last());
        let event = events.last();
        law_config_changes_only_through_onboarding(start, events.drop_last());
        lemma_config_changed_by(before, event);
        if before.awaits(event) {
            before.lemma_after_is_nearer(event);
        } else {
            assert(before.after(event) == before);
        }
        if start.met(events.drop_last(), at) {
            lemma_met_earlier(start, events, at);
        }
        if asks_for_reload(before.step, event) {
            lemma_met_last(start, events, at);
        }
    }
}

/// Whoever comes past the login screen gets fresh requirements and a fresh
/// configuration, and so does, for the configuration, whoever decides on trust.
/// Whoever leaves gets neither.
pub proof fn law_onboarding_takes_effect(
    session: Session,
    status: LoginStatus,
    show_login: bool,
    show_trust: bool,
    should_exit: bool,
    trust_decided: bool,
)
    requires
        session.step == (SessionStep::Onboard { status, show_login, show_trust }),
    ensures
        ({
            let next = session.after(SessionEvent::Onboarded { should_exit, trust_decided });
            &&& next.step is Reload <==> !should_exit && (show_login || trust_decided)
            &&& next.step matches SessionStep::Reload { refresh_cloud } ==> refresh_cloud
                == show_login
            &&& should_exit <==> next.step == SessionStep::Ended(SessionEnd::Onboarding)
        }),
{
}

/// Who has nothing to decide is not held up: where trust is settled and the
/// provider wants no login, no onboarding screen comes up.
pub proof fn law_no_onboarding_without_need(start: Session, events: Seq<SessionEvent>)
    requires
        start.step is InitTerminal,
        !shows_trust(start.config, start.build.native_windows),
        !start.config.requires_openai_auth,
    ensures
        !(start.run(events).step is Onboard),
        !(start.run(events).step is ReadCredentials),
{
    law_session_stays_well_formed(start, events);
    law_config_changes_only_through_onboarding(start, events);
}

/// The user is asked about the directory only where none was given on the command
/// line.
pub proof fn law_given_directory_is_not_questioned(start: Session, events: Seq<SessionEvent>)
    requires
        start.step is InitTerminal,
        start.cli.cwd is Some,
    ensures
        start.run(events).step matches SessionStep::ResolveCwd { search, .. } ==> !(search.step is Prompt),
{
    law_session_stays_well_formed(start, events);
}

/// The configuration that was loaded last, during the run, or else the initial one.
pub open spec fn last_config(start: Session, events: Seq<SessionEvent>) -> Config
    decreases events.len(),
{
    if events.len() == 0 {
        start.config
    } else {
        match events.last() {
            SessionEvent::ConfigLoaded(config) if start.run(events.drop_last()).awaits(
                events.last(),
            ) => config,
            _ => last_config(start, events.drop_last()),
        }
    }
}

#[verifier::rlimit(40)]
proof fn lemma_config_kept(session: Session, event: SessionEvent)
    ensures
        session.after(event).config == match event {
            SessionEvent::ConfigLoaded(config) if session.awaits(event) => config,
            _ => session.config,
        },
{
    if let SessionEvent::Failed(error) = event {
        assert(session.after_failure(error).config == session.config);
    } else {
        match session.step {
            SessionStep::StartLog | SessionStep::ReadCredentials | SessionStep::Onboard { .. } => {
                assert(session.after(event).config == session.config);
            },
            SessionStep::Reload { .. } | SessionStep::ReloadAt { .. } => {},
            SessionStep::FindSession { .. } | SessionStep::FindLatest { .. }
            | SessionStep::PickSession { .. } | SessionStep::ResolveCwd { .. } => {
                assert(session.after(event).config == session.config);
            },
            _ => {
                assert(session.after(event).config == session.config);
            },
        }
    }
}

/// The configuration in effect is the one that was loaded last.
pub proof fn law_config_is_the_last_loaded(start: Session, events: Seq<SessionEvent>)
    ensures
        start.run(events).config == last_config(start, events),
    decreases events.len(),
{
    if events.len() > 0 {
        law_config_is_the_last_loaded(start, events.drop_last());
        lemma_config_kept(start.run(events.drop_last()), events.last());
    }
}

/// During the run, the residency requirement of the configuration was applied.
pub open spec fn applied_residency(
    start: Session,
    events: Seq<SessionEvent>,
    config: Config,
) -> bool {
    exists|i: int|
        #![trigger events[i]]
        {
            let then = start.run(events.take(i));
            &&& 0 <= i < events.len()
            &&& then.step is ApplyResidency
            &&& then.config == config
            &&& events[i] is Done
        }
}

#[verifier::rlimit(40)]
proof fn lemma_shown_by(session: Session, event: SessionEvent)
    requires
        session.after(event).step is DetectMultiplexer || session.after(event).step is RunApp,
    ensures
        session.after(event).config == session.config,
        session.after(event) == session || (session.step is ApplyResidency && event is Done)
            || session.step is DetectMultiplexer,
{
    if let SessionEvent::Failed(error) = event {
        assert(session.awaits(event) ==> !(session.after_failure(error).step is RunApp)
            && !(session.after_failure(error).step is DetectMultiplexer));
    } else {
        match session.step {
            SessionStep::StartLog | SessionStep::ReadCredentials | SessionStep::Onboard { .. }
            | SessionStep::Reload { .. } => {
                assert(session.after(event).step is RunApp ==> false);
            },
            SessionStep::FindSession { .. } | SessionStep::FindLatest { .. }
            | SessionStep::PickSession { .. } | SessionStep::ResolveCwd { .. } => {
                assert(session.after(event).step is RunApp ==> false);
            },
            _ => {},
        }
    }
}

proof fn lemma_residency_was_applied(start: Session, events: Seq<SessionEvent>)
    requires
        start.step is InitTerminal,
        start.run(events).step is DetectMultiplexer || start.run(events).step is RunApp,
    ensures
        applied_residency(start, events, start.run(events).config),
    decreases events.len(),
{
    let earlier = events.drop_last();
    let before = start.run(earlier);
    let config = start.run(events).config;
    lemma_shown_by(before, events.last());
    assert(events.take(events.len() - 1) =~= earlier);
    assert(events[events.len() - 1] == events.last());
    if before.step is DetectMultiplexer || before.step is RunApp {
        lemma_residency_was_applied(start, earlier);
        let i = choose|i: int|
            #![trigger earlier[i]]
            {
                let then = start.run(earlier.take(i));
                &&& 0 <= i < earlier.len()
                &&& then.step is ApplyResidency
                &&& then.config == config
                &&& earlier[i] is Done
            };
        assert(earlier.take(i) =~= events.take(i));
        assert(events[i] == earlier[i]);
    }
}

/// During the run, this is what looking for a multiplexer gave.
pub open spec fn saw_multiplexer(
    start: Session,
    events: Seq<SessionEvent>,
    multiplexer: Option<Multiplexer>,
) -> bool {
    start.met(
        events,
        |step: SessionStep, event: SessionEvent|
            step is DetectMultiplexer && event == SessionEvent::Multiplexer(multiplexer),
    )
}

/// The screen is the one that flag and setting ask for, in the multiplexer that was
/// seen, where that decides.
pub open spec fn screen_fits(
    start: Session,
    events: Seq<SessionEvent>,
    config: Config,
    alt_screen: bool,
) -> bool {
    exists|multiplexer: Option<Multiplexer>|
        {
            &&& alt_screen == #[trigger] wants_alt_screen(
                start.cli.no_alt_screen,
                config.tui_alternate_screen,
                multiplexer,
            )
            &&& multiplexer_decides(start.cli.no_alt_screen, config.tui_alternate_screen)
                ==> saw_multiplexer(start, events, multiplexer)
        }
}

#[verifier::rlimit(40)]
proof fn lemma_screen_decided_by(session: Session, event: SessionEvent)
    requires
        session.after(event).step is RunApp,
        !(session.step is RunApp),
    ensures
        session.step is DetectMultiplexer || session.step is ApplyResidency,
        session.step is DetectMultiplexer ==> event is Multiplexer && session.after(
            event,
        ).step->alt_screen == wants_alt_screen(
            session.cli.no_alt_screen,
            session.config.tui_alternate_screen,
            event->Multiplexer_0,
        ),
        session.step is ApplyResidency ==> !multiplexer_decides(
            session.cli.no_alt_screen,
            session.config.tui_alternate_screen,
        ) && session.after(event).step->alt_screen == wants_alt_screen(
            session.cli.no_alt_screen,
            session.config.tui_alternate_screen,
            None,
        ),
{
    lemma_shown_by(session, event);
}

proof fn lemma_screen_fits(start: Session, events: Seq<SessionEvent>)
    requires
        start.step is InitTerminal,
        start.run(events).step is RunApp,
    ensures
        screen_fits(
            start,
            events,
            start.run(events).config,
            start.run(events).step->alt_screen,
        ),
    decreases events.len(),
{
    let earlier = events.drop_last();
    let before = start.run(earlier);
    let event = events.last();
    let no_alt_screen = start.cli.no_alt_screen;
    let mode = start.run(events).config.tui_alternate_screen;
    law_session_stays_well_formed(start, earlier);
    lemma_shown_by(before, event);
    if before.step is RunApp {
        lemma_screen_fits(start, earlier);
        let multiplexer = choose|multiplexer: Option<Multiplexer>|
            {
                &&& before.step->alt_screen == #[trigger] wants_alt_screen(
                    no_alt_screen,
                    mode,
                    multiplexer,
                )
                &&& multiplexer_decides(no_alt_screen, mode) ==> saw_multiplexer(
                    start,
                    earlier,
                    multiplexer,
                )
            };
        if multiplexer_decides(no_alt_screen, mode) {
            lemma_met_earlier(
                start,
                events,
                |step: SessionStep, event: SessionEvent|
                    step is DetectMultiplexer && event == SessionEvent::Multiplexer(multiplexer),
            );
        }
        assert(start.run(events).step->alt_screen == wants_alt_screen(
            no_alt_screen,
            mode,
            multiplexer,
        ));
    } else {
        lemma_screen_decided_by(before, event);
        if let SessionEvent::Multiplexer(multiplexer) = event {
            if before.step is DetectMultiplexer {
                lemma_met_last(
                    start,
                    events,
                    |step: SessionStep, event: SessionEvent|
                        step is DetectMultiplexer && event == SessionEvent::Multiplexer(multiplexer),
                );
            }
        }
    }
}

/// The application runs on the configuration that was loaded last, and so does all
/// that goes with it: its profile, whether trust is still open, the screen that its
/// setting asks for, and the residency requirement that was applied before.
pub proof fn law_application_runs_on_the_last_config(
    start: Session,
    events: Seq<SessionEvent>,
    work: SessionWork,
)
    requires
        start.step is InitTerminal,
        start.run(events).step is RunApp,
        start.run(events).calls_for(work),
    ensures
        ({
            let c = last_config(start, events);
            &&& work matches SessionWork::RunApp {
                config,
                active_profile,
                show_trust_screen,
                alt_screen,
                ..
            }
            &&& *config == c
            &&& *active_profile == c.active_profile
            &&& show_trust_screen == shows_trust(c, start.build.native_windows)
            &&& screen_fits(start, events, c, alt_screen)
            &&& applied_residency(start, events, c)
        }),
{
    law_session_stays_well_formed(start, events);
    law_config_is_the_last_loaded(start, events);
    lemma_residency_was_applied(start, events);
    lemma_screen_fits(start, events);
}

/// Whenever the configuration is loaded again, it is loaded with the overrides that
/// the session was started with, and the application gets the same. So the sandbox
/// and approval settings that the command line asks for govern every load.
pub proof fn law_overrides_govern_every_load(
    start: Session,
    events: Seq<SessionEvent>,
    work: SessionWork,
    provider: Option<String>,
    default_model: Option<String>,
    linux_sandbox_exe: Option<PathBuf>,
)
    requires
        start.step is InitTerminal,
        start.run(events).calls_for(work),
        overrides_say(start.overrides, start.cli, provider, default_model, linux_sandbox_exe),
    ensures
        work matches SessionWork::Reload { cli_overrides, overrides, .. } ==> *cli_overrides
            == start.cli_overrides && *overrides == start.overrides && (
        overrides.sandbox_mode,
        overrides.approval_policy,
        ) == requested_permissions(start.cli),
        work matches SessionWork::ReloadAt { cli_overrides, overrides, .. } ==> *cli_overrides
            == start.cli_overrides && *overrides == start.overrides && (
        overrides.sandbox_mode,
        overrides.approval_policy,
        ) == requested_permissions(start.cli),
        work matches SessionWork::RunApp { cli_overrides, overrides, .. } ==> *cli_overrides
            == start.cli_overrides && *overrides == start.overrides,
{
    law_session_stays_well_formed(start, events);
}

/// The user has come past the login screen.
pub open spec fn comes_past_login(step: SessionStep, event: SessionEvent) -> bool {
    &&& step matches SessionStep::Onboard { show_login, .. }
    &&& event matches SessionEvent::Onboarded { should_exit, .. }
    &&& show_login
    &&& !should_exit
}

#[verifier::rlimit(40)]
proof fn lemma_requirements_kept(session: Session, event: SessionEvent)
    ensures
        session.after(event).requirements == if comes_past_login(session.step, event) {
            CloudRequirements::Refreshed
        } else {
            session.requirements
        },
{
    if let SessionEvent::Failed(error) = event {
        assert(session.after_failure(error).requirements == session.requirements);
    }
}

/// The configuration is loaded with the initial requirements until the user has come
/// past the login screen, and with the refreshed ones from then on.
#[verifier::rlimit(40)]
pub proof fn law_login_refreshes_the_requirements(start: Session, events: Seq<SessionEvent>)
    requires
        start.step is InitTerminal,
        start.requirements is Initial,
    ensures
        start.run(events).requirements is Refreshed <==> start.met(
            events,
            |step: SessionStep, event: SessionEvent| comes_past_login(step, event),
        ),
    decreases events.len(),
{
    let at = |step: SessionStep, event: SessionEvent| comes_past_login(step, event);
    if events.len() > 0 {
        let earlier = events.drop_last();
        let before = start.run(earlier);
        law_login_refreshes_the_requirements(start, earlier);
        lemma_requirements_kept(before, events.last());
        if before.requirements is Refreshed {
            lemma_met_earlier(start, events, at);
        } else if comes_past_login(before.step, events.last()) {
            lemma_met_last(start, events, at);
        } else if start.met(events, at) {
            let i = choose|i: int|
                #![trigger events[i]]
                0 <= i < events.len() && at(start.run(events.take(i)).step, events[i]);
            if i < earlier.len() {
                assert(earlier[i] == events[i]);
                assert(earlier.take(i) =~= events.take(i));
            } else {
                assert(events.take(i) =~= earlier);
            }
        }
    }
}

/// Once the requirements are refreshed, every load is made with the refreshed ones:
/// the one that they are refreshed for, and any later one for an earlier session.
pub proof fn law_later_loads_keep_refreshed_requirements(
    start: Session,
    events: Seq<SessionEvent>,
    then: int,
    work: SessionWork,
)
    requires
        start.step is InitTerminal,
        0 <= then <= events.len(),
        start.run(events.take(then)).step == (SessionStep::Reload { refresh_cloud: true }),
        start.run(events).calls_for(work),
    ensures
        start.run(events).requirements is Refreshed,
        work matches SessionWork::Reload { requirements, .. } ==> requirements is Refreshed,
        work matches SessionWork::ReloadAt { requirements, .. } ==> requirements is Refreshed,
{
    lemma_requirements_stay_refreshed(start, events, then);
}

#[verifier::rlimit(40)]
proof fn lemma_requirements_stay_refreshed(start: Session, events: Seq<SessionEvent>, then: int)
    requires
        start.step is InitTerminal,
        0 <= then <= events.len(),
        start.run(events.take(then)).step == (SessionStep::Reload { refresh_cloud: true }),
    ensures
        start.run(events).requirements is Refreshed,
    decreases events.len(),
{
    if then == events.len() {
        assert(events.take(then) =~= events);
        law_session_stays_well_formed(start, events);
    } else {
        let earlier = events.drop_last();
        assert(earlier.take(then) =~= events.take(then));
        lemma_requirements_stay_refreshed(start, earlier, then);
        lemma_requirements_kept(start.run(earlier), events.last());
    }
}

/// The command lines differ in nothing but the flags that resume.
pub open spec fn differ_in_resume_flags(a: Cli, b: Cli) -> bool {
    b == (Cli {
        resume_picker: b.resume_picker,
        resume_last: b.resume_last,
        resume_session_id: b.resume_session_id,
        resume_show_all: b.resume_show_all,
        ..a
    })
}

/// The sessions differ in nothing but the flags that resume.
pub open spec fn differ_in_resuming(a: Session, b: Session) -> bool {
    differ_in_resume_flags(a.cli, b.cli) && b == (Session { cli: b.cli, ..a })
}

#[verifier::rlimit(60)]
proof fn lemma_forks_greet_alike(a: Session, b: Session, event: SessionEvent)
    requires
        differ_in_resuming(a, b),
        forks(a.cli),
        !(event is Failed),
        a.step is InitTerminal || a.step is PromptUpdate || a.step is RestoreForUpdate || a.step is StartLog
            || a.step is ReadCredentials,
    ensures
        a.after(event).step == b.after(event).step,
{
    assert(requested_lookup(a.cli) == requested_lookup(b.cli));
}

#[verifier::rlimit(60)]
proof fn lemma_forks_look_up_alike(a: Session, b: Session, event: SessionEvent)
    requires
        differ_in_resuming(a, b),
        forks(a.cli),
        !(event is Failed),
        a.step is Onboard || a.step is Reload,
    ensures
        a.after(event).step == b.after(event).step,
{
    assert(requested_lookup(a.cli) == requested_lookup(b.cli));
}

#[verifier::rlimit(60)]
proof fn lemma_forks_open_alike(a: Session, b: Session, event: SessionEvent)
    requires
        differ_in_resuming(a, b),
        forks(a.cli),
        !(event is Failed),
        !(a.step is InitTerminal || a.step is PromptUpdate || a.step is RestoreForUpdate
            || a.step is StartLog || a.step is ReadCredentials || a.step is Onboard || a.step is Reload),
    ensures
        a.after(event).step == b.after(event).step,
{
}

#[verifier::rlimit(40)]
proof fn lemma_start_kept(session: Session, event: SessionEvent)
    ensures
        session.after(event).cli == session.cli,
        session.after(event).build == session.build,
        session.after(event).cli_overrides == session.cli_overrides,
        session.after(event).overrides == session.overrides,
{
}

proof fn lemma_forks_stay_alike(a: Session, b: Session, event: SessionEvent)
    requires
        differ_in_resuming(a, b),
        forks(a.cli),
    ensures
        differ_in_resuming(a.after(event), b.after(event)),
{
    lemma_start_kept(a, event);
    lemma_start_kept(b, event);
    lemma_config_kept(a, event);
    lemma_config_kept(b, event);
    assert(a.awaits(event) == b.awaits(event));
    if let SessionEvent::Failed(error) = event {
        assert(a.after_failure(error).step == b.after_failure(error).step);
    } else {
        match a.step {
            SessionStep::InitTerminal | SessionStep::PromptUpdate | SessionStep::RestoreForUpdate {
                ..
            } | SessionStep::StartLog | SessionStep::ReadCredentials => {
                lemma_forks_greet_alike(a, b, event);
            },
            SessionStep::Onboard { .. } | SessionStep::Reload { .. } => {
                lemma_forks_look_up_alike(a, b, event);
            },
            _ => {
                lemma_forks_open_alike(a, b, event);
            },
        }
    }
}

/// Forking rules out resuming from beginning to end: two sessions that fork, and
/// differ in nothing but the flags that resume, are at the same step, with the same
/// configuration and the same work to do, after any events.
#[verifier::rlimit(40)]
pub proof fn law_resume_flags_do_not_matter_to_a_fork(
    a: Session,
    b: Session,
    events: Seq<SessionEvent>,
    work: SessionWork,
)
    requires
        a.step is InitTerminal,
        differ_in_resuming(a, b),
        forks(a.cli),
    ensures
        a.run(events).step == b.run(events).step,
        a.run(events).config == b.run(events).config,
        a.run(events).calls_for(work) == b.run(events).calls_for(work),
{
    lemma_forks_run_alike(a, b, events);
    law_session_stays_well_formed(a, events);
    assert(requested_action(a.cli) is Fork);
}

proof fn lemma_forks_run_alike(a: Session, b: Session, events: Seq<SessionEvent>)
    requires
        a.step is InitTerminal,
        differ_in_resuming(a, b),
        forks(a.cli),
    ensures
        differ_in_resuming(a.run(events), b.run(events)),
    decreases events.len(),
{
    if events.len() > 0 {
        let earlier = events.drop_last();
        lemma_forks_run_alike(a, b, earlier);
        law_session_stays_well_formed(a, earlier);
        lemma_forks_stay_alike(a.run(earlier), b.run(earlier), events.last());
    }
}

/// The session that is to be opened, from the moment that it is known.
pub open spec fn to_be_opened(session: Session) -> Option<SessionSelection> {
    match session.step {
        SessionStep::ResolveCwd { action: CwdPromptAction::Resume, path, .. } => Some(
            SessionSelection::Resume(path),
        ),
        SessionStep::ResolveCwd { action: CwdPromptAction::Fork, path, .. } => Some(
            SessionSelection::Fork(path),
        ),
        SessionStep::ReloadAt { selection, .. } | SessionStep::ApplyResidency { selection }
        | SessionStep::DetectMultiplexer { selection } | SessionStep::RunApp { selection, .. } => Some(
            selection,
        ),
        _ => None,
    }
}

/// A flag on the command line forks.
pub open spec fn asks_to_fork(cli: Cli) -> bool {
    cli.fork_session_id is Some || cli.fork_last || cli.fork_picker
}

/// The lookup found the session, by its id, by its name or as the last one, and it is
/// opened as the command line asks: forked exactly if a flag forks, and resumed otherwise.
pub open spec fn was_found(
    cli: Cli,
    step: SessionStep,
    event: SessionEvent,
    opened: SessionSelection,
) -> bool {
    &&& step is FindSession || step is FindLatest
    &&& event matches SessionEvent::Found(Some(path))
    &&& asks_to_fork(cli) ==> opened == SessionSelection::Fork(path)
    &&& !asks_to_fork(cli) ==> opened == SessionSelection::Resume(path)
}

/// The user picked the session, just as it is opened.
pub open spec fn was_picked(step: SessionStep, event: SessionEvent, opened: SessionSelection) -> bool {
    step is PickSession && event == SessionEvent::Picked(opened)
}

/// The last session was asked for, and there is none to be had.
pub open spec fn was_not_to_be_had(step: SessionStep, event: SessionEvent) -> bool {
    step is FindLatest && (event == SessionEvent::Found(None) || event is Failed)
}

/// The command line asks for no earlier session.
pub open spec fn asks_for_none(cli: Cli) -> bool {
    &&& !asks_to_fork(cli)
    &&& cli.resume_session_id is None
    &&& !cli.resume_last
    &&& !cli.resume_picker
}

/// This is the session to be opened, for its reason: the lookup found it, the user picked
/// it, or, for a new one, no other was asked for or to be had.
pub open spec fn is_rightly_opened(
    cli: Cli,
    step: SessionStep,
    event: SessionEvent,
    opened: SessionSelection,
) -> bool {
    ||| was_found(cli, step, event, opened)
    ||| was_picked(step, event, opened)
    ||| opened is StartFresh && was_not_to_be_had(step, event)
    ||| opened is StartFresh && asks_for_none(cli)
}

#[verifier::rlimit(60)]
proof fn lemma_opened_by(session: Session, event: SessionEvent, opened: SessionSelection)
    requires
        session.wf(),
        to_be_opened(session.after(event)) == Some(opened),
        to_be_opened(session) != Some(opened),
    ensures
        is_rightly_opened(session.cli, session.step, event, opened),
{
    if let SessionEvent::Failed(error) = event {
        assert(session.awaits(event));
        assert(to_be_opened(session.after_failure(error)) == Some(opened));
    } else {
        match session.step {
            SessionStep::StartLog | SessionStep::ReadCredentials | SessionStep::Onboard { .. }
            | SessionStep::Reload { .. } => {
                assert(asks_for_none(session.cli));
            },
            SessionStep::FindSession { .. } | SessionStep::FindLatest { .. } => {},
            SessionStep::PickSession { .. } => {},
            SessionStep::ResolveCwd { .. } => {
                assert(to_be_opened(session.after(event)) == to_be_opened(session));
            },
            _ => {},
        }
    }
}

/// Every session is opened for a reason, and as it was asked for: one that the lookup
/// found is forked exactly if a flag forks, and resumed otherwise; one that the user
/// picked is opened as it was picked; and a new one only if no other was asked for, if the
/// last one was not to be had, or if the user picked a new one.
pub proof fn law_session_is_opened_as_asked(
    start: Session,
    events: Seq<SessionEvent>,
    opened: SessionSelection,
)
    requires
        start.step is InitTerminal,
        to_be_opened(start.run(events)) == Some(opened),
    ensures
        start.met(
            events,
            |step: SessionStep, event: SessionEvent|
                is_rightly_opened(start.cli, step, event, opened),
        ),
    decreases events.len(),
{
    let at = |step: SessionStep, event: SessionEvent|
        is_rightly_opened(start.cli, step, event, opened);
    let before = start.run(events.drop_last());
    law_session_stays_well_formed(start, events.drop_last());
    if to_be_opened(before) == Some(opened) {
        law_session_is_opened_as_asked(start, events.drop_last(), opened);
        lemma_met_earlier(start, events, at);
    } else {
        lemma_opened_by(before, events.last(), opened);
        lemma_met_last(start, events, at);
    }
}

/// A session is looked for by a name or id only if the command line gives just that: as
/// the one to be forked, where a flag forks, and as the one to be resumed otherwise. The
/// last one is looked for, and the picker opened, only where that is asked for too.
pub proof fn law_lookup_is_the_one_asked_for(start: Session, events: Seq<SessionEvent>)
    requires
        start.step is InitTerminal,
    ensures
        start.run(events).step matches SessionStep::FindSession { action, id, by_id } ==> {
            &&& by_id == is_uuid(id@)
            &&& asks_to_fork(start.cli) ==> action is Fork && start.cli.fork_session_id == Some(id)
            &&& !asks_to_fork(start.cli) ==> action is Resume && start.cli.resume_session_id == Some(
                id,
            )
        },
        start.run(events).step matches SessionStep::FindLatest { action } ==> {
            &&& asks_to_fork(start.cli) ==> action is Fork && start.cli.fork_last
            &&& !asks_to_fork(start.cli) ==> action is Resume && start.cli.resume_last
        },
        start.run(events).step matches SessionStep::PickSession { action } ==> {
            &&& asks_to_fork(start.cli) ==> action is Fork && start.cli.fork_picker
            &&& !asks_to_fork(start.cli) ==> action is Resume && start.cli.resume_picker
        },
{
    law_session_stays_well_formed(start, events);
}

} // verus!
