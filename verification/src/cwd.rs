//! The directory that a resumed or forked session works in.

use std::path::PathBuf;

use vstd::prelude::*;

use crate::paths::paths_equal;
use crate::types::CwdSelection;

verus! {

/// What to do once the latest turn of a session has been looked up.
pub enum SessionCwd {
    /// The session worked here last.
    Known(PathBuf),
    /// No turn tells: the directory the session was opened in is to be read.
    ReadMeta,
}

/// The latest turn is preferred to the opening of the session, so that the
/// directory is the most recent one.
pub fn read_session_cwd(latest_turn: Option<PathBuf>) -> (cwd: SessionCwd)
    ensures
        cwd == session_cwd(latest_turn),
{
    match latest_turn {
        Some(cwd) => SessionCwd::Known(cwd),
        None => SessionCwd::ReadMeta,
    }
}

pub open spec fn session_cwd(latest_turn: Option<PathBuf>) -> SessionCwd {
    if latest_turn is Some {
        SessionCwd::Known(latest_turn->0)
    } else {
        SessionCwd::ReadMeta
    }
}

/// Two directories differ by their normal forms, where both have one, and as they
/// are spelled otherwise.
pub open spec fn differ(
    current_cwd: PathBuf,
    session_cwd: PathBuf,
    normal_current: Option<PathBuf>,
    normal_session: Option<PathBuf>,
) -> bool {
    if normal_current is Some && normal_session is Some {
        normal_current != normal_session
    } else {
        current_cwd != session_cwd
    }
}

/// Whether the session worked elsewhere than in the current directory. The
/// normal forms are what resolving the two paths on disk gave, where it succeeded.
pub fn cwds_differ(
    current_cwd: &PathBuf,
    session_cwd: &PathBuf,
    normal_current: Option<PathBuf>,
    normal_session: Option<PathBuf>,
) -> (b: bool)
    ensures
        b == differ(*current_cwd, *session_cwd, normal_current, normal_session),
{
    match (normal_current, normal_session) {
        (Some(current), Some(session)) => !paths_equal(&current, &session),
        _ => !paths_equal(current_cwd, session_cwd),
    }
}

/// How far the search for the directory has come.
pub enum CwdStep {
    /// The rollout of the session is to be read for its latest turn.
    ReadRollout,
    /// The opening line of the rollout is to be read.
    ReadMeta,
    /// The current directory is to be compared with the session's.
    Compare { history: PathBuf },
    /// The user is to choose between the two.
    Prompt { history: PathBuf },
    /// The directory to fall back to, if the session has one.
    Resolved(Option<PathBuf>),
}

/// What has come back from the outside.
pub enum CwdEvent {
    /// The directory of the latest turn in the rollout.
    LatestTurn(Option<PathBuf>),
    /// The directory in the opening line, where it could be read.
    Meta(Option<PathBuf>),
    /// The normal forms of the current directory and of the session's.
    Normalized { current: Option<PathBuf>, session: Option<PathBuf> },
    /// What the user chose.
    Selected(CwdSelection),
}

/// The search for the directory that a resumed or forked session works in.
pub struct CwdResolution {
    pub current: PathBuf,
    /// The user may be asked, since no directory was given on the command line.
    pub allow_prompt: bool,
    pub step: CwdStep,
}

impl CwdResolution {
    /// The step once the directory of the session is known.
    pub open spec fn with_history(allow_prompt: bool, history: PathBuf) -> CwdStep {
        if allow_prompt {
            CwdStep::Compare { history }
        } else {
            CwdStep::Resolved(Some(history))
        }
    }

    /// The event is what the step waits for.
    pub open spec fn awaits(self, event: CwdEvent) -> bool {
        match self.step {
            CwdStep::ReadRollout => event is LatestTurn,
            CwdStep::ReadMeta => event is Meta,
            CwdStep::Compare { .. } => event is Normalized,
            CwdStep::Prompt { .. } => event is Selected,
            CwdStep::Resolved(_) => false,
        }
    }

    /// The step after an event. One that the step does not wait for changes nothing.
    pub open spec fn step_after(self, event: CwdEvent) -> CwdStep {
        match (self.step, event) {
            (CwdStep::ReadRollout, CwdEvent::LatestTurn(latest)) => match session_cwd(latest) {
                SessionCwd::Known(history) => Self::with_history(self.allow_prompt, history),
                SessionCwd::ReadMeta => CwdStep::ReadMeta,
            },
            (CwdStep::ReadMeta, CwdEvent::Meta(meta)) => match meta {
                Some(history) => Self::with_history(self.allow_prompt, history),
                None => CwdStep::Resolved(None),
            },
            (CwdStep::Compare { history }, CwdEvent::Normalized { current, session }) => if differ(
                self.current,
                history,
                current,
                session,
            ) {
                CwdStep::Prompt { history }
            } else {
                CwdStep::Resolved(Some(history))
            },
            (CwdStep::Prompt { history }, CwdEvent::Selected(selection)) => CwdStep::Resolved(
                Some(
                    match selection {
                        CwdSelection::Current => self.current,
                        CwdSelection::Session => history,
                    },
                ),
            ),
            (step, _) => step,
        }
    }

    /// The user is asked only where that is allowed.
    pub open spec fn wf(self) -> bool {
        self.step is Compare || self.step is Prompt ==> self.allow_prompt
    }

    /// The search after an event.
    pub open spec fn after(self, event: CwdEvent) -> CwdResolution {
        CwdResolution { step: self.step_after(event), ..self }
    }

    /// At most how many more events the search can take.
    pub open spec fn rank(self) -> nat {
        match self.step {
            CwdStep::ReadRollout => 4,
            CwdStep::ReadMeta => 3,
            CwdStep::Compare { .. } => 2,
            CwdStep::Prompt { .. } => 1,
            CwdStep::Resolved(_) => 0,
        }
    }

    fn know(allow_prompt: bool, history: PathBuf) -> (step: CwdStep)
        ensures
            step == Self::with_history(allow_prompt, history),
    {
        if allow_prompt {
            CwdStep::Compare { history }
        } else {
            CwdStep::Resolved(Some(history))
        }
    }

    /// Takes in what has come back from the outside.
    pub fn advance(self, event: CwdEvent) -> (next: Self)
        ensures
            next == self.after(event),
            self.wf() ==> next.wf(),
            self.awaits(event) ==> next.rank() < self.rank(),
            !self.awaits(event) ==> next == self,
    {
        let CwdResolution { current, allow_prompt, step } = self;
        let step = match (step, event) {
            (CwdStep::ReadRollout, CwdEvent::LatestTurn(latest)) => match read_session_cwd(latest) {
                SessionCwd::Known(history) => Self::know(allow_prompt, history),
                SessionCwd::ReadMeta => CwdStep::ReadMeta,
            },
            (CwdStep::ReadMeta, CwdEvent::Meta(meta)) => match meta {
                Some(history) => Self::know(allow_prompt, history),
                None => CwdStep::Resolved(None),
            },
            (
                CwdStep::Compare { history },
                CwdEvent::Normalized { current: normal_current, session: normal_session },
            ) => if cwds_differ(&current, &history, normal_current, normal_session) {
                CwdStep::Prompt { history }
            } else {
                CwdStep::Resolved(Some(history))
            },
            (CwdStep::Prompt { history }, CwdEvent::Selected(selection)) => match selection {
                CwdSelection::Current => CwdStep::Resolved(Some(current.clone())),
                CwdSelection::Session => CwdStep::Resolved(Some(history)),
            },
            (step, _) => step,
        };
        CwdResolution { current, allow_prompt, step }
    }
}

/// The search begins with the rollout.
pub fn resolve_cwd_for_resume_or_fork(current_cwd: PathBuf, allow_prompt: bool) -> (search:
    CwdResolution)
    ensures
        search == (CwdResolution {
            current: current_cwd,
            allow_prompt,
            step: CwdStep::ReadRollout,
        }),
        search.wf(),
{
    CwdResolution { current: current_cwd, allow_prompt, step: CwdStep::ReadRollout }
}

impl CwdResolution {
    /// The search after a run of events.
    pub open spec fn run(self, events: Seq<CwdEvent>) -> CwdResolution
        decreases events.len(),
    {
        if events.len() == 0 {
            self
        } else {
            self.run(events.drop_last()).after(events.last())
        }
    }
}

/// The events name the directory as one that the session worked in.
pub open spec fn is_session_cwd(events: Seq<CwdEvent>, path: PathBuf) -> bool {
    events.contains(CwdEvent::LatestTurn(Some(path))) || events.contains(CwdEvent::Meta(Some(path)))
}

/// Whether two directories differ does not depend on which comes first.
pub proof fn law_cwds_differ_both_ways(
    a: PathBuf,
    b: PathBuf,
    normal_a: Option<PathBuf>,
    normal_b: Option<PathBuf>,
)
    ensures
        differ(a, b, normal_a, normal_b) == differ(b, a, normal_b, normal_a),
{
}

/// A directory does not differ from itself.
pub proof fn law_cwd_equals_itself(path: PathBuf, normal: Option<PathBuf>)
    ensures
        !differ(path, path, normal, normal),
{
}

proof fn lemma_contains_earlier(events: Seq<CwdEvent>, event: CwdEvent)
    requires
        events.len() > 0,
        events.drop_last().contains(event),
    ensures
        events.contains(event),
{
    let i = choose|i: int| 0 <= i < events.drop_last().len() && events.drop_last()[i] == event;
    assert(events[i] == event);
}

/// A directory that the search ends with has its reason: the session worked
/// there, or it is the current one and the user, who could be asked, chose it.
/// The user is never asked where a directory was given on the command line.
pub proof fn law_cwd_has_a_reason(search: CwdResolution, events: Seq<CwdEvent>)
    requires
        search.step is ReadRollout,
    ensures
        search.run(events).current == search.current,
        search.run(events).allow_prompt == search.allow_prompt,
        search.run(events).step is Prompt ==> search.allow_prompt,
        search.run(events).step matches CwdStep::Compare { history } ==> search.allow_prompt
            && is_session_cwd(events, history),
        search.run(events).step matches CwdStep::Prompt { history } ==> is_session_cwd(
            events,
            history,
        ),
        search.run(events).step matches CwdStep::Resolved(Some(path)) ==> is_session_cwd(
            events,
            path,
        ) || (search.allow_prompt && path == search.current && events.contains(
            CwdEvent::Selected(CwdSelection::Current),
        )),
    decreases events.len(),
{
    if events.len() > 0 {
        let earlier = events.drop_last();
        law_cwd_has_a_reason(search, earlier);
        assert(events[events.len() - 1] == events.last());
        assert(events.contains(events.last()));
        assert forall|event: CwdEvent| earlier.contains(event) implies #[trigger] events.contains(
            event,
        ) by {
            lemma_contains_earlier(events, event);
        }
    }
}

/// Where the user may not be asked, the search ends with the directory of the
/// latest turn, or else with the one that the session was opened in.
pub proof fn law_session_cwd_without_asking(
    search: CwdResolution,
    latest: Option<PathBuf>,
    meta: Option<PathBuf>,
)
    requires
        search.step is ReadRollout,
        !search.allow_prompt,
    ensures
        search.run(seq![CwdEvent::LatestTurn(latest), CwdEvent::Meta(meta)]).step
            == CwdStep::Resolved(
            if latest is Some {
                latest
            } else {
                meta
            },
        ),
{
    let events = seq![CwdEvent::LatestTurn(latest), CwdEvent::Meta(meta)];
    assert(events.drop_last() =~= seq![CwdEvent::LatestTurn(latest)]);
    assert(seq![CwdEvent::LatestTurn(latest)].drop_last() =~= Seq::<CwdEvent>::empty());
    reveal_with_fuel(CwdResolution::run, 3);
}

/// Where the user may be asked, they are asked exactly if the directories differ,
/// and the answer decides; otherwise the session's directory is taken.
pub proof fn law_asking_decides(
    search: CwdResolution,
    history: PathBuf,
    normal_current: Option<PathBuf>,
    normal_session: Option<PathBuf>,
    selection: CwdSelection,
)
    requires
        search.step is ReadRollout,
        search.allow_prompt,
    ensures
        ({
            let compared = search.run(
                seq![
                    CwdEvent::LatestTurn(Some(history)),
                    CwdEvent::Normalized { current: normal_current, session: normal_session },
                ],
            );
            let differs = differ(search.current, history, normal_current, normal_session);
            &&& differs <==> compared.step is Prompt
            &&& !differs ==> compared.step == CwdStep::Resolved(Some(history))
            &&& differs ==> compared.after(CwdEvent::Selected(selection)).step == CwdStep::Resolved(
                Some(
                    if selection is Current {
                        search.current
                    } else {
                        history
                    },
                ),
            )
        }),
{
    let first = seq![CwdEvent::LatestTurn(Some(history))];
    let both = seq![
        CwdEvent::LatestTurn(Some(history)),
        CwdEvent::Normalized { current: normal_current, session: normal_session },
    ];
    assert(both.drop_last() =~= first);
    assert(first.drop_last() =~= Seq::<CwdEvent>::empty());
    reveal_with_fuel(CwdResolution::run, 3);
}

/// What a call of [`read_session_cwd`] gives: the directory of the latest turn, where
/// there is one, and only otherwise the opening is to be read.
pub proof fn law_latest_turn_comes_before_the_opening(
    latest_turn: Option<PathBuf>,
    cwd: SessionCwd,
)
    requires
        call_ensures(read_session_cwd, (latest_turn,), cwd),
    ensures
        latest_turn matches Some(path) ==> cwd == SessionCwd::Known(path),
        latest_turn is None ==> cwd is ReadMeta,
{
}

/// What a call of [`cwds_differ`] gives: two directories that are resolved are the same
/// exactly if they resolve to the same, however they are spelled; where one cannot be
/// resolved, exactly if they are spelled the same.
pub proof fn law_resolved_directories_count(
    current: PathBuf,
    session: PathBuf,
    normal_current: Option<PathBuf>,
    normal_session: Option<PathBuf>,
    different: bool,
)
    requires
        call_ensures(cwds_differ, (&current, &session, normal_current, normal_session), different),
    ensures
        normal_current is Some && normal_session is Some ==> (different <==> normal_current->0
            != normal_session->0),
        normal_current is None || normal_session is None ==> (different <==> current != session),
{
}

/// What a call of [`CwdResolution::advance`] does once the session's directory is
/// learned, from the latest turn or from the opening: it is compared with the current
/// one where the user may be asked, and taken where not.
pub proof fn law_learned_directory_is_compared(
    search: CwdResolution,
    event: CwdEvent,
    history: PathBuf,
    next: CwdResolution,
)
    requires
        call_ensures(CwdResolution::advance, (search, event), next),
        (search.step is ReadRollout && event == CwdEvent::LatestTurn(Some(history))) || (
        search.step is ReadMeta && event == CwdEvent::Meta(Some(history))),
    ensures
        search.allow_prompt ==> next.step == (CwdStep::Compare { history }),
        !search.allow_prompt ==> next.step == CwdStep::Resolved(Some(history)),
        next.current == search.current,
        next.allow_prompt == search.allow_prompt,
{
}

/// What a call of [`CwdResolution::advance`] does with every other answer: without a
/// turn the opening is read, without an opening there is no directory, directories that
/// differ are put to the user, and the user's word decides. Any other event changes
/// nothing.
pub proof fn law_search_goes_by_the_answers(
    search: CwdResolution,
    event: CwdEvent,
    next: CwdResolution,
)
    requires
        call_ensures(CwdResolution::advance, (search, event), next),
    ensures
        next.current == search.current,
        next.allow_prompt == search.allow_prompt,
        search.step is ReadRollout && event == CwdEvent::LatestTurn(None) ==> next.step is ReadMeta,
        search.step is ReadMeta && event == CwdEvent::Meta(None) ==> next.step
            == CwdStep::Resolved(None),
        search.step matches CwdStep::Compare { history } ==> (event matches CwdEvent::Normalized {
            current,
            session,
        } ==> {
            let same = if current is Some && session is Some {
                current == session
            } else {
                search.current == history
            };
            next.step == if same {
                CwdStep::Resolved(Some(history))
            } else {
                CwdStep::Prompt { history }
            }
        }),
        search.step matches CwdStep::Prompt { history } ==> (event matches CwdEvent::Selected(
            selection,
        ) ==> (selection is Current ==> next.step == CwdStep::Resolved(Some(search.current))) && (
        selection is Session ==> next.step == CwdStep::Resolved(Some(history)))),
        next.step != search.step ==> {
            ||| search.step is ReadRollout && event is LatestTurn
            ||| search.step is ReadMeta && event is Meta
            ||| search.step is Compare && event is Normalized
            ||| search.step is Prompt && event is Selected
        },
{
}

proof fn lemma_run_in_parts(search: CwdResolution, first: Seq<CwdEvent>, rest: Seq<CwdEvent>)
    ensures
        search.run(first + rest) == search.run(first).run(rest),
    decreases rest.len(),
{
    let all = first + rest;
    if rest.len() == 0 {
        assert(all =~= first);
    } else {
        assert(all.drop_last() =~= first + rest.drop_last());
        lemma_run_in_parts(search, first, rest.drop_last());
    }
}

/// Where a directory was learned from does not matter: a session whose opening names it
/// and a session whose latest turn names it are treated alike, whatever comes after.
pub proof fn law_opening_counts_like_a_turn(
    search: CwdResolution,
    history: PathBuf,
    rest: Seq<CwdEvent>,
)
    requires
        search.step is ReadRollout,
    ensures
        search.run(seq![CwdEvent::LatestTurn(None), CwdEvent::Meta(Some(history))] + rest)
            == search.run(seq![CwdEvent::LatestTurn(Some(history))] + rest),
{
    let opening = seq![CwdEvent::LatestTurn(None), CwdEvent::Meta(Some(history))];
    let turn = seq![CwdEvent::LatestTurn(Some(history))];
    lemma_run_in_parts(search, opening, rest);
    lemma_run_in_parts(search, turn, rest);
    assert(opening.drop_last() =~= seq![CwdEvent::LatestTurn(None)]);
    assert(seq![CwdEvent::LatestTurn(None)].drop_last() =~= Seq::<CwdEvent>::empty());
    assert(turn.drop_last() =~= Seq::<CwdEvent>::empty());
    reveal_with_fuel(CwdResolution::run, 3);
}

/// The user who may be asked is asked exactly if the directories differ, wherever the
/// session's directory was learned from, and otherwise the session's directory is taken.
pub proof fn law_differing_directories_are_put_to_the_user(
    search: CwdResolution,
    history: PathBuf,
    normal_current: Option<PathBuf>,
    normal_session: Option<PathBuf>,
)
    requires
        search.step is ReadRollout,
        search.allow_prompt,
    ensures
        ({
            let compare = CwdEvent::Normalized { current: normal_current, session: normal_session };
            let by_turn = search.run(seq![CwdEvent::LatestTurn(Some(history)), compare]);
            let by_opening = search.run(
                seq![CwdEvent::LatestTurn(None), CwdEvent::Meta(Some(history)), compare],
            );
            let same = if normal_current is Some && normal_session is Some {
                normal_current == normal_session
            } else {
                search.current == history
            };
            &&& by_opening == by_turn
            &&& !same ==> by_opening.step == (CwdStep::Prompt { history })
            &&& same ==> by_opening.step == CwdStep::Resolved(Some(history))
        }),
{
    let compare = CwdEvent::Normalized { current: normal_current, session: normal_session };
    law_opening_counts_like_a_turn(search, history, seq![compare]);
    assert(seq![CwdEvent::LatestTurn(None), CwdEvent::Meta(Some(history))] + seq![compare]
        =~= seq![CwdEvent::LatestTurn(None), CwdEvent::Meta(Some(history)), compare]);
    assert(seq![CwdEvent::LatestTurn(Some(history))] + seq![compare]
        =~= seq![CwdEvent::LatestTurn(Some(history)), compare]);
    law_asking_decides(
        search,
        history,
        normal_current,
        normal_session,
        CwdSelection::Session,
    );
    let both = seq![CwdEvent::LatestTurn(Some(history)), compare];
    assert(both.drop_last() =~= seq![CwdEvent::LatestTurn(Some(history))]);
    assert(seq![CwdEvent::LatestTurn(Some(history))].drop_last() =~= Seq::<CwdEvent>::empty());
    reveal_with_fuel(CwdResolution::run, 3);
}

/// A call of [`resolve_cwd_for_resume_or_fork`] starts the search from the beginning,
/// with the directory and the leave to ask that it is given.
pub proof fn law_search_begins_with_the_rollout(
    current_cwd: PathBuf,
    allow_prompt: bool,
    search: CwdResolution,
)
    requires
        call_ensures(resolve_cwd_for_resume_or_fork, (current_cwd, allow_prompt), search),
    ensures
        search.step is ReadRollout,
        search.current == current_cwd,
        search.allow_prompt == allow_prompt,
{
}

} // verus!
