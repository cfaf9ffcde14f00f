use std::path::PathBuf;

use codex_tui::cwd::{
    cwds_differ, resolve_cwd_for_resume_or_fork, CwdEvent, CwdResolution, CwdStep,
};
use codex_tui::types::CwdSelection;

fn path(text: &str) -> PathBuf {
    PathBuf::from(text)
}

fn resolved(search: CwdResolution) -> Option<PathBuf> {
    match search.step {
        CwdStep::Resolved(cwd) => cwd,
        _ => panic!("the search is not over"),
    }
}

#[test]
fn normal_forms_decide_where_both_are_known() {
    let a = path("/a");
    let b = path("/b");
    assert!(!cwds_differ(&a, &b, Some(path("/real")), Some(path("/real"))));
    assert!(cwds_differ(&a, &a, Some(path("/real")), Some(path("/other"))));
    assert!(cwds_differ(&a, &b, Some(path("/real")), None));
    assert!(!cwds_differ(&a, &a, None, Some(path("/real"))));
    assert!(!cwds_differ(&a, &a, None, None));
}

#[test]
fn spelling_of_separators_does_not_count() {
    assert!(!cwds_differ(&path("/a/b"), &path("/a//b/"), None, None));
    assert!(cwds_differ(&path("/a/b"), &path("/a/B/c"), None, None));
}

#[test]
fn differing_is_symmetric() {
    let a = path("/a");
    let b = path("/b");
    assert_eq!(
        cwds_differ(&a, &b, Some(path("/x")), Some(path("/y"))),
        cwds_differ(&b, &a, Some(path("/y")), Some(path("/x")))
    );
}

#[test]
fn without_prompt_the_session_directory_is_taken() {
    let search = resolve_cwd_for_resume_or_fork(path("/now"), false)
        .advance(CwdEvent::LatestTurn(Some(path("/turn"))))
        .advance(CwdEvent::Meta(Some(path("/meta"))));
    assert_eq!(resolved(search), Some(path("/turn")));

    let search = resolve_cwd_for_resume_or_fork(path("/now"), false)
        .advance(CwdEvent::LatestTurn(None))
        .advance(CwdEvent::Meta(Some(path("/meta"))));
    assert_eq!(resolved(search), Some(path("/meta")));
}

#[test]
fn session_without_a_directory_gives_none() {
    let search = resolve_cwd_for_resume_or_fork(path("/now"), true)
        .advance(CwdEvent::LatestTurn(None))
        .advance(CwdEvent::Meta(None));
    assert_eq!(resolved(search), None);
}

#[test]
fn equal_directories_need_no_prompt() {
    let search = resolve_cwd_for_resume_or_fork(path("/now"), true)
        .advance(CwdEvent::LatestTurn(Some(path("/link"))))
        .advance(CwdEvent::Normalized {
            current: Some(path("/now")),
            session: Some(path("/now")),
        });
    assert_eq!(resolved(search), Some(path("/link")));
}

#[test]
fn the_user_decides_between_different_directories() {
    for (selection, expected) in
        [(CwdSelection::Current, path("/now")), (CwdSelection::Session, path("/turn"))]
    {
        let search = resolve_cwd_for_resume_or_fork(path("/now"), true)
            .advance(CwdEvent::LatestTurn(Some(path("/turn"))))
            .advance(CwdEvent::Normalized { current: None, session: Some(path("/turn")) })
            .advance(CwdEvent::Selected(selection));
        assert_eq!(resolved(search), Some(expected));
    }
}

#[test]
fn events_that_are_not_awaited_change_nothing() {
    let search = resolve_cwd_for_resume_or_fork(path("/now"), true)
        .advance(CwdEvent::Selected(CwdSelection::Current))
        .advance(CwdEvent::Meta(Some(path("/meta"))));
    assert!(matches!(search.step, CwdStep::ReadRollout));
}
