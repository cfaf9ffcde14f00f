use std::path::PathBuf;

use codex_tui::cwd::{
    cwds_differ, read_session_cwd, resolve_cwd_for_resume_or_fork, CwdEvent, CwdStep, SessionCwd,
};
use codex_tui::rollout::{parse_latest_turn_context_cwd, RolloutItem};
use serde_json::Value;

fn rollout_line(timestamp: &str, kind: &str, cwd: &str) -> String {
    let mut payload = serde_json::Map::new();
    payload.insert("cwd".to_string(), Value::String(cwd.to_string()));
    let mut line = serde_json::Map::new();
    line.insert("timestamp".to_string(), Value::String(timestamp.to_string()));
    line.insert("type".to_string(), Value::String(kind.to_string()));
    line.insert("payload".to_string(), Value::Object(payload));
    serde_json::to_string(&Value::Object(line)).expect("serialize rollout")
}

fn parse(line: &str) -> Option<RolloutItem> {
    let value: Value = serde_json::from_str(line).ok()?;
    let cwd = PathBuf::from(value.get("payload")?.get("cwd")?.as_str()?);
    match value.get("type")?.as_str()? {
        "turn_context" => Some(RolloutItem::TurnContext { cwd }),
        "session_meta" => Some(RolloutItem::SessionMeta { cwd }),
        _ => Some(RolloutItem::Other),
    }
}

fn latest(text: &str) -> Option<PathBuf> {
    parse_latest_turn_context_cwd(Some(text), parse)
}

/// Reads the directory as a session does: off the latest turn, or else off the
/// opening line.
fn session_cwd(text: &str) -> Option<PathBuf> {
    match read_session_cwd(latest(text)) {
        SessionCwd::Known(cwd) => Some(cwd),
        SessionCwd::ReadMeta => match parse(text.lines().next()?)? {
            RolloutItem::SessionMeta { cwd } => Some(cwd),
            _ => None,
        },
    }
}

#[test]
fn read_session_cwd_prefers_latest_turn_context() {
    let mut text = String::new();
    for line in [
        rollout_line("t0", "turn_context", "first"),
        rollout_line("t1", "turn_context", "second"),
    ] {
        text.push_str(&line);
        text.push('\n');
    }

    let cwd = session_cwd(&text).expect("expected cwd");
    assert_eq!(cwd, PathBuf::from("second"));
}

#[test]
fn should_prompt_when_meta_matches_current_but_latest_turn_differs() {
    let current = PathBuf::from("current");
    let latest = PathBuf::from("latest");
    let mut text = String::new();
    for line in [
        rollout_line("t0", "session_meta", "current"),
        rollout_line("t1", "turn_context", "latest"),
    ] {
        text.push_str(&line);
        text.push('\n');
    }

    let session_cwd = session_cwd(&text).expect("expected cwd");
    assert_eq!(session_cwd, latest);
    assert!(cwds_differ(&current, &session_cwd, None, None));
    assert!(cwds_differ(&current, &session_cwd, Some(current.clone()), Some(latest.clone())));

    let search = resolve_cwd_for_resume_or_fork(current.clone(), true)
        .advance(CwdEvent::LatestTurn(Some(session_cwd)))
        .advance(CwdEvent::Normalized { current: Some(current), session: Some(latest.clone()) });
    assert!(matches!(search.step, CwdStep::Prompt { history } if history == latest));
}

#[test]
fn read_session_cwd_falls_back_to_session_meta() {
    let text = format!("{}\n", rollout_line("t0", "session_meta", "session"));
    assert_eq!(latest(&text), None);
    let cwd = session_cwd(&text).expect("expected cwd");
    assert_eq!(cwd, PathBuf::from("session"));
}

#[test]
fn rollout_that_cannot_be_read_shows_nothing() {
    assert_eq!(parse_latest_turn_context_cwd(None, parse), None);
    assert_eq!(latest(""), None);
    assert_eq!(latest("\n\n  \n"), None);
}

#[test]
fn appended_turn_wins_and_other_lines_do_not_count() {
    let mut text = format!("{}\n", rollout_line("t0", "turn_context", "/a"));
    text.push_str("not json\n");
    text.push_str("   \t\n");
    text.push_str(&format!("{}\n", rollout_line("t1", "session_meta", "/meta")));
    text.push_str("{\"half\": \n");
    assert_eq!(latest(&text), Some(PathBuf::from("/a")));
    text.push_str(&format!("{}\n", rollout_line("t2", "turn_context", "/b")));
    assert_eq!(latest(&text), Some(PathBuf::from("/b")));
}

#[test]
fn line_endings_and_white_space_around_a_line_are_ignored() {
    let line = rollout_line("t0", "turn_context", "/a");
    assert_eq!(latest(&line), Some(PathBuf::from("/a")));
    assert_eq!(latest(&format!("{line}\r\n")), Some(PathBuf::from("/a")));
    assert_eq!(latest(&format!("\r\n \u{a0}{line} \u{2003}\r\n\r\n")), Some(PathBuf::from("/a")));
}

#[test]
fn parser_sees_trimmed_lines_latest_first() {
    let seen = std::cell::RefCell::new(Vec::new());
    let cwd = parse_latest_turn_context_cwd(Some("one\n\n  two \r\nthr\u{e9}e\n \n"), |line: &str| {
        seen.borrow_mut().push(line.to_string());
        None
    });
    assert_eq!(cwd, None);
    assert_eq!(seen.into_inner(), vec!["thr\u{e9}e", "two", "one"]);
}

#[test]
fn parser_is_not_asked_beyond_the_latest_turn() {
    let seen = std::cell::RefCell::new(0);
    let cwd = parse_latest_turn_context_cwd(Some("a\nb\nc\n"), |line: &str| {
        *seen.borrow_mut() += 1;
        if line == "b" {
            Some(RolloutItem::TurnContext { cwd: PathBuf::from("/b") })
        } else {
            Some(RolloutItem::Other)
        }
    });
    assert_eq!(cwd, Some(PathBuf::from("/b")));
    assert_eq!(seen.into_inner(), 2);
}

#[test]
fn rollout_read_again_shows_the_same_directory() {
    let text = format!(
        "{}\n{}\n",
        rollout_line("t0", "turn_context", "/a"),
        rollout_line("t1", "turn_context", "/b")
    );
    assert_eq!(latest(&text), Some(PathBuf::from("/b")));
    assert_eq!(latest(&text), latest(&text));
}

fn lines_asked_for(text: &str) -> Vec<String> {
    let seen = std::cell::RefCell::new(Vec::new());
    let cwd = parse_latest_turn_context_cwd(Some(text), |line: &str| {
        seen.borrow_mut().push(line.to_string());
        None
    });
    assert_eq!(cwd, None);
    seen.into_inner()
}

#[test]
fn text_cut_behind_a_closed_line_keeps_its_lines() {
    assert_eq!(lines_asked_for("a\r\nb\n"), vec!["b", "a"]);
    assert_eq!(lines_asked_for("c\nd"), vec!["d", "c"]);
    assert_eq!(lines_asked_for("a\r\nb\nc\nd"), vec!["d", "c", "b", "a"]);
    assert_eq!(lines_asked_for("abc\n"), vec!["abc"]);
}

#[test]
fn lines_without_a_turn_do_not_count_anywhere() {
    let a = format!("{}\n", rollout_line("t0", "turn_context", "/a"));
    let b = format!("{}\n", rollout_line("t1", "turn_context", "/b"));
    let other = format!("\nnot json\r\n{}\n", rollout_line("t2", "session_meta", "/meta"));
    let expected = Some(PathBuf::from("/b"));
    assert_eq!(latest(&format!("{a}{b}")), expected);
    assert_eq!(latest(&format!("{other}{a}{b}")), expected);
    assert_eq!(latest(&format!("{a}{other}{b}")), expected);
    assert_eq!(latest(&format!("{a}{b}{other}")), expected);
    assert_eq!(latest(&format!("{a}{b}{{\"half\"")), expected);
}

#[test]
fn all_white_space_around_a_line_is_taken_off_and_nothing_else() {
    let white_space = [
        '\u{9}', '\u{b}', '\u{c}', '\u{d}', '\u{20}', '\u{85}', '\u{a0}', '\u{1680}', '\u{2000}',
        '\u{2001}', '\u{2002}', '\u{2003}', '\u{2004}', '\u{2005}', '\u{2006}', '\u{2007}', '\u{2008}',
        '\u{2009}', '\u{200a}', '\u{2028}', '\u{2029}', '\u{202f}', '\u{205f}', '\u{3000}',
    ];
    for c in (0..=0x10ffff).filter_map(char::from_u32).filter(|c| *c != '\n') {
        let line = format!("{c}a b{c}");
        let expected = if white_space.contains(&c) { "a b" } else { line.as_str() };
        assert_eq!(lines_asked_for(&line), vec![expected]);
    }
}
