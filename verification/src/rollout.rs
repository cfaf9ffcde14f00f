//! The rollout of a session: an append-only log, one JSON object per line. The
//! working directory of a session is read off its latest turn.

use std::path::PathBuf;

use vstd::prelude::*;

use crate::text::{
    is_complete, last_line_end, last_line_start, law_lines_of_parts, lemma_last_line, line_start, lines,
    trim, trim_end, trim_start,
};

verus! {

/// What a line of a rollout records, as far as the working directory of the
/// session depends on it.
pub enum RolloutItem {
    /// The session was opened in this directory.
    SessionMeta { cwd: PathBuf },
    /// A turn ran in this directory.
    TurnContext { cwd: PathBuf },
    /// Anything else.
    Other,
}

/// The lines of a rollout that can hold an item, latest first: trimmed, and
/// without the blank ones.
pub open spec fn candidates(text: Seq<char>) -> Seq<Seq<char>> {
    lines(text).map_values(|line: Seq<char>| trim(line)).filter(
        |line: Seq<char>| line.len() > 0,
    ).reverse()
}

/// Whether a parsed line is the context of a turn.
pub open spec fn is_turn_context(parsed: Option<RolloutItem>) -> bool {
    parsed matches Some(item) && item is TurnContext
}

/// `parse` may answer `parsed` to the line.
pub open spec fn answered<F: Fn(&str) -> Option<RolloutItem>>(
    parse: F,
    line: Seq<char>,
    parsed: Option<RolloutItem>,
) -> bool {
    exists|s: &str| s@ == line && #[trigger] call_ensures(parse, (s,), parsed)
}

/// `parsed` are answers of `parse` to the first `parsed.len()` of the lines.
pub open spec fn answers<F: Fn(&str) -> Option<RolloutItem>>(
    parse: F,
    lines: Seq<Seq<char>>,
    parsed: Seq<Option<RolloutItem>>,
) -> bool {
    &&& parsed.len() <= lines.len()
    &&& forall|i: int|
        0 <= i < parsed.len() ==> answered(parse, lines[i], #[trigger] parsed[i])
}

/// The answers up to the first turn context, or all of them where there is none,
/// lead to `cwd`.
pub open spec fn leads_to(
    parsed: Seq<Option<RolloutItem>>,
    asked_all: bool,
    cwd: Option<PathBuf>,
) -> bool {
    match cwd {
        Some(path) => {
            &&& parsed.len() > 0
            &&& parsed.last() == Some(RolloutItem::TurnContext { cwd: path })
            &&& forall|i: int| 0 <= i < parsed.len() - 1 ==> !is_turn_context(#[trigger] parsed[i])
        },
        None => {
            &&& asked_all
            &&& forall|i: int| 0 <= i < parsed.len() ==> !is_turn_context(#[trigger] parsed[i])
        },
    }
}

/// With `parse`, the rollout shows `cwd`: the lines are taken latest first, until
/// one of them is the context of a turn.
pub open spec fn finds<F: Fn(&str) -> Option<RolloutItem>>(
    parse: F,
    text: Seq<char>,
    cwd: Option<PathBuf>,
) -> bool {
    exists|parsed: Seq<Option<RolloutItem>>|
        {
            &&& #[trigger] answers(parse, candidates(text), parsed)
            &&& leads_to(parsed, parsed.len() == candidates(text).len(), cwd)
        }
}

/// The characters of a text.
fn characters(text: &str) -> (chars: Vec<char>)
    ensures
        chars@ == text@,
{
    let mut chars: Vec<char> = Vec::new();
    for c in it: text.chars()
        invariant
            chars@ == text@.take(it.index()),
            it.seq() == text@,
    {
        chars.push(c);
    }
    chars
}

/// The string of the characters from `from` up to `to`.
fn string_of(chars: &Vec<char>, from: usize, to: usize) -> (s: String)
    requires
        from <= to <= chars@.len(),
    ensures
        s@ == chars@.subrange(from as int, to as int),
{
    let mut s = String::new();
    let mut i: usize = from;
    while i < to
        invariant
            from <= i <= to <= chars@.len(),
            s@ == chars@.subrange(from as int, i as int),
        decreases to - i,
    {
        s.push(chars[i]);
        i += 1;
    }
    s
}

/// Cutting off the last line cuts off the first candidate, unless that line is blank.
proof fn lemma_candidates_step(text: Seq<char>)
    requires
        text.len() > 0,
    ensures
        ({
            let line = trim(text.subrange(last_line_start(text), last_line_end(text)));
            let rest = candidates(text.take(last_line_start(text)));
            candidates(text) == if line.len() > 0 {
                seq![line] + rest
            } else {
                rest
            }
        }),
{
    lemma_last_line(text);
    let start = last_line_start(text);
    let raw = text.subrange(start, last_line_end(text));
    let line = trim(raw);
    let f = |line: Seq<char>| trim(line);
    let nonblank = |line: Seq<char>| line.len() > 0;
    let before = lines(text.take(start));
    let all = lines(text).map_values(f);
    assert(all =~= before.map_values(f).push(line));
    assert(all.drop_last() =~= before.map_values(f));
    reveal(Seq::filter);
    assert(all.filter(nonblank) == if line.len() > 0 {
        before.map_values(f).filter(nonblank).push(line)
    } else {
        before.map_values(f).filter(nonblank)
    });
    assert(candidates(text.take(start)) =~= before.map_values(f).filter(nonblank).reverse());
    if line.len() > 0 {
        assert(before.map_values(f).filter(nonblank).push(line).reverse() =~= seq![line]
            + before.map_values(f).filter(nonblank).reverse());
    }
}

/// The bounds of the text between `from` and `to` without the white space around it.
fn trimmed(chars: &Vec<char>, from: usize, to: usize) -> (bounds: (usize, usize))
    requires
        from <= to <= chars@.len(),
    ensures
        bounds.0 <= bounds.1 <= chars@.len(),
        chars@.subrange(bounds.0 as int, bounds.1 as int) == trim(
            chars@.subrange(from as int, to as int),
        ),
{
    let ghost whole = chars@.subrange(from as int, to as int);
    let mut a: usize = from;
    while a < to && chars[a].is_whitespace()
        invariant
            from <= a <= to <= chars@.len(),
            trim_start(whole) == trim_start(chars@.subrange(a as int, to as int)),
        decreases to - a,
    {
        assert(chars@.subrange(a as int, to as int).drop_first() =~= chars@.subrange(
            a + 1,
            to as int,
        ));
        a += 1;
    }
    assert(trim_start(whole) == chars@.subrange(a as int, to as int));
    let mut b: usize = to;
    while b > a && chars[b - 1].is_whitespace()
        invariant
            from <= a <= b <= to <= chars@.len(),
            trim(whole) == trim_end(chars@.subrange(a as int, b as int)),
        decreases b,
    {
        assert(chars@.subrange(a as int, b as int).drop_last() =~= chars@.subrange(
            a as int,
            b - 1,
        ));
        b -= 1;
    }
    (a, b)
}

/// The bounds of the last line of the first `end` characters, where there are any.
fn last_line(chars: &Vec<char>, end: usize) -> (bounds: (usize, usize))
    requires
        0 < end <= chars@.len(),
    ensures
        bounds.0 == last_line_start(chars@.take(end as int)),
        bounds.1 == last_line_end(chars@.take(end as int)),
        bounds.0 <= bounds.1 <= end,
        bounds.0 < end,
{
    let ghost text = chars@.take(end as int);
    proof {
        lemma_last_line(text);
    }
    let stop: usize = if chars[end - 1] == '\n' {
        if end > 1 && chars[end - 2] == '\r' {
            end - 2
        } else {
            end - 1
        }
    } else {
        end
    };
    let mut start: usize = stop;
    while start > 0 && chars[start - 1] != '\n'
        invariant
            start <= stop <= end <= chars@.len(),
            text == chars@.take(end as int),
            line_start(text, stop as int) == line_start(text, start as int),
        decreases start,
    {
        start -= 1;
    }
    (start, stop)
}

/// The directory of the latest turn that a rollout records. `text` is what reading
/// the rollout gave; one that cannot be read shows nothing. Lines that `parse`
/// does not understand are passed over.
pub fn parse_latest_turn_context_cwd<F: Fn(&str) -> Option<RolloutItem>>(
    text: Option<&str>,
    parse: F,
) -> (cwd: Option<PathBuf>)
    requires
        forall|line: &str| call_requires(parse, (line,)),
    ensures
        match text {
            Some(text) => finds(parse, text@, cwd),
            None => cwd is None,
        },
{
    match text {
        Some(text) => latest_turn_context_cwd(text, parse),
        None => None,
    }
}

/// The directory of the latest turn that the text records.
fn latest_turn_context_cwd<F: Fn(&str) -> Option<RolloutItem>>(text: &str, parse: F) -> (cwd:
    Option<PathBuf>)
    requires
        forall|line: &str| call_requires(parse, (line,)),
    ensures
        finds(parse, text@, cwd),
{
    let chars = characters(text);
    let mut end: usize = chars.len();
    let ghost mut parsed: Seq<Option<RolloutItem>> = Seq::empty();
    assert(chars@.take(end as int) =~= text@);
    while end > 0
        invariant
            chars@ == text@,
            end <= chars@.len(),
            forall|line: &str| call_requires(parse, (line,)),
            answers(parse, candidates(text@), parsed),
            forall|i: int| 0 <= i < parsed.len() ==> !is_turn_context(#[trigger] parsed[i]),
            candidates(chars@.take(end as int)) == candidates(text@).skip(parsed.len() as int),
        decreases end,
    {
        let ghost head = chars@.take(end as int);
        let (start, stop) = last_line(&chars, end);
        let (a, b) = trimmed(&chars, start, stop);
        proof {
            lemma_candidates_step(head);
            assert(head.take(start as int) =~= chars@.take(start as int));
            assert(head.subrange(start as int, stop as int) =~= chars@.subrange(
                start as int,
                stop as int,
            ));
        }
        if a < b {
            let line = string_of(&chars, a, b);
            proof {
                let all = candidates(text@);
                let rest = all.skip(parsed.len() as int);
                assert(rest == seq![line@] + candidates(chars@.take(start as int)));
                assert(rest.len() > 0);
                assert(rest[0] == line@);
                assert(all[parsed.len() as int] == line@);
                assert(all.skip(parsed.len() as int + 1) =~= rest.skip(1));
                assert(candidates(chars@.take(start as int)) =~= candidates(text@).skip(
                    parsed.len() as int + 1,
                ));
            }
            let answer = parse(line.as_str());
            let ghost before = parsed;
            proof {
                parsed = parsed.push(answer);
                assert(answered(parse, line@, answer));
                assert forall|i: int| 0 <= i < parsed.len() implies answered(
                    parse,
                    candidates(text@)[i],
                    #[trigger] parsed[i],
                ) by {
                    if i < before.len() {
                        assert(parsed[i] == before[i]);
                    }
                }
                assert(answers(parse, candidates(text@), parsed));
            }
            match answer {
                Some(RolloutItem::TurnContext { cwd }) => {
                    assert(leads_to(parsed, parsed.len() == candidates(text@).len(), Some(cwd)));
                    return Some(cwd);
                },
                _ => {},
            }
        } else {
            assert(candidates(head) == candidates(chars@.take(start as int)));
        }
        end = start;
    }
    proof {
        assert(chars@.take(0) =~= Seq::empty());
        assert(candidates(Seq::empty()) =~= Seq::empty()) by {
            reveal(Seq::filter);
        }
        assert(leads_to(parsed, parsed.len() == candidates(text@).len(), None));
    }
    None
}

/// A text without a line feed, to be closed by one.
pub open spec fn is_one_line(line: Seq<char>) -> bool {
    forall|i: int| 0 <= i < line.len() ==> line[i] != '\n'
}

/// What a line holds: a carriage return at its end belongs to the line ending.
pub open spec fn content(line: Seq<char>) -> Seq<char> {
    if line.len() > 0 && line.last() == '\r' {
        line.drop_last()
    } else {
        line
    }
}

proof fn lemma_line_start_after(text: Seq<char>, line: Seq<char>, k: int)
    requires
        is_complete(text),
        is_one_line(line),
        0 <= k <= line.len(),
    ensures
        line_start((text + line).push('\n'), text.len() + k) == text.len(),
    decreases k,
{
    let all = (text + line).push('\n');
    if k > 0 {
        lemma_line_start_after(text, line, k - 1);
        assert(all[text.len() + k - 1] == line[k - 1]);
    } else if text.len() > 0 {
        assert(all[text.len() - 1] == text.last());
    }
}

/// Appending a line to a rollout adds that line, trimmed, in front of the
/// candidates, and nothing where it is blank.
pub proof fn law_append_line(text: Seq<char>, line: Seq<char>)
    requires
        is_complete(text),
        is_one_line(line),
    ensures
        candidates((text + line).push('\n')) == if trim(content(line)).len() > 0 {
            seq![trim(content(line))] + candidates(text)
        } else {
            candidates(text)
        },
{
    let all = (text + line).push('\n');
    let end = text.len() + content(line).len();
    lemma_line_start_after(text, line, content(line).len() as int);
    if line.len() > 0 {
        assert(all[all.len() - 2] == line.last());
    } else if text.len() > 0 {
        assert(all[all.len() - 2] == text.last());
    }
    assert(last_line_end(all) == end);
    lemma_candidates_step(all);
    assert(all.take(text.len() as int) =~= text);
    assert(all.subrange(text.len() as int, end as int) =~= content(line));
}

/// The latest turn wins: once the context of a turn is appended to a rollout,
/// the rollout shows the directory of that turn, whatever it held before.
pub proof fn law_latest_turn_wins<F: Fn(&str) -> Option<RolloutItem>>(
    parse: F,
    text: Seq<char>,
    line: Seq<char>,
    turn_cwd: PathBuf,
    cwd: Option<PathBuf>,
)
    requires
        is_complete(text),
        is_one_line(line),
        trim(content(line)).len() > 0,
        forall|parsed: Option<RolloutItem>| #[trigger]
            answered(parse, trim(content(line)), parsed) ==> parsed == Some(
                RolloutItem::TurnContext { cwd: turn_cwd },
            ),
        finds(parse, (text + line).push('\n'), cwd),
    ensures
        cwd == Some(turn_cwd),
{
    law_append_line(text, line);
    let all = candidates((text + line).push('\n'));
    let parsed = choose|parsed: Seq<Option<RolloutItem>>|
        {
            &&& #[trigger] answers(parse, all, parsed)
            &&& leads_to(parsed, parsed.len() == all.len(), cwd)
        };
    assert(all[0] == trim(content(line)));
    assert(parsed.len() > 0);
    assert(answered(parse, all[0], parsed[0]));
    assert(is_turn_context(parsed[0]));
}

/// `parse` answers the same to the same line.
pub open spec fn is_steady<F: Fn(&str) -> Option<RolloutItem>>(parse: F) -> bool {
    forall|line: Seq<char>, one: Option<RolloutItem>, other: Option<RolloutItem>|
        #[trigger] answered(parse, line, one) && #[trigger] answered(parse, line, other) ==> one
            == other
}

/// A rollout shows one directory, or none: read again with the same `parse`, it
/// shows the same.
pub proof fn law_rollout_shows_one_directory<F: Fn(&str) -> Option<RolloutItem>>(
    parse: F,
    text: Seq<char>,
    one: Option<PathBuf>,
    other: Option<PathBuf>,
)
    requires
        is_steady(parse),
        finds(parse, text, one),
        finds(parse, text, other),
    ensures
        one == other,
{
    let all = candidates(text);
    let a = choose|parsed: Seq<Option<RolloutItem>>|
        {
            &&& #[trigger] answers(parse, all, parsed)
            &&& leads_to(parsed, parsed.len() == all.len(), one)
        };
    let b = choose|parsed: Seq<Option<RolloutItem>>|
        {
            &&& #[trigger] answers(parse, all, parsed)
            &&& leads_to(parsed, parsed.len() == all.len(), other)
        };
    assert forall|i: int| 0 <= i < a.len() && i < b.len() implies #[trigger] a[i] == #[trigger] b[i] by {
        assert(answered(parse, all[i], a[i]));
        assert(answered(parse, all[i], b[i]));
    }
    if one is Some && a.len() <= b.len() {
        assert(a[a.len() - 1] == b[a.len() - 1]);
    }
    if other is Some && b.len() <= a.len() {
        assert(a[b.len() - 1] == b[b.len() - 1]);
    }
}

/// Lines that are no context of a turn do not count: appending a blank line, one
/// that is not understood or one that records something else changes nothing.
pub proof fn law_other_lines_do_not_count<F: Fn(&str) -> Option<RolloutItem>>(
    parse: F,
    text: Seq<char>,
    line: Seq<char>,
    cwd: Option<PathBuf>,
)
    requires
        is_complete(text),
        is_one_line(line),
        trim(content(line)).len() > 0 ==> forall|parsed: Option<RolloutItem>| #[trigger]
            answered(parse, trim(content(line)), parsed) ==> !is_turn_context(parsed),
        finds(parse, (text + line).push('\n'), cwd),
    ensures
        finds(parse, text, cwd),
        is_steady(parse) ==> forall|before: Option<PathBuf>| #[trigger]
            finds(parse, text, before) ==> before == cwd,
{
    law_append_line(text, line);
    let all = candidates((text + line).push('\n'));
    let before = candidates(text);
    if trim(content(line)).len() > 0 {
        let parsed = choose|parsed: Seq<Option<RolloutItem>>|
            {
                &&& #[trigger] answers(parse, all, parsed)
                &&& leads_to(parsed, parsed.len() == all.len(), cwd)
            };
        assert(all[0] == trim(content(line)));
        assert(parsed.len() > 0);
        assert(answered(parse, all[0], parsed[0]));
        let rest = parsed.drop_first();
        assert forall|i: int| 0 <= i < rest.len() implies answered(
            parse,
            before[i],
            #[trigger] rest[i],
        ) by {
            assert(rest[i] == parsed[i + 1]);
            assert(before[i] == all[i + 1]);
        }
        assert(answers(parse, before, rest));
        assert forall|i: int| 0 <= i < rest.len() - 1 implies !is_turn_context(#[trigger] rest[i]) by {
            assert(rest[i] == parsed[i + 1]);
        }
        if cwd is None && rest.len() > 0 {
            assert(rest.last() == parsed[parsed.len() - 1]);
        }
        assert(leads_to(rest, rest.len() == before.len(), cwd));
    }
    if is_steady(parse) {
        assert forall|before: Option<PathBuf>| #[trigger]
            finds(parse, text, before) implies before == cwd by {
            law_rollout_shows_one_directory(parse, text, before, cwd);
        }
    }
}

/// Behind a closed line, a rollout can be cut in two: its candidates are those of the
/// second part and then those of the first.
pub proof fn law_candidates_of_parts(head: Seq<char>, tail: Seq<char>)
    requires
        is_complete(head),
    ensures
        candidates(head + tail) == candidates(tail) + candidates(head),
{
    let f = |line: Seq<char>| trim(line);
    let nonblank = |line: Seq<char>| line.len() > 0;
    let a = lines(head).map_values(f);
    let b = lines(tail).map_values(f);
    law_lines_of_parts(head, tail);
    assert(lines(head + tail).map_values(f) =~= a + b);
    Seq::filter_distributes_over_add(a, b, nonblank);
    assert((a.filter(nonblank) + b.filter(nonblank)).reverse() =~= b.filter(nonblank).reverse()
        + a.filter(nonblank).reverse());
}

/// No line of the text is taken for the context of a turn.
pub open spec fn holds_no_turn<F: Fn(&str) -> Option<RolloutItem>>(parse: F, text: Seq<char>) -> bool {
    forall|i: int, parsed: Option<RolloutItem>|
        0 <= i < candidates(text).len() && #[trigger] answered(parse, candidates(text)[i], parsed)
            ==> !is_turn_context(parsed)
}

/// Lines that are no context of a turn do not count wherever they stand: putting
/// lines that hold no turn in anywhere, at the beginning, between two lines or at the
/// end, closed or not, changes nothing.
pub proof fn law_other_lines_do_not_count_anywhere<F: Fn(&str) -> Option<RolloutItem>>(
    parse: F,
    head: Seq<char>,
    inserted: Seq<char>,
    tail: Seq<char>,
    cwd: Option<PathBuf>,
)
    requires
        is_complete(head),
        is_complete(inserted) || tail.len() == 0,
        holds_no_turn(parse, inserted),
        finds(parse, head + inserted + tail, cwd),
    ensures
        finds(parse, head + tail, cwd),
        is_steady(parse) ==> forall|before: Option<PathBuf>| #[trigger]
            finds(parse, head + tail, before) ==> before == cwd,
{
    let all = candidates(head + inserted + tail);
    let kept = candidates(head + tail);
    law_candidates_of_parts(head, inserted);
    law_candidates_of_parts(head, tail);
    if tail.len() == 0 {
        assert(head + inserted + tail =~= head + inserted);
        assert(candidates(tail) =~= Seq::empty()) by {
            reveal(Seq::filter);
        }
    } else {
        assert(is_complete(head + inserted));
        law_candidates_of_parts(head + inserted, tail);
    }
    let t = candidates(tail).len() as int;
    let m = candidates(inserted).len() as int;
    assert(all =~= candidates(tail) + candidates(inserted) + candidates(head));
    let parsed = choose|parsed: Seq<Option<RolloutItem>>|
        {
            &&& #[trigger] answers(parse, all, parsed)
            &&& leads_to(parsed, parsed.len() == all.len(), cwd)
        };
    assert forall|i: int| t <= i < t + m && i < parsed.len() implies !is_turn_context(
        #[trigger] parsed[i],
    ) by {
        assert(all[i] == candidates(inserted)[i - t]);
        assert(answered(parse, candidates(inserted)[i - t], parsed[i]));
    }
    let rest = if parsed.len() <= t {
        parsed
    } else if parsed.len() <= t + m {
        parsed.take(t)
    } else {
        parsed.take(t) + parsed.skip(t + m)
    };
    assert forall|i: int| 0 <= i < rest.len() implies answered(
        parse,
        kept[i],
        #[trigger] rest[i],
    ) by {
        if i < t {
            assert(rest[i] == parsed[i]);
            assert(kept[i] == all[i]);
        } else {
            assert(rest[i] == parsed[i + m]);
            assert(kept[i] == all[i + m]);
        }
    }
    assert(answers(parse, kept, rest));
    assert(kept.len() + m == all.len());
    if cwd is Some {
        assert(is_turn_context(parsed[parsed.len() - 1]));
        assert(rest.last() == parsed.last());
    }
    assert forall|i: int| 0 <= i < rest.len() && (i < rest.len() - 1 || cwd is None) implies
        !is_turn_context(#[trigger] rest[i]) by {
        if i < t {
            assert(rest[i] == parsed[i]);
        } else {
            assert(rest[i] == parsed[i + m]);
        }
    }
    assert(leads_to(rest, rest.len() == kept.len(), cwd));
    if is_steady(parse) {
        assert forall|before: Option<PathBuf>| #[trigger]
            finds(parse, head + tail, before) implies before == cwd by {
            law_rollout_shows_one_directory(parse, head + tail, before, cwd);
        }
    }
}

/// A rollout without a line that can hold an item shows no directory.
pub proof fn law_blank_rollout_shows_nothing<F: Fn(&str) -> Option<RolloutItem>>(
    parse: F,
    text: Seq<char>,
    cwd: Option<PathBuf>,
)
    requires
        candidates(text).len() == 0,
        finds(parse, text, cwd),
    ensures
        cwd is None,
{
}

/// A line is passed over: it is blank, or it is taken for anything but the context of a
/// turn.
pub open spec fn passed_over<F: Fn(&str) -> Option<RolloutItem>>(parse: F, line: Seq<char>) -> bool {
    trim(line).len() == 0 || exists|parsed: Option<RolloutItem>|
        {
            &&& #[trigger] answered(parse, trim(line), parsed)
            &&& !(parsed matches Some(RolloutItem::TurnContext { .. }))
        }
}

/// Of the lines, the one numbered `j` is taken for the context of a turn in the
/// directory, and all behind it are passed over.
pub open spec fn is_latest_turn<F: Fn(&str) -> Option<RolloutItem>>(
    parse: F,
    all: Seq<Seq<char>>,
    j: int,
    cwd: PathBuf,
) -> bool {
    &&& 0 <= j < all.len()
    &&& trim(all[j]).len() > 0
    &&& answered(parse, trim(all[j]), Some(RolloutItem::TurnContext { cwd }))
    &&& forall|k: int| j < k < all.len() ==> passed_over(parse, #[trigger] all[k])
}

proof fn lemma_latest_turn<F: Fn(&str) -> Option<RolloutItem>>(
    parse: F,
    text: Seq<char>,
    parsed: Seq<Option<RolloutItem>>,
    cwd: Option<PathBuf>,
)
    requires
        answers(parse, candidates(text), parsed),
        leads_to(parsed, parsed.len() == candidates(text).len(), cwd),
    ensures
        match cwd {
            Some(path) => exists|j: int| #[trigger] is_latest_turn(parse, lines(text), j, path),
            None => forall|k: int|
                0 <= k < lines(text).len() ==> passed_over(parse, #[trigger] lines(text)[k]),
        },
    decreases text.len(),
{
    if text.len() == 0 {
        assert(candidates(text) =~= Seq::empty()) by {
            reveal(Seq::filter);
        }
    } else {
        lemma_last_line(text);
        lemma_candidates_step(text);
        let start = last_line_start(text);
        let head = text.take(start);
        let raw = text.subrange(start, last_line_end(text));
        let all = lines(text);
        let last = all.len() - 1;
        assert(all[last] == raw);
        assert forall|k: int| 0 <= k < last implies #[trigger] all[k] == lines(head)[k] by {}
        if trim(raw).len() > 0 {
            assert(parsed.len() > 0);
            assert(candidates(text)[0] == trim(raw));
            assert(answered(parse, trim(raw), parsed[0]));
        }
        if trim(raw).len() > 0 && is_turn_context(parsed[0]) {
            assert(parsed.len() == 1);
            assert(cwd is Some);
            assert(is_latest_turn(parse, all, last, cwd->0));
        } else {
            let rest = if trim(raw).len() > 0 {
                parsed.drop_first()
            } else {
                parsed
            };
            if trim(raw).len() > 0 {
                assert forall|i: int| 0 <= i < rest.len() implies answered(
                    parse,
                    candidates(head)[i],
                    #[trigger] rest[i],
                ) by {
                    assert(rest[i] == parsed[i + 1]);
                    assert(candidates(head)[i] == candidates(text)[i + 1]);
                }
                assert forall|i: int| 0 <= i < rest.len() implies #[trigger] rest[i] == parsed[i
                    + 1] by {}
                if cwd is Some {
                    assert(rest.last() == parsed.last());
                }
                assert(leads_to(rest, rest.len() == candidates(head).len(), cwd));
            }
            assert(answers(parse, candidates(head), rest));
            lemma_latest_turn(parse, head, rest, cwd);
            assert(passed_over(parse, raw));
            if let Some(path) = cwd {
                let j = choose|j: int| #[trigger] is_latest_turn(parse, lines(head), j, path);
                assert(is_latest_turn(parse, all, j, path));
            }
        }
    }
}

/// What a call of [`parse_latest_turn_context_cwd`] gives for a rollout that could be
/// read: the directory of a turn in it behind which every line, to the end, is passed
/// over, and none only if every line is. One that could not be read shows nothing.
pub proof fn law_directory_is_that_of_the_last_turn<F: Fn(&str) -> Option<RolloutItem>>(
    text: Option<&str>,
    parse: F,
    cwd: Option<PathBuf>,
)
    requires
        call_ensures(parse_latest_turn_context_cwd::<F>, (text, parse), cwd),
    ensures
        text is None ==> cwd is None,
        text matches Some(text) ==> match cwd {
            Some(path) => exists|j: int| #[trigger] is_latest_turn(parse, lines(text@), j, path),
            None => forall|k: int|
                0 <= k < lines(text@).len() ==> passed_over(parse, #[trigger] lines(text@)[k]),
        },
{
    if let Some(text) = text {
        let parsed = choose|parsed: Seq<Option<RolloutItem>>|
            {
                &&& #[trigger] answers(parse, candidates(text@), parsed)
                &&& leads_to(parsed, parsed.len() == candidates(text@).len(), cwd)
            };
        lemma_latest_turn(parse, text@, parsed, cwd);
    }
}

/// A line that is taken for the context of a turn, and for nothing else, is not passed
/// over: with lines behind it that hold no turn, closed or not, the rollout shows its
/// directory.
pub proof fn law_turn_is_not_passed_over<F: Fn(&str) -> Option<RolloutItem>>(
    text: &str,
    parse: F,
    j: int,
    turn_cwd: PathBuf,
    cwd: Option<PathBuf>,
)
    requires
        call_ensures(parse_latest_turn_context_cwd::<F>, (Some(text), parse), cwd),
        0 <= j < lines(text@).len(),
        trim(lines(text@)[j]).len() > 0,
        forall|parsed: Option<RolloutItem>| #[trigger]
            answered(parse, trim(lines(text@)[j]), parsed) ==> parsed == Some(
                RolloutItem::TurnContext { cwd: turn_cwd },
            ),
        forall|k: int, parsed: Option<RolloutItem>|
            j < k < lines(text@).len() && trim(lines(text@)[k]).len() > 0 && #[trigger] answered(
                parse,
                trim(lines(text@)[k]),
                parsed,
            ) ==> !(parsed matches Some(RolloutItem::TurnContext { .. })),
    ensures
        cwd == Some(turn_cwd),
{
    let all = lines(text@);
    law_directory_is_that_of_the_last_turn(Some(text), parse, cwd);
    match cwd {
        None => {
            assert(passed_over(parse, all[j]));
        },
        Some(path) => {
            let i = choose|i: int| #[trigger] is_latest_turn(parse, all, i, path);
            if i < j {
                assert(passed_over(parse, all[j]));
            } else {
                assert(answered(parse, trim(all[i]), Some(RolloutItem::TurnContext { cwd: path })));
            }
        },
    }
}

} // verus!
