//! Lines and surrounding white space of a text, as sequences of characters.

use vstd::prelude::*;

verus! {

/// The character has the Unicode property White_Space.
pub open spec fn is_white_space(c: char) -> bool {
    ||| '\u{9}' <= c <= '\u{d}'
    ||| c == ' '
    ||| c == '\u{85}'
    ||| c == '\u{a0}'
    ||| c == '\u{1680}'
    ||| '\u{2000}' <= c <= '\u{200a}'
    ||| c == '\u{2028}'
    ||| c == '\u{2029}'
    ||| c == '\u{202f}'
    ||| c == '\u{205f}'
    ||| c == '\u{3000}'
}

/// `char::is_whitespace`: it says whether the character has the Unicode property
/// White_Space, which is that of the characters listed in [`is_white_space`].
pub assume_specification[ char::is_whitespace ](c: char) -> (b: bool)
    ensures
        b == is_white_space(c),
;

/// `String::push`: the character is appended to the string.
pub assume_specification[ String::push ](s: &mut String, c: char)
    ensures
        final(s)@ == old(s)@.push(c),
;

/// The text without its leading white space.
pub open spec fn trim_start(s: Seq<char>) -> Seq<char>
    decreases s.len(),
{
    if s.len() > 0 && is_white_space(s[0]) {
        trim_start(s.drop_first())
    } else {
        s
    }
}

/// The text without its trailing white space.
pub open spec fn trim_end(s: Seq<char>) -> Seq<char>
    decreases s.len(),
{
    if s.len() > 0 && is_white_space(s.last()) {
        trim_end(s.drop_last())
    } else {
        s
    }
}

/// The text without the white space around it.
pub open spec fn trim(s: Seq<char>) -> Seq<char> {
    trim_end(trim_start(s))
}

/// All characters of the text are white space.
pub open spec fn is_blank(s: Seq<char>) -> bool {
    forall|i: int| 0 <= i < s.len() ==> is_white_space(#[trigger] s[i])
}

proof fn lemma_trim_start(s: Seq<char>)
    ensures
        trim_start(s).len() <= s.len(),
        trim_start(s) == s.skip(s.len() - trim_start(s).len()),
        is_blank(s.take(s.len() - trim_start(s).len())),
        trim_start(s).len() > 0 ==> !is_white_space(trim_start(s)[0]),
    decreases s.len(),
{
    if s.len() > 0 && is_white_space(s[0]) {
        let rest = s.drop_first();
        lemma_trim_start(rest);
        let k = rest.len() - trim_start(rest).len();
        assert(rest.skip(k) =~= s.skip(k + 1));
        assert forall|i: int| 0 <= i < k + 1 implies is_white_space(#[trigger] s.take(k + 1)[i]) by {
            if i > 0 {
                assert(rest.take(k)[i - 1] == s[i]);
            }
        }
    } else {
        assert(s.skip(0) =~= s);
    }
}

proof fn lemma_trim_end(s: Seq<char>)
    ensures
        trim_end(s).len() <= s.len(),
        trim_end(s) == s.take(trim_end(s).len() as int),
        is_blank(s.skip(trim_end(s).len() as int)),
        trim_end(s).len() > 0 ==> !is_white_space(trim_end(s).last()),
    decreases s.len(),
{
    if s.len() > 0 && is_white_space(s.last()) {
        let rest = s.drop_last();
        lemma_trim_end(rest);
        let k = trim_end(rest).len() as int;
        assert(rest.take(k) =~= s.take(k));
        assert forall|i: int| 0 <= i < s.len() - k implies is_white_space(#[trigger] s.skip(k)[i]) by {
            if i < rest.len() - k {
                assert(rest.skip(k)[i] == s[k + i]);
            }
        }
    } else {
        assert(s.take(s.len() as int) =~= s);
    }
}

/// Trimming takes off white space alone, and all of it at both ends: the text is what
/// is left with blank text around it, and what is left neither begins nor ends with
/// white space.
pub proof fn law_trim_takes_off_white_space(s: Seq<char>)
    ensures
        trim(s).len() > 0 ==> !is_white_space(trim(s)[0]) && !is_white_space(trim(s).last()),
        exists|before: Seq<char>, after: Seq<char>|
            #![trigger before + trim(s) + after]
            is_blank(before) && is_blank(after) && s == before + trim(s) + after,
        trim(s).len() == 0 <==> is_blank(s),
{
    lemma_trim_start(s);
    let middle = trim_start(s);
    lemma_trim_end(middle);
    let before = s.take(s.len() - middle.len());
    let after = middle.skip(trim(s).len() as int);
    assert(s =~= before + trim(s) + after);
    if trim(s).len() > 0 {
        assert(trim(s)[0] == middle[0]);
        assert(s[before.len() as int] == middle[0]);
    } else {
        assert forall|i: int| 0 <= i < s.len() implies is_white_space(#[trigger] s[i]) by {
            if i < before.len() {
                assert(before[i] == s[i]);
            } else {
                assert(after[i - before.len()] == s[i]);
            }
        }
    }
}

/// Where the line that ends before `end` begins: just behind the last line feed
/// before `end`, or at the start of the text.
pub open spec fn line_start(text: Seq<char>, end: int) -> int
    decreases end,
{
    if end <= 0 {
        0
    } else if text[end - 1] == '\n' {
        end
    } else {
        line_start(text, end - 1)
    }
}

/// Where the last line's content ends: before the line ending, if the text closes
/// with one. A carriage return belongs to the line ending only before a line feed.
pub open spec fn last_line_end(text: Seq<char>) -> int {
    if text.len() > 0 && text.last() == '\n' {
        if text.len() > 1 && text[text.len() - 2] == '\r' {
            text.len() - 2
        } else {
            text.len() - 1
        }
    } else {
        text.len() as int
    }
}

/// Where the last line begins.
pub open spec fn last_line_start(text: Seq<char>) -> int {
    line_start(text, last_line_end(text))
}

/// The lines of a text, first to last, without their line endings. The last
/// line may lack one.
pub open spec fn lines(text: Seq<char>) -> Seq<Seq<char>>
    decreases text.len(),
{
    if text.len() == 0 {
        Seq::empty()
    } else {
        proof {
            lemma_line_start(text, last_line_end(text));
        }
        lines(text.take(last_line_start(text))).push(
            text.subrange(last_line_start(text), last_line_end(text)),
        )
    }
}

/// A line begins at or before its end, at the start of the text or behind a line
/// feed, and holds no line feed.
pub proof fn lemma_line_start(text: Seq<char>, end: int)
    requires
        0 <= end <= text.len(),
    ensures
        0 <= line_start(text, end) <= end,
        line_start(text, end) > 0 ==> text[line_start(text, end) - 1] == '\n',
        forall|i: int| line_start(text, end) <= i < end ==> text[i] != '\n',
    decreases end,
{
    if end > 0 && text[end - 1] != '\n' {
        lemma_line_start(text, end - 1);
    }
}

/// The last line of a text that is not empty takes at least one character off it.
pub(crate) proof fn lemma_last_line(text: Seq<char>)
    requires
        text.len() > 0,
    ensures
        0 <= last_line_start(text) <= last_line_end(text) <= text.len(),
        last_line_start(text) < text.len(),
        lines(text) == lines(text.take(last_line_start(text))).push(
            text.subrange(last_line_start(text), last_line_end(text)),
        ),
{
    lemma_line_start(text, last_line_end(text));
    reveal_with_fuel(line_start, 2);
}

/// The text is empty, or its last line is closed.
pub open spec fn is_complete(text: Seq<char>) -> bool {
    text.len() == 0 || text.last() == '\n'
}

proof fn lemma_line_start_behind(head: Seq<char>, tail: Seq<char>, k: int)
    requires
        is_complete(head),
        0 <= k <= tail.len(),
    ensures
        line_start(head + tail, head.len() + k) == head.len() + line_start(tail, k),
    decreases k,
{
    if k > 0 {
        assert((head + tail)[head.len() + k - 1] == tail[k - 1]);
        lemma_line_start_behind(head, tail, k - 1);
    } else if head.len() > 0 {
        assert((head + tail)[head.len() - 1] == head.last());
    }
}

/// Behind a closed line, a text can be cut in two: the lines of the whole are
/// those of the first part and then those of the second.
pub proof fn law_lines_of_parts(head: Seq<char>, tail: Seq<char>)
    requires
        is_complete(head),
    ensures
        lines(head + tail) == lines(head) + lines(tail),
    decreases tail.len(),
{
    let all = head + tail;
    if tail.len() == 0 {
        assert(all =~= head);
        assert(lines(head) + lines(tail) =~= lines(head));
    } else {
        assert(all.last() == tail.last());
        if tail.len() > 1 {
            assert(all[all.len() - 2] == tail[tail.len() - 2]);
        } else if head.len() > 0 {
            assert(all[all.len() - 2] == head.last());
        }
        assert(last_line_end(all) == head.len() + last_line_end(tail));
        lemma_last_line(tail);
        lemma_last_line(all);
        lemma_line_start_behind(head, tail, last_line_end(tail));
        let start = last_line_start(tail);
        assert(all.take(head.len() + start) =~= head + tail.take(start));
        assert(all.subrange(head.len() + start, last_line_end(all)) =~= tail.subrange(
            start,
            last_line_end(tail),
        ));
        law_lines_of_parts(head, tail.take(start));
        assert((lines(head) + lines(tail.take(start))).push(
            tail.subrange(start, last_line_end(tail)),
        ) =~= lines(head) + lines(tail));
    }
}

/// A text of one line has that line: closed or not, without the line feed that closes
/// it and the carriage return before that. A carriage return at the end of a line that is
/// not closed is part of it.
pub proof fn law_lines_of_one_line(line: Seq<char>)
    requires
        forall|i: int| 0 <= i < line.len() ==> line[i] != '\n',
    ensures
        lines(Seq::empty()) == Seq::<Seq<char>>::empty(),
        line.len() > 0 ==> lines(line) == seq![line],
        line.len() > 0 && line.last() == '\r' ==> lines(line.push('\n')) == seq![line.drop_last()],
        line.len() == 0 || line.last() != '\r' ==> lines(line.push('\n')) == seq![line],
{
    assert(lines(Seq::empty()) =~= Seq::empty());
    let closed = line.push('\n');
    lemma_last_line(closed);
    lemma_line_start(closed, last_line_end(closed));
    assert(last_line_start(closed) == 0);
    assert(closed.take(0) =~= Seq::empty());
    if line.len() > 0 {
        assert(closed[closed.len() - 2] == line.last());
        lemma_last_line(line);
        lemma_line_start(line, last_line_end(line));
        assert(last_line_start(line) == 0);
        assert(line.take(0) =~= Seq::empty());
        assert(line.subrange(0, line.len() as int) =~= line);
        assert(lines(line) =~= seq![line]);
    }
    if line.len() > 0 && line.last() == '\r' {
        assert(closed.subrange(0, line.len() - 1) =~= line.drop_last());
        assert(lines(closed) =~= seq![line.drop_last()]);
    } else {
        assert(closed.subrange(0, line.len() as int) =~= line);
        assert(lines(closed) =~= seq![line]);
    }
}

/// No line holds a line feed.
pub proof fn law_no_line_holds_a_line_feed(text: Seq<char>, i: int)
    requires
        0 <= i < lines(text).len(),
    ensures
        !lines(text)[i].contains('\n'),
    decreases text.len(),
{
    if text.len() > 0 {
        lemma_last_line(text);
        lemma_line_start(text, last_line_end(text));
        let rest = text.take(last_line_start(text));
        if i < lines(rest).len() {
            law_no_line_holds_a_line_feed(rest, i);
        }
    }
}

} // verus!
