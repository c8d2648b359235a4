//! Visual dimensions of rendered text.
//!
//! Rendered text carries terminal control sequences that colour it but take
//! no room on the screen. The functions here remove those sequences, split
//! what is left into lines, and report how wide and how tall the text is.

use vstd::prelude::*;

verus! {

/// The character that opens a control sequence.
pub const ESCAPE: char = '\u{1b}';

/// Width and height of a text as it shows on a terminal.
#[derive(Clone, Copy, Debug, PartialEq, Eq, Structural)]
pub struct Dimensions {
    /// Number of characters in the longest line.
    pub width: usize,
    /// Number of lines.
    pub height: usize,
}

/// A parameter character of a control sequence: an ASCII digit or `;`.
pub open spec fn is_parameter(c: char) -> bool {
    ('0' <= c && c <= '9') || c == ';'
}

/// The closing character of a control sequence: an ASCII letter of either case.
pub open spec fn is_final(c: char) -> bool {
    ('a' <= c && c <= 'z') || ('A' <= c && c <= 'Z')
}

/// The first index at or after `from` that holds no parameter character,
/// or the length of `s` when every character from `from` on is one.
pub open spec fn parameters_end(s: Seq<char>, from: int) -> int
    decreases s.len() - from,
{
    if 0 <= from < s.len() && is_parameter(s[from]) {
        parameters_end(s, from + 1)
    } else {
        from
    }
}

/// The length of the control sequence that starts at index `at` of `s`, or 0
/// when none starts there. A control sequence is `ESCAPE`, then `[`, then
/// any number of parameter characters, then one closing letter.
pub open spec fn sequence_len(s: Seq<char>, at: int) -> int {
    if 0 <= at && at + 1 < s.len() && s[at] == ESCAPE && s[at + 1] == '[' {
        let end = parameters_end(s, at + 2);
        if end < s.len() && is_final(s[end]) {
            end + 1 - at
        } else {
            0
        }
    } else {
        0
    }
}

/// What is left of `s` from index `at` on when its control sequences are
/// removed, reading from left to right.
pub open spec fn strip_from(s: Seq<char>, at: int) -> Seq<char>
    decreases s.len() - at,
{
    if at < 0 || at >= s.len() {
        Seq::empty()
    } else if sequence_len(s, at) > 0 {
        strip_from(s, at + sequence_len(s, at))
    } else {
        seq![s[at]] + strip_from(s, at + 1)
    }
}

/// The visual text of `s`: `s` without its control sequences.
pub open spec fn visual(s: Seq<char>) -> Seq<char> {
    strip_from(s, 0)
}

/// The lines of `s`: the pieces between its line feeds. A text without a
/// line feed is one line, and a text that ends in a line feed ends in an
/// empty line.
pub open spec fn lines(s: Seq<char>) -> Seq<Seq<char>>
    decreases s.len(),
{
    if s.len() == 0 {
        seq![Seq::<char>::empty()]
    } else {
        let before = lines(s.drop_last());
        if s.last() == '\n' {
            before.push(Seq::<char>::empty())
        } else {
            before.drop_last().push(before.last().push(s.last()))
        }
    }
}

/// The length of the longest of `ls`, 0 when there is none.
pub open spec fn widest(ls: Seq<Seq<char>>) -> nat
    decreases ls.len(),
{
    if ls.len() == 0 {
        0
    } else {
        let rest = widest(ls.drop_last());
        if ls.last().len() > rest {
            ls.last().len()
        } else {
            rest
        }
    }
}

/// The number of characters in the longest line of the visual text of `s`.
pub open spec fn visual_width(s: Seq<char>) -> nat {
    widest(lines(visual(s)))
}

/// The number of lines of the visual text of `s`.
pub open spec fn visual_height(s: Seq<char>) -> nat {
    lines(visual(s)).len()
}

/// The character sequences that the strings of `v` hold.
pub open spec fn texts(v: Seq<String>) -> Seq<Seq<char>> {
    v.map_values(|line: String| line@)
}

/// `String::push` appends one character to the string.
pub assume_specification[ String::push ](s: &mut String, ch: char)
    ensures
        final(s)@ == old(s)@.push(ch),
;

/// The characters of `text`, in order.
fn characters(text: &str) -> (chars: Vec<char>)
    ensures
        chars@ == text@,
{
    let mut chars: Vec<char> = Vec::new();
    for c in it: text.chars()
        invariant
            chars@ == it.seq().take(it.index() as int),
    {
        chars.push(c);
    }
    chars
}

fn parameter(c: char) -> (r: bool)
    ensures
        r == is_parameter(c),
{
    ('0' <= c && c <= '9') || c == ';'
}

fn closing(c: char) -> (r: bool)
    ensures
        r == is_final(c),
{
    ('a' <= c && c <= 'z') || ('A' <= c && c <= 'Z')
}

/// The length of the control sequence that starts at `at`, 0 when none does.
fn sequence_at(chars: &Vec<char>, at: usize) -> (len: usize)
    requires
        at < chars.len(),
    ensures
        len == sequence_len(chars@, at as int),
        at + len <= chars.len(),
{
    let n = chars.len();
    if chars[at] != ESCAPE || n - at < 2 || chars[at + 1] != '[' {
        return 0;
    }
    let mut end: usize = at + 2;
    while end < n && parameter(chars[end])
        invariant
            n == chars.len(),
            at + 2 <= end <= n,
            parameters_end(chars@, end as int) == parameters_end(chars@, at + 2),
        decreases n - end,
    {
        end = end + 1;
    }
    if end < n && closing(chars[end]) {
        end + 1 - at
    } else {
        0
    }
}

/// The visual text of `text`: `text` without its control sequences.
pub fn strip(text: &str) -> (stripped: String)
    ensures
        stripped@ == visual(text@),
{
    let chars = characters(text);
    let n = chars.len();
    let mut stripped = String::new();
    let mut at: usize = 0;
    while at < n
        invariant
            n == chars.len(),
            at <= n,
            stripped@ + strip_from(chars@, at as int) == visual(chars@),
        decreases n - at,
    {
        let len = sequence_at(&chars, at);
        if len > 0 {
            at = at + len;
        } else {
            proof {
                assert(stripped@.push(chars@[at as int]) + strip_from(chars@, at + 1)
                    =~= stripped@ + strip_from(chars@, at as int));
            }
            stripped.push(chars[at]);
            at = at + 1;
        }
    }
    stripped
}

/// The lines of `text`: the pieces between its line feeds.
pub fn split_lines(text: &str) -> (out: Vec<String>)
    ensures
        texts(out@) == lines(text@),
{
    let chars = characters(text);
    let n = chars.len();
    let mut out: Vec<String> = Vec::new();
    let mut current = String::new();
    let mut at: usize = 0;
    while at < n
        invariant
            n == chars.len(),
            at <= n,
            texts(out@).push(current@) == lines(chars@.take(at as int)),
        decreases n - at,
    {
        let c = chars[at];
        proof {
            let now = chars@.take(at + 1);
            assert(now.drop_last() =~= chars@.take(at as int));
            assert(texts(out@).push(current@).drop_last() =~= texts(out@));
            assert(texts(out@.push(current)) =~= texts(out@).push(current@));
        }
        if c == '\n' {
            out.push(current);
            current = String::new();
        } else {
            current.push(c);
        }
        at = at + 1;
    }
    proof {
        assert(chars@.take(n as int) =~= chars@);
        assert(texts(out@.push(current)) =~= texts(out@).push(current@));
    }
    out.push(current);
    out
}

/// The lines of the visual text of `text`.
pub fn visual_lines(text: &str) -> (out: Vec<String>)
    ensures
        texts(out@) == lines(visual(text@)),
{
    let stripped = strip(text);
    split_lines(stripped.as_str())
}

/// The visual dimensions of `text`: the length of the longest line and the
/// number of lines of its visual text. The control sequences count for
/// nothing in the width, and they leave the number of lines as it is.
pub fn measure(text: &str) -> (d: Dimensions)
    ensures
        d.width == visual_width(text@),
        d.height == visual_height(text@),
        d.height == lines(text@).len(),
{
    let ls = visual_lines(text);
    let mut width: usize = 0;
    let mut i: usize = 0;
    while i < ls.len()
        invariant
            i <= ls.len(),
            width == widest(texts(ls@).take(i as int)),
        decreases ls.len() - i,
    {
        let len = ls[i].as_str().unicode_len();
        proof {
            let now = texts(ls@).take(i + 1);
            assert(now.drop_last() =~= texts(ls@).take(i as int));
            assert(now.last() == ls@[i as int]@);
        }
        if len > width {
            width = len;
        }
        i = i + 1;
    }
    proof {
        assert(texts(ls@).take(ls.len() as int) =~= texts(ls@));
        lemma_strip_keeps_height(text@);
    }
    Dimensions { width, height: ls.len() }
}

/// The number of line feeds in `s`.
pub open spec fn line_feeds(s: Seq<char>) -> nat
    decreases s.len(),
{
    if s.len() == 0 {
        0
    } else if s.last() == '\n' {
        line_feeds(s.drop_last()) + 1
    } else {
        line_feeds(s.drop_last())
    }
}

/// A text has one line more than it has line feeds.
pub proof fn lemma_lines_count(s: Seq<char>)
    ensures
        lines(s).len() == line_feeds(s) + 1,
    decreases s.len(),
{
    if s.len() > 0 {
        lemma_lines_count(s.drop_last());
    }
}

proof fn lemma_line_feeds_concat(a: Seq<char>, b: Seq<char>)
    ensures
        line_feeds(a + b) == line_feeds(a) + line_feeds(b),
    decreases b.len(),
{
    if b.len() == 0 {
        assert(a + b =~= a);
    } else {
        assert((a + b).drop_last() =~= a + b.drop_last());
        lemma_line_feeds_concat(a, b.drop_last());
    }
}

proof fn lemma_parameters(s: Seq<char>, from: int, k: int)
    requires
        0 <= from <= k < parameters_end(s, from),
    ensures
        is_parameter(s[k]),
        parameters_end(s, from) <= s.len(),
    decreases s.len() - from,
{
    if from < s.len() && is_parameter(s[from]) {
        if from < k {
            lemma_parameters(s, from + 1, k);
        } else {
            lemma_parameters_bound(s, from);
        }
    }
}

proof fn lemma_parameters_bound(s: Seq<char>, from: int)
    requires
        0 <= from <= s.len(),
    ensures
        from <= parameters_end(s, from) <= s.len(),
    decreases s.len() - from,
{
    if from < s.len() && is_parameter(s[from]) {
        lemma_parameters_bound(s, from + 1);
    }
}

/// No line feed stands between index `from` and index `to` of `s`.
spec fn no_line_feed(s: Seq<char>, from: int, to: int) -> bool {
    forall|k: int| from <= k < to ==> s[k] != '\n'
}

proof fn lemma_no_line_feed(s: Seq<char>)
    requires
        no_line_feed(s, 0, s.len() as int),
    ensures
        line_feeds(s) == 0,
    decreases s.len(),
{
    if s.len() > 0 {
        lemma_no_line_feed(s.drop_last());
    }
}

proof fn lemma_sequence_shape(s: Seq<char>, at: int)
    requires
        sequence_len(s, at) > 0,
    ensures
        0 <= at,
        3 <= sequence_len(s, at),
        at + sequence_len(s, at) <= s.len(),
        s[at] == ESCAPE,
        no_line_feed(s, at, at + sequence_len(s, at)),
{
    lemma_parameters_bound(s, at + 2);
    let end = parameters_end(s, at + 2);
    assert forall|k: int| at <= k < at + sequence_len(s, at) implies s[k] != '\n' by {
        if at + 2 <= k < end {
            lemma_parameters(s, at + 2, k);
        }
    }
}

proof fn lemma_strip_line_feeds(s: Seq<char>, at: int)
    requires
        0 <= at <= s.len(),
    ensures
        line_feeds(strip_from(s, at)) == line_feeds(s.skip(at)),
    decreases s.len() - at,
{
    if at >= s.len() {
        assert(s.skip(at) =~= Seq::<char>::empty());
    } else if sequence_len(s, at) > 0 {
        let n = sequence_len(s, at);
        lemma_sequence_shape(s, at);
        lemma_strip_line_feeds(s, at + n);
        let head = s.subrange(at, at + n);
        assert(s.skip(at) =~= head + s.skip(at + n));
        lemma_line_feeds_concat(head, s.skip(at + n));
        assert(no_line_feed(head, 0, head.len() as int)) by {
            assert forall|k: int| 0 <= k < head.len() implies head[k] != '\n' by {
                assert(head[k] == s[at + k]);
            }
        }
        lemma_no_line_feed(head);
    } else {
        lemma_strip_line_feeds(s, at + 1);
        assert(s.skip(at) =~= seq![s[at]] + s.skip(at + 1));
        lemma_line_feeds_concat(seq![s[at]], s.skip(at + 1));
        lemma_line_feeds_concat(seq![s[at]], strip_from(s, at + 1));
    }
}

/// Removing the control sequences of a text keeps its number of lines: the
/// height of a text is the number of lines of the text as it was rendered.
pub proof fn lemma_strip_keeps_height(s: Seq<char>)
    ensures
        visual_height(s) == lines(s).len(),
        visual_height(s) == line_feeds(s) + 1,
{
    lemma_strip_line_feeds(s, 0);
    assert(s.skip(0) =~= s);
    lemma_lines_count(s);
    lemma_lines_count(visual(s));
}

/// From index `at` on, `s` is made of control sequences alone, one after
/// the other, with nothing between them.
pub open spec fn only_sequences(s: Seq<char>, at: int) -> bool
    decreases s.len() - at,
{
    if at < 0 || at >= s.len() {
        at == s.len()
    } else {
        sequence_len(s, at) > 0 && only_sequences(s, at + sequence_len(s, at))
    }
}

/// No control sequence starts anywhere in `s`.
pub open spec fn sequence_free(s: Seq<char>) -> bool {
    forall|i: int| 0 <= i < s.len() ==> sequence_len(s, i) == 0
}

proof fn lemma_only_sequences_from(s: Seq<char>, at: int)
    requires
        0 <= at <= s.len(),
    ensures
        only_sequences(s, at) <==> strip_from(s, at).len() == 0,
    decreases s.len() - at,
{
    if at < s.len() && sequence_len(s, at) > 0 {
        lemma_sequence_shape(s, at);
        lemma_only_sequences_from(s, at + sequence_len(s, at));
    }
}

/// A text shows nothing exactly when it is made of control sequences alone.
/// Such a text is 0 wide and one line high.
pub proof fn lemma_only_sequences(s: Seq<char>)
    ensures
        only_sequences(s, 0) <==> visual(s) == Seq::<char>::empty(),
        only_sequences(s, 0) ==> visual_width(s) == 0 && visual_height(s) == 1,
{
    lemma_only_sequences_from(s, 0);
    if only_sequences(s, 0) {
        assert(visual(s) =~= Seq::<char>::empty());
        let ls = lines(visual(s));
        assert(ls =~= seq![Seq::<char>::empty()]);
        assert(ls.drop_last() =~= Seq::<Seq<char>>::empty());
        assert(widest(ls.drop_last()) == 0);
    }
}

proof fn lemma_strip_len(s: Seq<char>, at: int)
    requires
        0 <= at <= s.len(),
    ensures
        strip_from(s, at).len() <= s.len() - at,
    decreases s.len() - at,
{
    if at < s.len() {
        if sequence_len(s, at) > 0 {
            lemma_sequence_shape(s, at);
            lemma_strip_len(s, at + sequence_len(s, at));
        } else {
            lemma_strip_len(s, at + 1);
        }
    }
}

proof fn lemma_strip_shrinks(s: Seq<char>, at: int, i: int)
    requires
        0 <= at <= i < s.len(),
        sequence_len(s, i) > 0,
    ensures
        strip_from(s, at).len() < s.len() - at,
    decreases s.len() - at,
{
    if sequence_len(s, at) > 0 {
        lemma_sequence_shape(s, at);
        lemma_strip_len(s, at + sequence_len(s, at));
    } else {
        lemma_strip_shrinks(s, at + 1, i);
    }
}

proof fn lemma_strip_free(s: Seq<char>, at: int)
    requires
        0 <= at <= s.len(),
        sequence_free(s),
    ensures
        strip_from(s, at) == s.skip(at),
    decreases s.len() - at,
{
    if at < s.len() {
        lemma_strip_free(s, at + 1);
        assert(seq![s[at]] + s.skip(at + 1) =~= s.skip(at));
    } else {
        assert(s.skip(at) =~= Seq::<char>::empty());
    }
}

/// Removing control sequences leaves a text as it is exactly when the text
/// holds none.
pub proof fn lemma_strip_fixed(s: Seq<char>)
    ensures
        visual(s) == s <==> sequence_free(s),
{
    if sequence_free(s) {
        lemma_strip_free(s, 0);
        assert(s.skip(0) =~= s);
    } else {
        let i = choose|i: int| 0 <= i < s.len() && sequence_len(s, i) != 0;
        if i + 1 < s.len() {
            lemma_parameters_bound(s, i + 2);
        }
        lemma_strip_shrinks(s, 0, i);
    }
}

/// A second removal changes nothing exactly when the first leaves no control
/// sequence behind, and then the dimensions stay as they are. The height
/// stays in any case.
pub proof fn lemma_strip_twice(s: Seq<char>)
    ensures
        visual(visual(s)) == visual(s) <==> sequence_free(visual(s)),
        sequence_free(visual(s)) ==> visual_width(visual(s)) == visual_width(s),
        visual_height(visual(s)) == visual_height(s),
{
    lemma_strip_fixed(visual(s));
    lemma_strip_keeps_height(visual(s));
}

/// The text that holds `ls` as its lines: the lines with a line feed
/// between each two.
pub open spec fn joined(ls: Seq<Seq<char>>) -> Seq<char>
    decreases ls.len(),
{
    if ls.len() == 0 {
        Seq::empty()
    } else if ls.len() == 1 {
        ls[0]
    } else {
        joined(ls.drop_last()) + seq!['\n'] + ls.last()
    }
}

/// The lines of a text are what the text is made of: there is at least one,
/// none holds a line feed, and putting line feeds between them gives the
/// text back.
pub proof fn lemma_lines_join(s: Seq<char>)
    ensures
        lines(s).len() >= 1,
        forall|i: int, k: int|
            0 <= i < lines(s).len() && 0 <= k < lines(s)[i].len() ==> lines(s)[i][k] != '\n',
        joined(lines(s)) == s,
    decreases s.len(),
{
    if s.len() == 0 {
        assert(joined(lines(s)) =~= s);
    } else {
        let before = lines(s.drop_last());
        lemma_lines_join(s.drop_last());
        if s.last() == '\n' {
            let now = before.push(Seq::<char>::empty());
            assert(now.drop_last() =~= before);
            assert(joined(now) =~= s);
        } else {
            let line = before.last().push(s.last());
            let now = before.drop_last().push(line);
            assert(now.drop_last() =~= before.drop_last());
            if before.len() == 1 {
                assert(joined(now) =~= s);
            } else {
                assert(joined(now) =~= joined(before).push(s.last()));
                assert(joined(now) =~= s);
            }
            assert forall|i: int, k: int| 0 <= i < now.len() && 0 <= k < now[i].len() implies now[i][k]
                != '\n' by {
                if i < now.len() - 1 {
                    assert(now[i] == before[i]);
                } else if k < before.last().len() {
                    assert(now[i][k] == before[before.len() - 1][k]);
                }
            }
        }
    }
}

/// The widest of some lines is as long as the longest of them: no line is
/// longer, and where there is a line, one is exactly that long.
pub proof fn lemma_widest(ls: Seq<Seq<char>>)
    ensures
        forall|i: int| 0 <= i < ls.len() ==> (#[trigger] ls[i]).len() <= widest(ls),
        ls.len() > 0 ==> exists|i: int| 0 <= i < ls.len() && (#[trigger] ls[i]).len() == widest(ls),
    decreases ls.len(),
{
    if ls.len() > 0 {
        let rest = ls.drop_last();
        lemma_widest(rest);
        assert forall|i: int| 0 <= i < ls.len() implies (#[trigger] ls[i]).len() <= widest(ls) by {
            if i < rest.len() {
                assert(rest[i] == ls[i]);
            }
        }
        if ls.last().len() > widest(rest) || rest.len() == 0 {
            assert(ls[ls.len() - 1].len() == widest(ls));
        } else {
            let i = choose|i: int| 0 <= i < rest.len() && (#[trigger] rest[i]).len() == widest(rest);
            assert(ls[i] == rest[i]);
        }
    }
}

} // verus!
