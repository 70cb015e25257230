//! Cleaning tool output before it is handed to the agent: terminal escape
//! sequences go, trailing white space goes, runs of blank lines shrink.

use vstd::prelude::*;

verus! {

/// A terminal control sequence: ESC, `[`, parameters, a final letter.
pub const ANSI_ESCAPE_PATTERN: &'static str = "\\x1b\\[[0-9;]*[a-zA-Z]";

/// Three or more line breaks in a row.
pub const BLANK_RUN_PATTERN: &'static str = "\\n{3,}";

/// What compiling `pattern` with the `regex` crate and replacing every match
/// in `haystack` by `replacement` gives: `None` when the pattern does not
/// compile.
pub uninterp spec fn regex_replacement(
    pattern: Seq<char>,
    haystack: Seq<char>,
    replacement: Seq<char>,
) -> Option<Seq<char>>;

/// A parameter character of a control sequence: an ASCII digit or `;`.
pub open spec fn is_sequence_parameter(c: char) -> bool {
    (48 <= c as u32 <= 57) || c == ';'
}

/// An ASCII letter.
pub open spec fn is_ascii_letter(c: char) -> bool {
    (65 <= c as u32 <= 90) || (97 <= c as u32 <= 122)
}

/// How many parameter characters `s` starts with.
pub open spec fn parameter_run(s: Seq<char>) -> nat
    decreases s.len(),
{
    if s.len() > 0 && is_sequence_parameter(s[0]) {
        1 + parameter_run(s.drop_first())
    } else {
        0
    }
}

/// The length of the control sequence that `s` starts with (ESC, `[`,
/// parameters, one ASCII letter), if it starts with one.
pub open spec fn escape_sequence_len(s: Seq<char>) -> Option<nat> {
    if s.len() >= 2 && s[0] as u32 == 0x1b && s[1] == '[' {
        let k = parameter_run(s.skip(2));
        if 2 + k < s.len() && is_ascii_letter(s[2 + k as int]) {
            Some(3 + k)
        } else {
            None
        }
    } else {
        None
    }
}

/// `s` with every control sequence removed, scanning from the left as the
/// regex `ANSI_ESCAPE_PATTERN` does: at each position, a sequence that
/// starts there is dropped, otherwise the character is kept.
pub open spec fn without_escape_sequences(s: Seq<char>) -> Seq<char>
    decreases s.len(),
{
    if s.len() == 0 {
        s
    } else {
        match escape_sequence_len(s) {
            Some(n) => without_escape_sequences(s.skip(n as int)),
            None => seq![s[0]] + without_escape_sequences(s.drop_first()),
        }
    }
}

/// How many line breaks `s` starts with.
pub open spec fn newline_run(s: Seq<char>) -> nat
    decreases s.len(),
{
    if s.len() > 0 && s[0] == '\n' {
        1 + newline_run(s.drop_first())
    } else {
        0
    }
}

/// A run of line breaks lies within `s` and ends at a character that is not one.
pub proof fn lemma_newline_run_bound(s: Seq<char>)
    ensures
        newline_run(s) <= s.len(),
        forall|i: int| 0 <= i < newline_run(s) ==> s[i] == '\n',
        newline_run(s) < s.len() ==> s[newline_run(s) as int] != '\n',
    decreases s.len(),
{
    if s.len() > 0 && s[0] == '\n' {
        lemma_newline_run_bound(s.drop_first());
        assert forall|i: int| 0 <= i < newline_run(s) implies s[i] == '\n' by {
            if i > 0 {
                assert(s[i] == s.drop_first()[i - 1]);
            }
        }
    }
}

/// `s` with each run of three or more line breaks shortened to two, as
/// replacing the regex `BLANK_RUN_PATTERN` by two line breaks does.
pub open spec fn with_short_blank_runs(s: Seq<char>) -> Seq<char>
    decreases s.len(),
{
    if s.len() == 0 {
        s
    } else if newline_run(s) >= 3 {
        proof {
            lemma_newline_run_bound(s);
        }
        seq!['\n', '\n'] + with_short_blank_runs(s.skip(newline_run(s) as int))
    } else {
        seq![s[0]] + with_short_blank_runs(s.drop_first())
    }
}

/// Calls `regex::Regex::new(pattern)` and, on success,
/// `Regex::replace_all(haystack, replacement)`. Claims that the result is a
/// function of the three strings (named `regex_replacement`) and, for the two
/// patterns this crate uses, what the regex syntax and `replace_all`'s
/// leftmost-first, non-overlapping, greedy matching document: both patterns
/// compile; `ANSI_ESCAPE_PATTERN` replaced by nothing removes every control
/// sequence; `BLANK_RUN_PATTERN` replaced by two line breaks shortens every
/// run of three or more line breaks. For other patterns the text is left
/// unsaid.
#[verifier::external_body]
fn regex_replace_all(pattern: &str, haystack: &str, replacement: &str) -> (r: Option<String>)
    ensures
        r.deep_view() == regex_replacement(pattern@, haystack@, replacement@),
        (pattern@ == ANSI_ESCAPE_PATTERN@ && replacement@ == ""@) ==> r.deep_view() == Some(
            without_escape_sequences(haystack@),
        ),
        (pattern@ == BLANK_RUN_PATTERN@ && replacement@ == "\n\n"@) ==> r.deep_view() == Some(
            with_short_blank_runs(haystack@),
        ),
{
    match regex::Regex::new(pattern) {
        Ok(re) => Some(re.replace_all(haystack, replacement).into_owned()),
        Err(_) => None,
    }
}

/// The characters of `s`, in order.
pub(crate) fn chars_of(s: &str) -> (r: Vec<char>)
    ensures
        r@ == s@,
{
    broadcast use vstd::string::group_string_axioms;

    let mut v: Vec<char> = Vec::new();
    for c in it: s.chars()
        invariant
            it.seq() == s@,
            v@ == s@.take(it.index() as int),
    {
        assert(s@.take(it.index() + 1) =~= v@.push(c));
        v.push(c);
    }
    assert(s@.take(s@.len() as int) =~= s@);
    v
}

/// The string made of `chars` (std's `FromIterator<&char>` for `String`).
#[verifier::external_body]
pub(crate) fn string_from_chars(chars: &Vec<char>) -> (r: String)
    ensures
        r@ == chars@,
{
    chars.iter().collect()
}

/// Unicode's `White_Space` property, which std's `char::is_whitespace` tests.
pub open spec fn is_white_space(c: char) -> bool {
    let u = c as u32;
    ||| 0x09 <= u <= 0x0d
    ||| u == 0x20
    ||| u == 0x85
    ||| u == 0xa0
    ||| u == 0x1680
    ||| 0x2000 <= u <= 0x200a
    ||| u == 0x2028
    ||| u == 0x2029
    ||| u == 0x202f
    ||| u == 0x205f
    ||| u == 0x3000
}

/// Whether `c` is white space.
pub fn is_white_space_char(c: char) -> (r: bool)
    ensures
        r == is_white_space(c),
{
    let u = c as u32;
    (0x09 <= u && u <= 0x0d) || u == 0x20 || u == 0x85 || u == 0xa0 || u == 0x1680 || (0x2000
        <= u && u <= 0x200a) || u == 0x2028 || u == 0x2029 || u == 0x202f || u == 0x205f || u
        == 0x3000
}

/// `s` without its trailing white space (std's `str::trim_end`).
pub open spec fn trim_end(s: Seq<char>) -> Seq<char>
    decreases s.len(),
{
    if s.len() > 0 && is_white_space(s.last()) {
        trim_end(s.drop_last())
    } else {
        s
    }
}

/// The pieces of `s` between line breaks: one more than there are breaks.
pub open spec fn newline_pieces(s: Seq<char>) -> Seq<Seq<char>>
    decreases s.len(),
{
    if s.len() == 0 {
        seq![Seq::empty()]
    } else {
        let prev = newline_pieces(s.drop_last());
        if s.last() == '\n' {
            prev.push(Seq::empty())
        } else {
            prev.update(prev.len() - 1, prev.last().push(s.last()))
        }
    }
}

/// The lines of `s` as std's `str::lines` yields them, up to a carriage
/// return before each break (which `trim_end` removes in any case): the
/// pieces between breaks, without the empty piece after a final break.
pub open spec fn text_lines(s: Seq<char>) -> Seq<Seq<char>> {
    let p = newline_pieces(s);
    if p.last().len() == 0 {
        p.drop_last()
    } else {
        p
    }
}

/// The lines joined with a line break between each two.
pub open spec fn join_lines(lines: Seq<Seq<char>>) -> Seq<char>
    decreases lines.len(),
{
    if lines.len() == 0 {
        Seq::empty()
    } else if lines.len() == 1 {
        lines[0]
    } else {
        join_lines(lines.drop_last()) + seq!['\n'] + lines.last()
    }
}

/// The lines of `s`, each without trailing white space, joined by line breaks.
pub open spec fn trimmed_lines(s: Seq<char>) -> Seq<char> {
    join_lines(text_lines(s).map_values(|l: Seq<char>| trim_end(l)))
}

/// What `sanitize` gives: escape sequences removed, lines trimmed at the end,
/// runs of three or more line breaks shortened to two.
pub open spec fn sanitized(input: Seq<char>) -> Seq<char> {
    with_short_blank_runs(trimmed_lines(without_escape_sequences(input)))
}

proof fn lemma_pieces_not_empty(s: Seq<char>)
    ensures
        newline_pieces(s).len() >= 1,
    decreases s.len(),
{
    if s.len() > 0 {
        lemma_pieces_not_empty(s.drop_last());
    }
}

/// How many leading characters of `line` remain after trimming its end.
fn trimmed_len(line: &Vec<char>) -> (k: usize)
    ensures
        k <= line.len(),
        line@.take(k as int) == trim_end(line@),
{
    let mut k = line.len();
    assert(line@.take(k as int) =~= line@);
    while k > 0 && is_white_space_char(line[k - 1])
        invariant
            k <= line.len(),
            trim_end(line@.take(k as int)) == trim_end(line@),
        decreases k,
    {
        assert(line@.take(k as int).drop_last() =~= line@.take(k - 1));
        k = k - 1;
    }
    k
}

/// `s` without its trailing white space, as std's `str::trim_end` gives it.
pub fn trim_end_of(s: &str) -> (r: String)
    ensures
        r@ == trim_end(s@),
{
    let chars = chars_of(s);
    let k = trimmed_len(&chars);
    let mut kept: Vec<char> = Vec::new();
    let mut j: usize = 0;
    while j < k
        invariant
            j <= k <= chars.len(),
            kept@ == chars@.take(j as int),
        decreases k - j,
    {
        kept.push(chars[j]);
        assert(chars@.take(j + 1) =~= chars@.take(j as int).push(chars@[j as int]));
        j = j + 1;
    }
    string_from_chars(&kept)
}

/// Appends `line` without its trailing white space to `out`, after a line
/// break unless it is the first line.
fn push_trimmed_line(out: &mut Vec<char>, line: &Vec<char>, first: bool)
    ensures
        final(out)@ == if first {
            old(out)@ + trim_end(line@)
        } else {
            old(out)@ + seq!['\n'] + trim_end(line@)
        },
{
    let ghost start = old(out)@;
    if !first {
        out.push('\n');
    }
    let ghost base = out@;
    let k = trimmed_len(line);
    let mut j: usize = 0;
    while j < k
        invariant
            j <= k <= line.len(),
            out@ == base + line@.take(j as int),
        decreases k - j,
    {
        out.push(line[j]);
        assert(line@.take(j + 1) =~= line@.take(j as int).push(line@[j as int]));
        j = j + 1;
    }
}

/// Removes the trailing white space of every line of `text`, as
/// `text.lines().map(str::trim_end).collect::<Vec<_>>().join("\n")` does.
pub fn trim_line_ends(text: &str) -> (r: String)
    ensures
        r@ == trimmed_lines(text@),
{
    let chars = chars_of(text);
    let mut out: Vec<char> = Vec::new();
    let mut cur: Vec<char> = Vec::new();
    let mut first = true;
    let ghost mut done: Seq<Seq<char>> = Seq::empty();
    let mut i: usize = 0;
    assert(chars@.take(0) =~= Seq::<char>::empty());
    assert(done.map_values(|l: Seq<char>| trim_end(l)) =~= Seq::<Seq<char>>::empty());
    while i < chars.len()
        invariant
            i <= chars.len(),
            newline_pieces(chars@.take(i as int)) == done.push(cur@),
            first == (done.len() == 0),
            out@ == join_lines(done.map_values(|l: Seq<char>| trim_end(l))),
        decreases chars.len() - i,
    {
        let c = chars[i];
        assert(chars@.take(i + 1).drop_last() =~= chars@.take(i as int));
        if c == '\n' {
            push_trimmed_line(&mut out, &cur, first);
            proof {
                let f = |l: Seq<char>| trim_end(l);
                assert(done.push(cur@).map_values(f) =~= done.map_values(f).push(trim_end(cur@)));
                assert(done.push(cur@).map_values(f).drop_last() =~= done.map_values(f));
                done = done.push(cur@);
            }
            cur = Vec::new();
            first = false;
            assert(newline_pieces(chars@.take(i + 1)) =~= done.push(cur@));
        } else {
            cur.push(c);
            assert(newline_pieces(chars@.take(i + 1)) =~= done.push(cur@));
        }
        i = i + 1;
    }
    assert(chars@.take(chars.len() as int) =~= chars@);
    if cur.len() > 0 {
        push_trimmed_line(&mut out, &cur, first);
        proof {
            let f = |l: Seq<char>| trim_end(l);
            assert(done.push(cur@).map_values(f) =~= done.map_values(f).push(trim_end(cur@)));
            assert(done.push(cur@).map_values(f).drop_last() =~= done.map_values(f));
        }
    } else {
        assert(done.push(cur@).drop_last() =~= done);
    }
    string_from_chars(&out)
}

/// Cleans tool output: removes terminal escape sequences, removes trailing
/// white space from every line, and shortens each run of three or more line
/// breaks to two.
pub fn sanitize(input: &str) -> (r: String)
    ensures
        r@ == sanitized(input@),
{
    let stripped = regex_replace_all(ANSI_ESCAPE_PATTERN, input, "").unwrap();
    let trimmed = trim_line_ends(stripped.as_str());
    regex_replace_all(BLANK_RUN_PATTERN, trimmed.as_str(), "\n\n").unwrap()
}

/// Every white space character of `t` other than a line break is followed
/// by a character that is not a line break: no line of `t` ends in white
/// space.
pub open spec fn no_trailing_white_space(t: Seq<char>) -> bool {
    forall|i: int|
        0 <= i < t.len() && is_white_space(#[trigger] t[i]) && t[i] != '\n' ==> (i + 1 < t.len()
            && t[i + 1] != '\n')
}

/// A line as `trim_end` leaves it: no line break in it, no white space at
/// its end.
pub open spec fn clean_line(l: Seq<char>) -> bool {
    &&& !l.contains('\n')
    &&& (l.len() == 0 || !is_white_space(l.last()))
}

/// `trim_end` keeps a prefix and leaves no white space at the end.
proof fn lemma_trim_end_prefix(s: Seq<char>)
    ensures
        trim_end(s).len() <= s.len(),
        trim_end(s) == s.take(trim_end(s).len() as int),
        trim_end(s).len() == 0 || !is_white_space(trim_end(s).last()),
    decreases s.len(),
{
    if s.len() > 0 && is_white_space(s.last()) {
        lemma_trim_end_prefix(s.drop_last());
        assert(s.drop_last().take(trim_end(s).len() as int) =~= s.take(trim_end(s).len() as int));
    } else {
        assert(s.take(s.len() as int) =~= s);
    }
}

/// No piece between line breaks holds a line break.
proof fn lemma_pieces_have_no_break(s: Seq<char>)
    ensures
        forall|k: int| 0 <= k < newline_pieces(s).len() ==> !(#[trigger] newline_pieces(s)[k]).contains('\n'),
    decreases s.len(),
{
    lemma_pieces_not_empty(s);
    if s.len() > 0 {
        lemma_pieces_have_no_break(s.drop_last());
        lemma_pieces_not_empty(s.drop_last());
        let prev = newline_pieces(s.drop_last());
        if s.last() != '\n' {
            let l = prev.last().push(s.last());
            assert(!l.contains('\n')) by {
                assert(!prev[prev.len() - 1].contains('\n'));
                if l.contains('\n') {
                    let j = choose|j: int| 0 <= j < l.len() && l[j] == '\n';
                    assert(prev.last()[j] == '\n');
                }
            }
        }
        assert forall|k: int| 0 <= k < newline_pieces(s).len() implies !(
        #[trigger] newline_pieces(s)[k]).contains('\n') by {
            if s.last() == '\n' {
                if k < prev.len() {
                    assert(newline_pieces(s)[k] == prev[k]);
                } else {
                    assert(newline_pieces(s)[k] =~= Seq::<char>::empty());
                }
            } else {
                if k < prev.len() - 1 {
                    assert(newline_pieces(s)[k] == prev[k]);
                }
            }
        }
    }
}

/// Lines free of breaks and of trailing white space, joined, leave no line
/// ending in white space.
proof fn lemma_join_clean(ls: Seq<Seq<char>>)
    requires
        forall|k: int| 0 <= k < ls.len() ==> clean_line(#[trigger] ls[k]),
    ensures
        no_trailing_white_space(join_lines(ls)),
    decreases ls.len(),
{
    if ls.len() == 1 {
        let l = ls[0];
        assert(clean_line(l));
        assert forall|i: int|
            0 <= i < l.len() && is_white_space(#[trigger] l[i]) && l[i] != '\n' implies (i + 1
            < l.len() && l[i + 1] != '\n') by {
            if i + 1 < l.len() {
                if l[i + 1] == '\n' {
                    assert(l.contains('\n'));
                }
            }
        }
    } else if ls.len() > 1 {
        let front = ls.drop_last();
        let l = ls.last();
        lemma_join_clean(front);
        assert(clean_line(ls[ls.len() - 1]));
        let j = join_lines(front);
        let t = join_lines(ls);
        assert(t == j + seq!['\n'] + l);
        assert forall|i: int|
            0 <= i < t.len() && is_white_space(#[trigger] t[i]) && t[i] != '\n' implies (i + 1
            < t.len() && t[i + 1] != '\n') by {
            if i < j.len() {
                assert(t[i] == j[i]);
                assert(i + 1 < j.len() && j[i + 1] != '\n');
                assert(t[i + 1] == j[i + 1]);
            } else if i > j.len() {
                let k = i - j.len() - 1;
                assert(t[i] == l[k]);
                if k + 1 < l.len() {
                    assert(t[i + 1] == l[k + 1]);
                    if l[k + 1] == '\n' {
                        assert(l.contains('\n'));
                    }
                }
            }
        }
    }
}

/// No line of the text `trim_line_ends` gives ends in white space.
pub proof fn lemma_trimmed_lines_have_no_trailing_white_space(s: Seq<char>)
    ensures
        no_trailing_white_space(trimmed_lines(s)),
{
    let p = newline_pieces(s);
    lemma_pieces_not_empty(s);
    lemma_pieces_have_no_break(s);
    let lines = text_lines(s);
    let f = |l: Seq<char>| trim_end(l);
    let ls = lines.map_values(f);
    assert forall|k: int| 0 <= k < ls.len() implies clean_line(#[trigger] ls[k]) by {
        assert(lines[k] == p[k]);
        assert(!p[k].contains('\n'));
        lemma_trim_end_prefix(lines[k]);
        let t = trim_end(lines[k]);
        assert(ls[k] == t);
        if t.contains('\n') {
            let j = choose|j: int| 0 <= j < t.len() && t[j] == '\n';
            assert(lines[k][j] == '\n');
        }
    }
    lemma_join_clean(ls);
}

/// No control sequence introducer (ESC followed by `[`) occurs in `t`.
pub open spec fn no_sequence_start(t: Seq<char>) -> bool {
    forall|i: int| 0 <= i < t.len() - 1 ==> !((#[trigger] t[i]) as u32 == 0x1b && t[i + 1] == '[')
}

/// No three line breaks follow one another in `t`.
pub open spec fn no_blank_run(t: Seq<char>) -> bool {
    forall|i: int| 0 <= i < t.len() - 2 ==> !((#[trigger] t[i]) == '\n' && t[i + 1] == '\n' && t[i + 2] == '\n')
}

/// Text that `sanitize` has nothing to do to: no control sequence, no line
/// ending in white space, no run of three line breaks, no final line break.
pub open spec fn is_clean(t: Seq<char>) -> bool {
    &&& no_sequence_start(t)
    &&& no_trailing_white_space(t)
    &&& no_blank_run(t)
    &&& (t.len() == 0 || t.last() != '\n')
}

proof fn lemma_no_sequences_unchanged(t: Seq<char>)
    requires
        no_sequence_start(t),
    ensures
        without_escape_sequences(t) == t,
    decreases t.len(),
{
    if t.len() > 0 {
        if t.len() >= 2 {
            assert(!(t[0] as u32 == 0x1b && t[1] == '['));
        }
        let rest = t.drop_first();
        assert forall|i: int| 0 <= i < rest.len() - 1 implies !((#[trigger] rest[i]) as u32 == 0x1b
            && rest[i + 1] == '[') by {
            assert(rest[i] == t[i + 1] && rest[i + 1] == t[i + 2]);
        }
        lemma_no_sequences_unchanged(rest);
        assert(t =~= seq![t[0]] + rest);
    }
}

proof fn lemma_no_blank_run_unchanged(t: Seq<char>)
    requires
        no_blank_run(t),
    ensures
        with_short_blank_runs(t) == t,
    decreases t.len(),
{
    if t.len() > 0 {
        lemma_newline_run_bound(t);
        if newline_run(t) >= 3 {
            assert(t[0] == '\n' && t[1] == '\n' && t[2] == '\n');
        }
        let rest = t.drop_first();
        assert forall|i: int| 0 <= i < rest.len() - 2 implies !((#[trigger] rest[i]) == '\n' && rest[i
            + 1] == '\n' && rest[i + 2] == '\n') by {
            assert(rest[i] == t[i + 1] && rest[i + 1] == t[i + 2] && rest[i + 2] == t[i + 3]);
        }
        lemma_no_blank_run_unchanged(rest);
        assert(t =~= seq![t[0]] + rest);
    }
}

/// Splitting at line breaks and joining again gives the text back.
proof fn lemma_join_pieces(s: Seq<char>)
    ensures
        join_lines(newline_pieces(s)) == s,
        newline_pieces(s).last().len() == 0 <==> (s.len() == 0 || s.last() == '\n'),
        newline_pieces(s).last().len() > 0 ==> newline_pieces(s).last().last() == s.last(),
    decreases s.len(),
{
    lemma_pieces_not_empty(s);
    if s.len() > 0 {
        let u = s.drop_last();
        let c = s.last();
        lemma_join_pieces(u);
        lemma_pieces_not_empty(u);
        let p = newline_pieces(u);
        if c == '\n' {
            let q = p.push(Seq::empty());
            assert(q.drop_last() =~= p);
            assert(join_lines(q) =~= u + seq!['\n']);
            assert(s =~= u + seq!['\n']);
        } else {
            let l = p.last().push(c);
            let q = p.update(p.len() - 1, l);
            assert(q.last() == l);
            if p.len() == 1 {
                assert(join_lines(q) == l);
                assert(join_lines(p) == p.last());
            } else {
                assert(q.drop_last() =~= p.drop_last());
                assert(join_lines(q) == join_lines(p.drop_last()) + seq!['\n'] + l);
                assert(join_lines(p) == join_lines(p.drop_last()) + seq!['\n'] + p.last());
            }
            assert(s =~= u.push(c));
            assert(join_lines(q) =~= s);
        }
    }
}

/// In a text whose lines do not end in white space, every piece but the
/// last one of each prefix is left alone by `trim_end`.
proof fn lemma_prefix_pieces_trimmed(s: Seq<char>, n: int)
    requires
        no_trailing_white_space(s),
        0 <= n <= s.len(),
    ensures
        forall|k: int|
            0 <= k < newline_pieces(s.take(n)).len() - 1 ==> trim_end(
                #[trigger] newline_pieces(s.take(n))[k],
            ) == newline_pieces(s.take(n))[k],
    decreases n,
{
    let u = s.take(n);
    lemma_pieces_not_empty(u);
    if n > 0 {
        lemma_prefix_pieces_trimmed(s, n - 1);
        let v = s.take(n - 1);
        assert(u.drop_last() =~= v);
        assert(u.last() == s[n - 1]);
        lemma_pieces_not_empty(v);
        lemma_join_pieces(v);
        let p = newline_pieces(v);
        if s[n - 1] == '\n' {
            let l = p.last();
            if l.len() > 0 {
                assert(l.last() == v.last());
                assert(v.last() == s[n - 2]);
                assert(s[n - 2] != '\n');
                assert(!is_white_space(l.last()));
            }
            assert(trim_end(l) == l);
            assert forall|k: int| 0 <= k < newline_pieces(u).len() - 1 implies trim_end(
                #[trigger] newline_pieces(u)[k],
            ) == newline_pieces(u)[k] by {
                if k < p.len() - 1 {
                    assert(newline_pieces(u)[k] == p[k]);
                } else {
                    assert(newline_pieces(u)[k] == l);
                }
            }
        } else {
            assert forall|k: int| 0 <= k < newline_pieces(u).len() - 1 implies trim_end(
                #[trigger] newline_pieces(u)[k],
            ) == newline_pieces(u)[k] by {
                assert(newline_pieces(u)[k] == p[k]);
            }
        }
    }
}

/// Text whose lines end in no white space and that does not end in a line
/// break comes through `trim_line_ends` unchanged.
proof fn lemma_trimmed_lines_unchanged(t: Seq<char>)
    requires
        no_trailing_white_space(t),
        t.len() == 0 || t.last() != '\n',
    ensures
        trimmed_lines(t) == t,
{
    let p = newline_pieces(t);
    lemma_pieces_not_empty(t);
    lemma_join_pieces(t);
    if t.len() == 0 {
        assert(text_lines(t) =~= Seq::<Seq<char>>::empty());
        assert(text_lines(t).map_values(|l: Seq<char>| trim_end(l)) =~= Seq::<Seq<char>>::empty());
    } else {
        lemma_prefix_pieces_trimmed(t, t.len() as int);
        assert(t.take(t.len() as int) =~= t);
        let l = p.last();
        assert(l.len() > 0);
        assert(l.last() == t.last());
        assert(!is_white_space(t.last())) by {
            let i = t.len() - 1;
            if is_white_space(t[i]) && t[i] != '\n' {
                assert(i + 1 < t.len());
            }
        }
        assert(text_lines(t) == p);
        assert(p.map_values(|x: Seq<char>| trim_end(x)) =~= p) by {
            assert forall|k: int| 0 <= k < p.len() implies trim_end(#[trigger] p[k]) == p[k] by {
                if k == p.len() - 1 {
                    assert(trim_end(l) == l);
                }
            }
        }
    }
}

/// Clean text comes through `sanitize` unchanged.
pub proof fn lemma_clean_text_unchanged(t: Seq<char>)
    requires
        is_clean(t),
    ensures
        sanitized(t) == t,
{
    lemma_no_sequences_unchanged(t);
    lemma_trimmed_lines_unchanged(t);
    lemma_no_blank_run_unchanged(t);
}

/// Two leading line breaks make a run of at least two.
proof fn lemma_newline_run_two(s: Seq<char>)
    ensures
        (s.len() >= 2 && s[0] == '\n' && s[1] == '\n') <==> newline_run(s) >= 2,
{
    reveal_with_fuel(newline_run, 3);
    if s.len() >= 1 && s[0] == '\n' {
        assert(s.drop_first().len() >= 1 ==> s.drop_first()[0] == s[1]);
    }
}

/// Shortening keeps the run of line breaks at the start when it is shorter
/// than three, and leaves at most two.
proof fn lemma_short_runs_start(x: Seq<char>)
    ensures
        newline_run(with_short_blank_runs(x)) == if newline_run(x) >= 3 {
            2
        } else {
            newline_run(x)
        },
        x.len() > 0 && x[0] != '\n' ==> with_short_blank_runs(x).len() > 0 && with_short_blank_runs(x)[0] == x[0],
    decreases x.len(),
{
    lemma_newline_run_bound(x);
    if x.len() > 0 {
        let k = newline_run(x);
        if k >= 3 {
            let rest = x.skip(k as int);
            lemma_newline_run_bound(rest);
            lemma_short_runs_start(rest);
            if rest.len() > 0 {
                assert(rest[0] == x[k as int]);
            }
            let y = with_short_blank_runs(rest);
            let out = seq!['\n', '\n'] + y;
            assert(out.drop_first() =~= seq!['\n'] + y);
            assert((seq!['\n'] + y).drop_first() =~= y);
            assert(newline_run(y) == 0);
            reveal_with_fuel(newline_run, 3);
            assert(newline_run(seq!['\n'] + y) == 1);
            assert(newline_run(out) == 2);
        } else {
            let rest = x.drop_first();
            lemma_short_runs_start(rest);
            let y = with_short_blank_runs(rest);
            let out = seq![x[0]] + y;
            assert(out.drop_first() =~= y);
            if x[0] == '\n' {
                assert(newline_run(rest) == k - 1);
            }
        }
    }
}

/// After shortening, no three line breaks follow one another, and lines
/// that ended in no white space still end in none.
pub proof fn lemma_short_runs_result(x: Seq<char>)
    ensures
        no_blank_run(with_short_blank_runs(x)),
        no_trailing_white_space(x) ==> no_trailing_white_space(with_short_blank_runs(x)),
    decreases x.len(),
{
    lemma_newline_run_bound(x);
    if x.len() > 0 {
        let k = newline_run(x);
        if k >= 3 {
            let rest = x.skip(k as int);
            lemma_short_runs_result(rest);
            lemma_newline_run_bound(rest);
            lemma_short_runs_start(rest);
            if rest.len() > 0 {
                assert(rest[0] == x[k as int]);
            }
            let y = with_short_blank_runs(rest);
            let out = seq!['\n', '\n'] + y;
            assert(newline_run(y) == 0);
            lemma_newline_run_two(y);
            assert(y.len() > 0 ==> y[0] != '\n');
            assert forall|i: int| 0 <= i < out.len() - 2 implies !((#[trigger] out[i]) == '\n'
                && out[i + 1] == '\n' && out[i + 2] == '\n') by {
                if i >= 2 {
                    assert(out[i] == y[i - 2] && out[i + 1] == y[i - 1] && out[i + 2] == y[i]);
                } else if i == 1 {
                    assert(out[i + 1] == y[0]);
                } else {
                    assert(out[i + 2] == y[0]);
                }
            }
            if no_trailing_white_space(x) {
                assert forall|i: int| 0 <= i < rest.len() && is_white_space(#[trigger] rest[i])
                    && rest[i] != '\n' implies (i + 1 < rest.len() && rest[i + 1] != '\n') by {
                    assert(rest[i] == x[i + k]);
                    if i + 1 < rest.len() {
                        assert(rest[i + 1] == x[i + k + 1]);
                    }
                }
                assert forall|i: int| 0 <= i < out.len() && is_white_space(#[trigger] out[i])
                    && out[i] != '\n' implies (i + 1 < out.len() && out[i + 1] != '\n') by {
                    assert(i >= 2);
                    assert(out[i] == y[i - 2]);
                    if i - 1 < y.len() {
                        assert(out[i + 1] == y[i - 1]);
                    }
                }
            }
        } else {
            let rest = x.drop_first();
            lemma_short_runs_result(rest);
            lemma_short_runs_start(rest);
            let y = with_short_blank_runs(rest);
            let out = seq![x[0]] + y;
            if x[0] == '\n' {
                assert(newline_run(rest) == k - 1);
                lemma_newline_run_two(y);
            }
            assert forall|i: int| 0 <= i < out.len() - 2 implies !((#[trigger] out[i]) == '\n'
                && out[i + 1] == '\n' && out[i + 2] == '\n') by {
                if i >= 1 {
                    assert(out[i] == y[i - 1] && out[i + 1] == y[i] && out[i + 2] == y[i + 1]);
                } else {
                    assert(out[1] == y[0] && out[2] == y[1]);
                }
            }
            if no_trailing_white_space(x) {
                assert forall|i: int| 0 <= i < rest.len() && is_white_space(#[trigger] rest[i])
                    && rest[i] != '\n' implies (i + 1 < rest.len() && rest[i + 1] != '\n') by {
                    assert(rest[i] == x[i + 1]);
                    if i + 1 < rest.len() {
                        assert(rest[i + 1] == x[i + 2]);
                    }
                }
                assert forall|i: int| 0 <= i < out.len() && is_white_space(#[trigger] out[i])
                    && out[i] != '\n' implies (i + 1 < out.len() && out[i + 1] != '\n') by {
                    if i >= 1 {
                        assert(out[i] == y[i - 1]);
                        if i < y.len() {
                            assert(out[i + 1] == y[i]);
                        }
                    } else {
                        assert(is_white_space(x[0]) && x[0] != '\n');
                        assert(1 < x.len() && x[1] != '\n');
                        assert(rest[0] == x[1]);
                        assert(out[1] == y[0]);
                    }
                }
            }
        }
    }
}

/// What `sanitize` gives has no line ending in white space and no run of
/// three or more line breaks.
pub proof fn lemma_sanitized_is_tidy(input: Seq<char>)
    ensures
        no_trailing_white_space(sanitized(input)),
        no_blank_run(sanitized(input)),
{
    let t = trimmed_lines(without_escape_sequences(input));
    lemma_trimmed_lines_have_no_trailing_white_space(without_escape_sequences(input));
    lemma_short_runs_result(t);
}

} // verus!
