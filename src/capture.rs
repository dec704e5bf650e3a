//! Reading the compiler invocation out of the build tool's verbose diagnostics.
//!
//! The build tool announces each subprocess it starts on a line of its own,
//! `Running` followed by the command in backticks. The last such line is the
//! compiler call for the primary artifact.

use vstd::prelude::*;
use crate::error::BatchError;

verus! {

/// White space as Rust's `char::is_whitespace` has it (Unicode `White_Space`).
pub open spec fn is_space(c: char) -> bool {
    let n = c as u32;
    (0x9 <= n && n <= 0xd) || n == 0x20 || n == 0x85 || n == 0xa0 || n == 0x1680
        || (0x2000 <= n && n <= 0x200a) || n == 0x2028 || n == 0x2029 || n == 0x202f
        || n == 0x205f || n == 0x3000
}

/// `s` without its leading white space.
pub open spec fn trim_start(s: Seq<char>) -> Seq<char>
    decreases s.len(),
{
    if s.len() > 0 && is_space(s[0]) {
        trim_start(s.drop_first())
    } else {
        s
    }
}

/// `s` without its trailing white space.
pub open spec fn trim_end(s: Seq<char>) -> Seq<char>
    decreases s.len(),
{
    if s.len() > 0 && is_space(s.last()) {
        trim_end(s.drop_last())
    } else {
        s
    }
}

/// The number of characters before the first line feed of `s` (all of them if none).
pub open spec fn line_len(s: Seq<char>) -> nat
    decreases s.len(),
{
    if s.len() == 0 || s[0] == '\n' {
        0
    } else {
        1 + line_len(s.drop_first())
    }
}

/// A line as it stood before `\r\n`: without the carriage return.
pub open spec fn drop_cr(l: Seq<char>) -> Seq<char> {
    if l.len() > 0 && l.last() == '\r' {
        l.drop_last()
    } else {
        l
    }
}

/// The lines of a text: split at `\n` or `\r\n`; a final line ending is optional.
pub open spec fn text_lines(s: Seq<char>) -> Seq<Seq<char>>
    decreases s.len(),
{
    if s.len() == 0 {
        seq![]
    } else if line_len(s) < s.len() {
        seq![drop_cr(s.take(line_len(s) as int))] + text_lines(s.skip(line_len(s) + 1 as int))
    } else {
        seq![s]
    }
}

/// What opens a line that announces a subprocess: `Running` and an opening backtick.
pub open spec fn marker() -> Seq<char> {
    seq!['R', 'u', 'n', 'n', 'i', 'n', 'g', ' ', '`']
}

/// The announcement word alone.
pub open spec fn marker_word() -> Seq<char> {
    seq!['R', 'u', 'n', 'n', 'i', 'n', 'g']
}

/// A line announces a subprocess when, past its leading white space, it opens with the marker.
pub open spec fn is_command_line(l: Seq<char>) -> bool {
    marker().is_prefix_of(trim_start(l))
}

/// The last of `ls` that announces a subprocess, if any does.
pub open spec fn last_matching(ls: Seq<Seq<char>>) -> Option<Seq<char>>
    decreases ls.len(),
{
    if ls.len() == 0 {
        None
    } else if is_command_line(ls.last()) {
        Some(ls.last())
    } else {
        last_matching(ls.drop_last())
    }
}

/// The last line of the diagnostics `text` that announces a subprocess, if any does.
pub open spec fn last_command_line(text: Seq<char>) -> Option<Seq<char>> {
    last_matching(text_lines(text))
}

/// `s` without the announcement word at its start, where it has one.
pub open spec fn strip_word(s: Seq<char>) -> Seq<char> {
    if marker_word().is_prefix_of(s) {
        s.skip(marker_word().len() as int)
    } else {
        s
    }
}

/// `s` without one backtick at its start and one at its end, where it has them.
pub open spec fn unquote(s: Seq<char>) -> Seq<char> {
    let t = if s.len() > 0 && s[0] == '`' {
        s.drop_first()
    } else {
        s
    };
    if t.len() > 0 && t.last() == '`' {
        t.drop_last()
    } else {
        t
    }
}

/// The command that an announcement line holds: the word `Running`, the white
/// space round the rest and one layer of backticks taken off.
pub open spec fn command_text(line: Seq<char>) -> Seq<char> {
    unquote(trim_end(trim_start(strip_word(trim_start(line)))))
}

proof fn lemma_trim_start_at(s: Seq<char>, m: int)
    requires
        0 <= m <= s.len(),
        forall|k: int| 0 <= k < m ==> is_space(#[trigger] s[k]),
        m == s.len() || !is_space(s[m]),
    ensures
        trim_start(s) == s.skip(m),
    decreases m,
{
    if m == 0 {
        assert(s.skip(0) =~= s);
    } else {
        let t = s.drop_first();
        assert forall|k: int| 0 <= k < m - 1 implies is_space(#[trigger] t[k]) by {
            assert(t[k] == s[k + 1]);
        }
        lemma_trim_start_at(t, m - 1);
        assert(t.skip(m - 1) =~= s.skip(m));
    }
}

proof fn lemma_trim_end_at(s: Seq<char>, m: int)
    requires
        0 <= m <= s.len(),
        forall|k: int| m <= k < s.len() ==> is_space(#[trigger] s[k]),
        m == 0 || !is_space(s[m - 1]),
    ensures
        trim_end(s) == s.take(m),
    decreases s.len() - m,
{
    if m == s.len() {
        assert(s.take(m) =~= s);
    } else {
        let t = s.drop_last();
        assert forall|k: int| m <= k < t.len() implies is_space(#[trigger] t[k]) by {
            assert(t[k] == s[k]);
        }
        lemma_trim_end_at(t, m);
        assert(t.take(m) =~= s.take(m));
    }
}

proof fn lemma_line_len(s: Seq<char>, m: int)
    requires
        0 <= m <= s.len(),
        forall|k: int| 0 <= k < m ==> #[trigger] s[k] != '\n',
        m == s.len() || s[m] == '\n',
    ensures
        line_len(s) == m,
    decreases m,
{
    if m > 0 {
        let t = s.drop_first();
        assert forall|k: int| 0 <= k < m - 1 implies #[trigger] t[k] != '\n' by {
            assert(t[k] == s[k + 1]);
        }
        lemma_line_len(t, m - 1);
    }
}

fn is_space_char(c: char) -> (r: bool)
    ensures
        r == is_space(c),
{
    let n = c as u32;
    (0x9 <= n && n <= 0xd) || n == 0x20 || n == 0x85 || n == 0xa0 || n == 0x1680
        || (0x2000 <= n && n <= 0x200a) || n == 0x2028 || n == 0x2029 || n == 0x202f
        || n == 0x205f || n == 0x3000
}

/// The characters of `s`, one per position of its view.
fn chars_of(s: &str) -> (r: Vec<char>)
    ensures
        r@ == s@,
{
    let mut r: Vec<char> = Vec::new();
    for c in it: s.chars()
        invariant
            it.seq() == s@,
            r@ == it.seq().take(it.index() as int),
    {
        r.push(c);
    }
    r
}

/// The first position from `a` on, before `b`, that is not white space (`b` if none).
fn skip_spaces(v: &Vec<char>, a: usize, b: usize) -> (p: usize)
    requires
        a <= b <= v@.len(),
    ensures
        a <= p <= b,
        trim_start(v@.subrange(a as int, b as int)) == v@.subrange(p as int, b as int),
{
    let mut p = a;
    while p < b && is_space_char(v[p])
        invariant
            a <= p <= b <= v@.len(),
            forall|k: int| a <= k < p ==> is_space(#[trigger] v@[k]),
        decreases b - p,
    {
        p = p + 1;
    }
    proof {
        let s = v@.subrange(a as int, b as int);
        assert forall|k: int| 0 <= k < p - a implies is_space(#[trigger] s[k]) by {
            assert(s[k] == v@[a + k]);
        }
        lemma_trim_start_at(s, p - a);
        assert(s.skip(p - a) =~= v@.subrange(p as int, b as int));
    }
    p
}

/// Whether `pat` opens `v[p..b]`.
fn prefix_at(v: &Vec<char>, p: usize, b: usize, pat: &Vec<char>) -> (r: bool)
    requires
        p <= b <= v@.len(),
    ensures
        r == pat@.is_prefix_of(v@.subrange(p as int, b as int)),
{
    if b - p < pat.len() {
        return false;
    }
    let mut k: usize = 0;
    while k < pat.len()
        invariant
            k <= pat@.len(),
            p + pat@.len() <= b <= v@.len(),
            forall|i: int| 0 <= i < k ==> pat@[i] == v@[p + i],
        decreases pat.len() - k,
    {
        if pat[k] != v[p + k] {
            assert(pat@[k as int] != v@.subrange(p as int, b as int)[k as int]);
            return false;
        }
        k = k + 1;
    }
    assert(pat@ =~= v@.subrange(p as int, b as int).subrange(0, pat@.len() as int));
    true
}

/// Whether `v[a..b]` is a line that announces a subprocess.
fn is_command_at(v: &Vec<char>, a: usize, b: usize, mark: &Vec<char>) -> (r: bool)
    requires
        a <= b <= v@.len(),
        mark@ == marker(),
    ensures
        r == is_command_line(v@.subrange(a as int, b as int)),
{
    let p = skip_spaces(v, a, b);
    prefix_at(v, p, b, mark)
}

fn marker_chars() -> (r: Vec<char>)
    ensures
        r@ == marker(),
{
    let r = chars_of("Running `");
    proof {
        reveal_strlit("Running `");
    }
    assert(r@ =~= marker());
    r
}

fn marker_word_chars() -> (r: Vec<char>)
    ensures
        r@ == marker_word(),
{
    let r = chars_of("Running");
    proof {
        reveal_strlit("Running");
    }
    assert(r@ =~= marker_word());
    r
}

/// The last line of the build tool's diagnostics that announces a subprocess,
/// as `str::lines` gives it; `None` where no line does.
pub fn extract_build_command(stderr: &str) -> (r: Option<String>)
    ensures
        r is Some <==> last_command_line(stderr@) is Some,
        r is Some ==> r->0@ == last_command_line(stderr@)->0,
{
    let v = chars_of(stderr);
    let mark = marker_chars();
    let n = v.len();
    let mut i: usize = 0;
    let mut found: Option<(usize, usize)> = None;
    let ghost mut done: Seq<Seq<char>> = seq![];
    assert(v@.skip(0) =~= v@);
    while i < n
        invariant
            i <= n == v@.len(),
            v@ == stderr@,
            mark@ == marker(),
            text_lines(v@) == done + text_lines(v@.skip(i as int)),
            match found {
                None => last_matching(done) is None,
                Some(ab) => ab.0 <= ab.1 <= n && last_matching(done) == Some(
                    v@.subrange(ab.0 as int, ab.1 as int),
                ),
            },
        decreases n - i,
    {
        let mut j = i;
        while j < n && v[j] != '\n'
            invariant
                i <= j <= n == v@.len(),
                forall|k: int| i <= k < j ==> #[trigger] v@[k] != '\n',
            decreases n - j,
        {
            j = j + 1;
        }
        let mut e = j;
        if j < n && j > i && v[j - 1] == '\r' {
            e = j - 1;
        }
        let hit = is_command_at(&v, i, e, &mark);
        proof {
            let t = v@.skip(i as int);
            assert forall|k: int| 0 <= k < j - i implies #[trigger] t[k] != '\n' by {
                assert(t[k] == v@[i + k]);
            }
            lemma_line_len(t, j - i);
            let line = v@.subrange(i as int, e as int);
            if j < n {
                assert(t.take(j - i) =~= v@.subrange(i as int, j as int));
                assert(drop_cr(v@.subrange(i as int, j as int)) =~= line);
                assert(t.skip(j - i + 1) =~= v@.skip(j + 1));
                assert(text_lines(t) == seq![line] + text_lines(v@.skip(j + 1)));
            } else {
                assert(t =~= line);
                assert(v@.skip(n as int) =~= seq![]);
                assert(text_lines(t) == seq![line]);
            }
            let old_done = done;
            done = done.push(line);
            assert(done.drop_last() =~= old_done);
            assert(done.last() == line);
            if j < n {
                assert(old_done + (seq![line] + text_lines(v@.skip(j + 1))) =~= done
                    + text_lines(v@.skip(j + 1)));
            } else {
                assert(text_lines(v@.skip(n as int)) =~= seq![]);
                assert(old_done + seq![line] =~= done + text_lines(v@.skip(n as int)));
            }
        }
        if hit {
            found = Some((i, e));
        }
        i = if j < n {
            j + 1
        } else {
            n
        };
    }
    assert(v@.skip(n as int) =~= seq![]);
    assert(done + seq![] =~= done);
    match found {
        None => None,
        Some((a, b)) => Some(String::from_str(stderr.substring_char(a, b))),
    }
}

/// The last position after `a`, up to `b`, that follows a character which is not
/// white space (`a` if none).
fn skip_spaces_back(v: &Vec<char>, a: usize, b: usize) -> (e: usize)
    requires
        a <= b <= v@.len(),
    ensures
        a <= e <= b,
        trim_end(v@.subrange(a as int, b as int)) == v@.subrange(a as int, e as int),
{
    let mut e = b;
    while e > a && is_space_char(v[e - 1])
        invariant
            a <= e <= b <= v@.len(),
            forall|k: int| e <= k < b ==> is_space(#[trigger] v@[k]),
        decreases e,
    {
        e = e - 1;
    }
    proof {
        let s = v@.subrange(a as int, b as int);
        assert forall|k: int| e - a <= k < s.len() implies is_space(#[trigger] s[k]) by {
            assert(s[k] == v@[a + k]);
        }
        lemma_trim_end_at(s, e - a);
        assert(s.take(e - a) =~= v@.subrange(a as int, e as int));
    }
    e
}

/// The bounds of `v[a..b]` without one backtick at each end.
fn unquote_range(v: &Vec<char>, a: usize, b: usize) -> (r: (usize, usize))
    requires
        a <= b <= v@.len(),
    ensures
        a <= r.0 <= r.1 <= b,
        unquote(v@.subrange(a as int, b as int)) == v@.subrange(r.0 as int, r.1 as int),
{
    let mut c = a;
    if c < b && v[c] == '`' {
        c = c + 1;
        assert(v@.subrange(a as int, b as int).drop_first() =~= v@.subrange(c as int, b as int));
    } else {
        assert(c == b || v@.subrange(a as int, b as int)[0] != '`');
    }
    let t = Ghost(v@.subrange(c as int, b as int));
    let mut d = b;
    if c < d && v[d - 1] == '`' {
        d = d - 1;
        assert(t@.drop_last() =~= v@.subrange(c as int, d as int));
    } else {
        assert(c == d || t@.last() != '`');
    }
    (c, d)
}

/// The bounds of `v[p..b]` without the announcement word at its start, where it has one.
fn strip_word_range(v: &Vec<char>, p: usize, b: usize) -> (q: usize)
    requires
        p <= b <= v@.len(),
    ensures
        p <= q <= b,
        strip_word(v@.subrange(p as int, b as int)) == v@.subrange(q as int, b as int),
{
    let word = marker_word_chars();
    if prefix_at(v, p, b, &word) {
        let q = p + word.len();
        assert(v@.subrange(p as int, b as int).skip(7) =~= v@.subrange(q as int, b as int));
        q
    } else {
        p
    }
}

/// The command that an announcement line holds: the word `Running`, the white
/// space round the rest and one layer of backticks taken off.
pub fn trim_build_command(line: &str) -> (r: String)
    ensures
        r@ == command_text(line@),
{
    let v = chars_of(line);
    let n = v.len();
    assert(v@.subrange(0, n as int) =~= line@);
    let p = skip_spaces(&v, 0, n);
    let q = strip_word_range(&v, p, n);
    let a0 = skip_spaces(&v, q, n);
    let e = skip_spaces_back(&v, a0, n);
    let (a, b) = unquote_range(&v, a0, e);
    String::from_str(line.substring_char(a, b))
}

} // verus!

verus! {

/// What `last_command_line` picks: an announcement line, with no other after it;
/// and it picks none only where no line announces a subprocess.
pub proof fn lemma_last_command_line(text: Seq<char>)
    ensures
        last_command_line(text) is None <==> forall|k: int|
            0 <= k < text_lines(text).len() ==> !is_command_line(#[trigger] text_lines(text)[k]),
        last_command_line(text) is Some ==> exists|k: int|
            0 <= k < text_lines(text).len() && text_lines(text)[k] == last_command_line(text)->0
                && is_command_line(text_lines(text)[k]) && forall|j: int|
                k < j < text_lines(text).len() ==> !is_command_line(#[trigger] text_lines(text)[j]),
{
    lemma_last_matching(text_lines(text));
}

proof fn lemma_last_matching(ls: Seq<Seq<char>>)
    ensures
        last_matching(ls) is None <==> forall|k: int|
            0 <= k < ls.len() ==> !is_command_line(#[trigger] ls[k]),
        last_matching(ls) is Some ==> exists|k: int|
            0 <= k < ls.len() && ls[k] == last_matching(ls)->0 && is_command_line(ls[k])
                && forall|j: int| k < j < ls.len() ==> !is_command_line(#[trigger] ls[j]),
    decreases ls.len(),
{
    if ls.len() > 0 {
        let init = ls.drop_last();
        lemma_last_matching(init);
        if is_command_line(ls.last()) {
            assert(ls[ls.len() - 1] == ls.last());
        } else {
            assert forall|k: int| 0 <= k < init.len() implies init[k] == ls[k] by {}
            if last_matching(init) is Some {
                let k = choose|k: int|
                    0 <= k < init.len() && init[k] == last_matching(init)->0 && is_command_line(
                        init[k],
                    ) && forall|j: int| k < j < init.len() ==> !is_command_line(#[trigger] init[j]);
                assert(ls[k] == init[k]);
                assert forall|j: int| k < j < ls.len() implies !is_command_line(#[trigger] ls[j]) by {
                    if j < init.len() {
                        assert(ls[j] == init[j]);
                    }
                }
            } else {
                assert forall|k: int| 0 <= k < ls.len() implies !is_command_line(#[trigger] ls[k]) by {
                    if k < init.len() {
                        assert(ls[k] == init[k]);
                    }
                }
            }
        }
    }
}

/// The compiler invocation that the build tool's diagnostics `stderr` announce
/// last, as command text; `NoBuildCommand` where no line announces one.
pub fn capture_command(stderr: &str) -> (r: Result<String, BatchError>)
    ensures
        match last_command_line(stderr@) {
            Some(l) => r is Ok && r->Ok_0@ == command_text(l),
            None => r is Err && r->Err_0 is NoBuildCommand,
        },
{
    match extract_build_command(stderr) {
        Some(line) => Ok(trim_build_command(line.as_str())),
        None => Err(BatchError::NoBuildCommand),
    }
}

} // verus!
