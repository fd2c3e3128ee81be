//! Derivation of human-readable input and output lines from the raw byte
//! streams of a recorded SSH session.
use vstd::prelude::*;
use crate::text::string_from_chars;

verus! {

/// White space as `str::trim` knows it: the Unicode `White_Space` property.
pub open spec fn is_space(c: char) -> bool {
    ('\t' <= c && c <= '\r') || c == ' ' || c == '\u{85}' || c == '\u{a0}' || c == '\u{1680}'
        || ('\u{2000}' <= c && c <= '\u{200a}') || c == '\u{2028}' || c == '\u{2029}' || c
        == '\u{202f}' || c == '\u{205f}' || c == '\u{3000}'
}

pub open spec fn trim_start(s: Seq<char>) -> Seq<char>
    decreases s.len(),
{
    if s.len() > 0 && is_space(s[0]) {
        trim_start(s.drop_first())
    } else {
        s
    }
}

pub open spec fn trim_end(s: Seq<char>) -> Seq<char>
    decreases s.len(),
{
    if s.len() > 0 && is_space(s.last()) {
        trim_end(s.drop_last())
    } else {
        s
    }
}

/// `s` without leading and trailing white space.
pub open spec fn trim(s: Seq<char>) -> Seq<char> {
    trim_end(trim_start(s))
}

/// Whether an `@` occurs before a `:` in `s`.
pub open spec fn at_before_colon(s: Seq<char>) -> bool {
    exists|i: int, j: int| 0 <= i < j < s.len() && s[i] == '@' && s[j] == ':'
}

/// The shell-prompt heuristic: after trimming, the line ends in `$` or `#`,
/// and the text before that holds an `@` before a `:`.
pub open spec fn prompt_like(line: Seq<char>) -> bool {
    let t = trim(line);
    t.len() > 0 && (t.last() == '$' || t.last() == '#') && at_before_colon(
        t.subrange(0, t.len() - 1),
    )
}

/// Bytes that end an escape sequence.
pub open spec fn ends_escape(b: u8) -> bool {
    (0x41 <= b && b <= 0x5a) || (0x61 <= b && b <= 0x7a) || b == 0x7e
}

/// One byte of input to the capture state of one direction (the partial line
/// and whether an escape sequence is open): the next state and the line the
/// byte completes, if any. Output lines that look like a prompt are not
/// reported.
pub open spec fn capture_byte(st: (Seq<char>, bool), b: u8, output: bool) -> ((Seq<char>, bool), Option<Seq<char>>) {
    let (line, escape) = st;
    if escape {
        ((line, !ends_escape(b)), None)
    } else if b == 0x1b {
        ((line, true), None)
    } else if b == 0x0d || b == 0x0a {
        let t = trim(line);
        (
            (Seq::empty(), false),
            if t.len() > 0 && !(output && prompt_like(t)) {
                Some(t)
            } else {
                None
            },
        )
    } else if b == 0x7f || b == 0x08 {
        (
            (
                if line.len() > 0 {
                    line.drop_last()
                } else {
                    line
                },
                false,
            ),
            None,
        )
    } else if b == 0x09 || (0x20 <= b && b <= 0x7e) {
        ((line.push(b as char), false), None)
    } else {
        (st, None)
    }
}

/// A chunk of bytes fed to a capture: the final state and the lines completed,
/// in order.
pub open spec fn capture_bytes(st: (Seq<char>, bool), bytes: Seq<u8>, output: bool) -> ((Seq<char>, bool), Seq<Seq<char>>)
    decreases bytes.len(),
{
    if bytes.len() == 0 {
        (st, Seq::empty())
    } else {
        let (mid, lines) = capture_bytes(st, bytes.drop_last(), output);
        let (last, emitted) = capture_byte(mid, bytes.last(), output);
        (
            last,
            match emitted {
                Some(l) => lines.push(l),
                None => lines,
            },
        )
    }
}

pub open spec fn strings_view(v: Seq<String>) -> Seq<Seq<char>> {
    v.map_values(|s: String| s@)
}

fn is_space_char(c: char) -> (r: bool)
    ensures
        r == is_space(c),
{
    ('\t' <= c && c <= '\r') || c == ' ' || c == '\u{85}' || c == '\u{a0}' || c == '\u{1680}'
        || ('\u{2000}' <= c && c <= '\u{200a}') || c == '\u{2028}' || c == '\u{2029}' || c
        == '\u{202f}' || c == '\u{205f}' || c == '\u{3000}'
}

proof fn lemma_trim_start_skip(s: Seq<char>, k: int)
    requires
        0 <= k <= s.len(),
        forall|i: int| 0 <= i < k ==> is_space(s[i]),
    ensures
        trim_start(s) == trim_start(s.subrange(k, s.len() as int)),
    decreases k,
{
    if k > 0 {
        assert(s.drop_first().subrange(k - 1, s.drop_first().len() as int) =~= s.subrange(
            k,
            s.len() as int,
        ));
        lemma_trim_start_skip(s.drop_first(), k - 1);
    } else {
        assert(s.subrange(0, s.len() as int) =~= s);
    }
}

proof fn lemma_trim_end_skip(s: Seq<char>, k: int)
    requires
        0 <= k <= s.len(),
        forall|i: int| k <= i < s.len() ==> is_space(s[i]),
    ensures
        trim_end(s) == trim_end(s.subrange(0, k)),
    decreases s.len() - k,
{
    if k < s.len() {
        assert(s.drop_last().subrange(0, k) =~= s.subrange(0, k));
        lemma_trim_end_skip(s.drop_last(), k);
    } else {
        assert(s.subrange(0, k) =~= s);
    }
}

/// The characters of `s` without surrounding white space.
pub fn trimmed(s: &Vec<char>) -> (r: Vec<char>)
    ensures
        r@ == trim(s@),
{
    let n = s.len();
    let mut a: usize = 0;
    while a < n && is_space_char(s[a])
        invariant
            n == s@.len(),
            a <= n,
            forall|i: int| 0 <= i < a ==> is_space(s@[i]),
        decreases n - a,
    {
        a += 1;
    }
    let mut b: usize = n;
    while b > a && is_space_char(s[b - 1])
        invariant
            n == s@.len(),
            a <= b <= n,
            forall|i: int| b <= i < n ==> is_space(s@[i]),
        decreases b,
    {
        b -= 1;
    }
    proof {
        lemma_trim_start_skip(s@, a as int);
        let rest = s@.subrange(a as int, n as int);
        assert(a == n || !is_space(rest[0]));
        assert(trim_start(rest) == rest);
        lemma_trim_end_skip(rest, b - a);
        assert(rest.subrange(0, b - a) =~= s@.subrange(a as int, b as int));
        let mid = s@.subrange(a as int, b as int);
        assert(b == a || !is_space(mid.last()));
        assert(trim_end(mid) == mid);
    }
    let mut out: Vec<char> = Vec::new();
    let mut i: usize = a;
    while i < b
        invariant
            n == s@.len(),
            a <= i <= b <= n,
            out@ == s@.subrange(a as int, i as int),
        decreases b - i,
    {
        out.push(s[i]);
        assert(s@.subrange(a as int, i + 1) =~= s@.subrange(a as int, i as int).push(s@[i as int]));
        i += 1;
    }
    out
}

} // verus!

verus! {

/// Whether an `@` comes before a `:` among the first `end` characters of `t`.
fn has_at_before_colon(t: &Vec<char>, end: usize) -> (r: bool)
    requires
        end <= t@.len(),
    ensures
        r == at_before_colon(t@.subrange(0, end as int)),
{
    let ghost s = t@.subrange(0, end as int);
    let mut seen_at = false;
    let mut k: usize = 0;
    while k < end
        invariant
            end <= t@.len(),
            s == t@.subrange(0, end as int),
            k <= end,
            seen_at == exists|i: int| 0 <= i < k && s[i] == '@',
            !(exists|i: int, j: int| 0 <= i < j < k && s[i] == '@' && s[j] == ':'),
        decreases end - k,
    {
        if t[k] == ':' && seen_at {
            proof {
                let i = choose|i: int| 0 <= i < k && s[i] == '@';
                assert(0 <= i < k && s[i] == '@' && s[k as int] == ':');
            }
            return true;
        }
        if t[k] == '@' {
            assert(s[k as int] == '@');
            seen_at = true;
        }
        k += 1;
    }
    false
}

/// Whether `line` looks like an interactive shell prompt.
pub fn is_prompt_line(line: &Vec<char>) -> (r: bool)
    ensures
        r == prompt_like(line@),
{
    let t = trimmed(line);
    let n = t.len();
    if n == 0 || !(t[n - 1] == '$' || t[n - 1] == '#') {
        return false;
    }
    has_at_before_colon(&t, n - 1)
}

} // verus!

verus! {

/// Feed one byte to the capture state of one direction.
fn capture_step(line: &mut Vec<char>, escape: &mut bool, b: u8, output: bool) -> (r: Option<
    String,
>)
    ensures
        ({
            let (st, emitted) = capture_byte((old(line)@, *old(escape)), b, output);
            &&& st == (final(line)@, *final(escape))
            &&& match emitted {
                Some(l) => r matches Some(s) && s@ == l,
                None => r is None,
            }
        }),
{
    if *escape {
        if (0x41 <= b && b <= 0x5a) || (0x61 <= b && b <= 0x7a) || b == 0x7e {
            *escape = false;
        }
        return None;
    }
    if b == 0x1b {
        *escape = true;
        None
    } else if b == 0x0d || b == 0x0a {
        let t = trimmed(line);
        *line = Vec::new();
        if t.len() > 0 && !(output && is_prompt_line(&t)) {
            Some(string_from_chars(&t))
        } else {
            None
        }
    } else if b == 0x7f || b == 0x08 {
        if line.len() > 0 {
            line.pop();
        }
        None
    } else if b == 0x09 || (0x20 <= b && b <= 0x7e) {
        line.push(b as char);
        None
    } else {
        None
    }
}

/// Feed a chunk of bytes to the capture state of one direction, returning the
/// lines it completes.
fn capture_chunk(line: &mut Vec<char>, escape: &mut bool, chunk: &[u8], output: bool) -> (r: Vec<
    String,
>)
    ensures
        capture_bytes((old(line)@, *old(escape)), chunk@, output) == ((final(line)@, *final(escape)), strings_view(r@)),
{
    let mut lines: Vec<String> = Vec::new();
    let mut i: usize = 0;
    while i < chunk.len()
        invariant
            i <= chunk@.len(),
            capture_bytes((old(line)@, *old(escape)), chunk@.subrange(0, i as int), output) == (
                (line@, *escape),
                strings_view(lines@),
            ),
        decreases chunk@.len() - i,
    {
        let ghost before = lines@;
        let emitted = capture_step(line, escape, chunk[i], output);
        match emitted {
            Some(s) => {
                lines.push(s);
                assert(strings_view(lines@) =~= strings_view(before).push(lines@.last()@));
            },
            None => {},
        }
        proof {
            let pre = chunk@.subrange(0, i as int + 1);
            assert(pre.drop_last() =~= chunk@.subrange(0, i as int));
            assert(pre.last() == chunk@[i as int]);
        }
        i += 1;
    }
    assert(chunk@.subrange(0, chunk@.len() as int) =~= chunk@);
    lines
}

/// Per-session line capture over the raw input and output streams.
#[derive(Debug, Clone)]
pub struct LineCapture {
    pub input_line: Vec<char>,
    pub input_escape: bool,
    pub output_line: Vec<char>,
    pub output_escape: bool,
    /// Set once raw streams were seen: ready-made line events are then ignored
    /// so that nothing is reported twice.
    pub prefer_raw: bool,
}

impl LineCapture {
    pub fn new() -> (r: Self)
        ensures
            r.input_line@.len() == 0,
            r.output_line@.len() == 0,
            !r.input_escape,
            !r.output_escape,
            !r.prefer_raw,
    {
        LineCapture {
            input_line: Vec::new(),
            input_escape: false,
            output_line: Vec::new(),
            output_escape: false,
            prefer_raw: false,
        }
    }

    /// Forget partial lines and open escapes, as at the start of a session.
    pub fn reset_buffers(&mut self)
        ensures
            final(self).input_line@.len() == 0,
            final(self).output_line@.len() == 0,
            !final(self).input_escape,
            !final(self).output_escape,
            final(self).prefer_raw == old(self).prefer_raw,
    {
        self.input_line = Vec::new();
        self.output_line = Vec::new();
        self.input_escape = false;
        self.output_escape = false;
    }

    /// Record that raw streams are present.
    pub fn note_raw(&mut self)
        ensures
            final(self).prefer_raw,
            final(self).input_line == old(self).input_line,
            final(self).output_line == old(self).output_line,
            final(self).input_escape == old(self).input_escape,
            final(self).output_escape == old(self).output_escape,
    {
        self.prefer_raw = true;
    }

    /// Feed raw keyboard input; returns the completed input lines, in order.
    pub fn feed_input(&mut self, chunk: &[u8]) -> (r: Vec<String>)
        ensures
            capture_bytes((old(self).input_line@, old(self).input_escape), chunk@, false) == (
                (final(self).input_line@, final(self).input_escape),
                strings_view(r@),
            ),
            final(self).output_line == old(self).output_line,
            final(self).output_escape == old(self).output_escape,
            final(self).prefer_raw == old(self).prefer_raw,
    {
        capture_chunk(&mut self.input_line, &mut self.input_escape, chunk, false)
    }

    /// Feed raw terminal output; returns the completed output lines that do
    /// not look like a prompt, in order.
    pub fn feed_output(&mut self, chunk: &[u8]) -> (r: Vec<String>)
        ensures
            capture_bytes((old(self).output_line@, old(self).output_escape), chunk@, true) == (
                (final(self).output_line@, final(self).output_escape),
                strings_view(r@),
            ),
            final(self).input_line == old(self).input_line,
            final(self).input_escape == old(self).input_escape,
            final(self).prefer_raw == old(self).prefer_raw,
    {
        capture_chunk(&mut self.output_line, &mut self.output_escape, chunk, true)
    }

    /// At the end of a session: the residual output line, trimmed, unless it
    /// is empty or looks like a prompt. The output buffer is emptied.
    pub fn flush_output(&mut self) -> (r: Option<String>)
        ensures
            final(self).output_line@.len() == 0,
            final(self).output_escape == old(self).output_escape,
            final(self).input_line == old(self).input_line,
            final(self).input_escape == old(self).input_escape,
            final(self).prefer_raw == old(self).prefer_raw,
            ({
                let t = trim(old(self).output_line@);
                if t.len() > 0 && !prompt_like(t) {
                    r matches Some(s) && s@ == t
                } else {
                    r is None
                }
            }),
    {
        let t = trimmed(&self.output_line);
        self.output_line = Vec::new();
        if t.len() > 0 && !is_prompt_line(&t) {
            Some(string_from_chars(&t))
        } else {
            None
        }
    }
}

} // verus!
