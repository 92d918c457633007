//! The candidate synthesizer's own part: assembling the completion prompt
//! from the task and an optional preview of the input, and finishing the
//! returned script.
use vstd::prelude::*;
use vstd::string::StringExecFns;
use crate::text::{chars_of, push_char, texts};

verus! {

/// The fixed preamble of every prompt: the data contract a script is written against.
pub const SYSTEM_MESSAGE: &'static str = "# You are part of a tool that creates Python code for text processing.
# You should return only Python code with no comments.
# Do not describe the code or add any additional information about the code.
# Data to process is stored in the string variable `data`.
# Results should be stored in the variable `result`.

import sys
data = sys.stdin.read()
";

/// The line appended to a script to serialise `result` to compact one-line JSON.
pub const JSON_ONE_LINE_SUFFIX: &'static str = "\nimport json; result = json.dumps(result, separators=(',', ':'))";

/// The line appended to a script to serialise `result` to JSON.
pub const JSON_SUFFIX: &'static str = "\nimport json; result = json.dumps(result)";

/// Whether `c` has the Unicode `White_Space` property, as `char::is_whitespace` tests.
pub open spec fn is_white_space(c: char) -> bool {
    ('\u{9}' <= c && c <= '\u{d}') || c == ' ' || c == '\u{85}' || c == '\u{a0}' || c
        == '\u{1680}' || ('\u{2000}' <= c && c <= '\u{200a}') || c == '\u{2028}' || c
        == '\u{2029}' || c == '\u{202f}' || c == '\u{205f}' || c == '\u{3000}'
}

/// `s` without its leading white space.
pub open spec fn trim_start(s: Seq<char>) -> Seq<char>
    decreases s.len(),
{
    if s.len() > 0 && is_white_space(s[0]) {
        trim_start(s.drop_first())
    } else {
        s
    }
}

/// `s` without its trailing white space.
pub open spec fn trim_end(s: Seq<char>) -> Seq<char>
    decreases s.len(),
{
    if s.len() > 0 && is_white_space(s.last()) {
        trim_end(s.drop_last())
    } else {
        s
    }
}

/// `s` without its leading and trailing white space.
pub open spec fn trimmed(s: Seq<char>) -> Seq<char> {
    trim_end(trim_start(s))
}

/// Relies on `str::trim`: the text without leading and trailing characters
/// that have the `White_Space` property.
#[verifier::external_body]
fn trim_text(s: &str) -> (r: String)
    ensures
        r@ == trimmed(s@),
{
    s.trim().to_string()
}

/// A line without the carriage return that ends it, if one does.
pub open spec fn strip_cr(l: Seq<char>) -> Seq<char> {
    if l.len() > 0 && l.last() == '\r' {
        l.drop_last()
    } else {
        l
    }
}

/// The lines of `s` when `cur` has already been read of the line in progress:
/// a line ends at a line feed, which is dropped together with a carriage
/// return just before it; the text after the last line feed is a line when it
/// is not empty.
pub open spec fn lines_from(s: Seq<char>, cur: Seq<char>) -> Seq<Seq<char>>
    decreases s.len(),
{
    if s.len() == 0 {
        if cur.len() == 0 {
            Seq::empty()
        } else {
            seq![cur]
        }
    } else if s[0] == '\n' {
        seq![strip_cr(cur)] + lines_from(s.drop_first(), Seq::empty())
    } else {
        lines_from(s.drop_first(), cur.push(s[0]))
    }
}

/// The lines of `s`.
pub open spec fn lines_of(s: Seq<char>) -> Seq<Seq<char>> {
    lines_from(s, Seq::empty())
}

/// The first `n` lines of `s`, or all of them when there are fewer.
pub open spec fn first_lines(s: Seq<char>, n: nat) -> Seq<Seq<char>> {
    if lines_of(s).len() <= n {
        lines_of(s)
    } else {
        lines_of(s).take(n as int)
    }
}

/// The lines `ls`, each marked as a comment, joined by line feeds.
pub open spec fn commented(ls: Seq<Seq<char>>) -> Seq<char>
    decreases ls.len(),
{
    if ls.len() == 0 {
        Seq::empty()
    } else if ls.len() == 1 {
        "#>"@ + ls[0]
    } else {
        commented(ls.drop_last()) + "\n#>"@ + ls.last()
    }
}

/// The decimal digit for `d`.
pub open spec fn digit_char(d: nat) -> char {
    seq!['0', '1', '2', '3', '4', '5', '6', '7', '8', '9'][d as int]
}

/// The decimal notation of `n`.
pub open spec fn decimal(n: nat) -> Seq<char>
    decreases n,
{
    if n < 10 {
        seq![digit_char(n)]
    } else {
        decimal(n / 10).push(digit_char(n % 10))
    }
}

/// The preview section of the prompt: a heading naming `n`, then the first
/// `n` lines of the input as comments.
pub open spec fn preview_section(input: Seq<char>, n: nat) -> Seq<char> {
    "\n# First "@ + decimal(n) + " lines of `data`:\n"@ + commented(first_lines(input, n)) + "\n"@
}

/// The prompt for `task`: the preamble, the preview when `show_lines` asks
/// for one, and the task as the final instruction.
pub open spec fn prompt_text(task: Seq<char>, show_lines: Option<u16>, input: Seq<char>) -> Seq<
    char,
> {
    SYSTEM_MESSAGE@ + match show_lines {
        Some(n) => preview_section(input, n as nat),
        None => Seq::empty(),
    } + "\n# "@ + task + ":"@
}

/// A finished script: `program` followed by the serialisation line that the
/// flags ask for, the compact one taking precedence.
pub open spec fn with_serializer(program: Seq<char>, jsonify: bool, jsonify_one_line: bool) -> Seq<
    char,
> {
    if jsonify_one_line {
        program + JSON_ONE_LINE_SUFFIX@
    } else if jsonify {
        program + JSON_SUFFIX@
    } else {
        program
    }
}

/// Appends the characters of `v` to `s`.
fn push_all(s: &mut String, v: &Vec<char>, end: usize)
    requires
        end <= v.len(),
    ensures
        final(s)@ == old(s)@ + v@.subrange(0, end as int),
{
    let mut i: usize = 0;
    while i < end
        invariant
            i <= end <= v.len(),
            s@ == old(s)@ + v@.subrange(0, i as int),
        decreases end - i,
    {
        push_char(s, v[i]);
        i = i + 1;
        assert(s@ =~= old(s)@ + v@.subrange(0, i as int));
    }
}

/// The text of a finished line, `cur` without a carriage return at its end.
fn finished_line(cur: &Vec<char>) -> (r: String)
    ensures
        r@ == strip_cr(cur@),
{
    let mut r = String::new();
    if cur.len() > 0 && cur[cur.len() - 1] == '\r' {
        push_all(&mut r, cur, cur.len() - 1);
        assert(r@ =~= cur@.drop_last());
    } else {
        push_all(&mut r, cur, cur.len());
        assert(r@ =~= cur@);
    }
    r
}

/// Reading one more character of the input extends the lines in the way
/// `lines_from` unfolds.
proof fn lemma_lines_step(v: Seq<char>, i: int, cur: Seq<char>)
    requires
        0 <= i < v.len(),
    ensures
        v[i] == '\n' ==> lines_from(v.subrange(i, v.len() as int), cur) == seq![strip_cr(cur)]
            + lines_from(v.subrange(i + 1, v.len() as int), Seq::empty()),
        v[i] != '\n' ==> lines_from(v.subrange(i, v.len() as int), cur) == lines_from(
            v.subrange(i + 1, v.len() as int),
            cur.push(v[i]),
        ),
{
    assert(v.subrange(i, v.len() as int).drop_first() =~= v.subrange(i + 1, v.len() as int));
}

/// Taking the first `n` of `done + rest` gives `done` when `done` already has
/// `n` entries, and everything when there are no more than `n`.
proof fn lemma_first_lines(done: Seq<Seq<char>>, rest: Seq<Seq<char>>, n: nat)
    requires
        done.len() == n || done.len() + rest.len() <= n,
    ensures
        (if (done + rest).len() <= n {
            done + rest
        } else {
            (done + rest).take(n as int)
        }) == (if done.len() == n {
            done
        } else {
            done + rest
        }),
{
    if done.len() == n {
        assert((done + rest).take(n as int) =~= done);
        if (done + rest).len() <= n {
            assert(rest.len() == 0);
            assert(done + rest =~= done);
        }
    }
}

/// The first `n` lines of `input`, or all of them when there are fewer.
pub fn input_lines(input: &str, n: usize) -> (r: Vec<String>)
    ensures
        texts(r@) == first_lines(input@, n as nat),
{
    let v = chars_of(input);
    let mut out: Vec<String> = Vec::new();
    let mut cur: Vec<char> = Vec::new();
    let mut i: usize = 0;
    assert(v@.subrange(0, v@.len() as int) =~= v@);
    assert(texts(out@) =~= Seq::<Seq<char>>::empty());
    while i < v.len() && out.len() < n
        invariant
            v@ == input@,
            i <= v.len(),
            out.len() <= n,
            texts(out@) + lines_from(v@.subrange(i as int, v@.len() as int), cur@) == lines_of(
                input@,
            ),
        decreases v.len() - i,
    {
        proof {
            lemma_lines_step(v@, i as int, cur@);
        }
        let ghost before = texts(out@);
        let ghost old_cur = cur@;
        if v[i] == '\n' {
            let line = finished_line(&cur);
            out.push(line);
            cur = Vec::new();
            proof {
                assert(texts(out@) =~= before.push(strip_cr(old_cur)));
                assert(before + (seq![strip_cr(old_cur)] + lines_from(
                    v@.subrange(i + 1, v@.len() as int),
                    Seq::empty(),
                )) =~= texts(out@) + lines_from(v@.subrange(i + 1, v@.len() as int), cur@));
            }
        } else {
            cur.push(v[i]);
        }
        i = i + 1;
    }
    let ghost rest = lines_from(v@.subrange(i as int, v@.len() as int), cur@);
    if out.len() < n {
        // The whole input has been read; the line in progress, if any, is the last.
        assert(v@.subrange(i as int, v@.len() as int) =~= Seq::<char>::empty());
        let ghost before = texts(out@);
        if cur.len() > 0 {
            let mut last = String::new();
            push_all(&mut last, &cur, cur.len());
            assert(last@ =~= cur@);
            out.push(last);
            assert(texts(out@) =~= before + rest);
        } else {
            assert(before + rest =~= before);
        }
        proof {
            lemma_first_lines(before, rest, n as nat);
        }
    } else {
        proof {
            lemma_first_lines(texts(out@), rest, n as nat);
        }
    }
    out
}

/// The lines `ls`, each marked as a comment, joined by line feeds.
fn push_commented(s: &mut String, ls: &Vec<String>)
    ensures
        final(s)@ == old(s)@ + commented(texts(ls@)),
{
    let mut i: usize = 0;
    while i < ls.len()
        invariant
            i <= ls.len(),
            s@ == old(s)@ + commented(texts(ls@).take(i as int)),
        decreases ls.len() - i,
    {
        let ghost prev = s@;
        if i == 0 {
            s.append("#>");
        } else {
            s.append("\n#>");
        }
        s.append(ls[i].as_str());
        proof {
            let t = texts(ls@).take(i + 1);
            assert(t.drop_last() =~= texts(ls@).take(i as int));
            assert(t.last() == ls@[i as int]@);
            if i == 0 {
                assert(commented(texts(ls@).take(i as int)) =~= Seq::<char>::empty());
            }
            assert(s@ =~= old(s)@ + commented(t));
        }
        i = i + 1;
    }
    assert(texts(ls@).take(i as int) =~= texts(ls@));
}

/// The decimal digit for `d`.
fn digit(d: u16) -> (c: char)
    requires
        d < 10,
    ensures
        c == digit_char(d as nat),
{
    if d == 0 {
        '0'
    } else if d == 1 {
        '1'
    } else if d == 2 {
        '2'
    } else if d == 3 {
        '3'
    } else if d == 4 {
        '4'
    } else if d == 5 {
        '5'
    } else if d == 6 {
        '6'
    } else if d == 7 {
        '7'
    } else if d == 8 {
        '8'
    } else {
        '9'
    }
}

/// Appends the decimal notation of `n` to `s`.
fn push_decimal(s: &mut String, n: u16)
    ensures
        final(s)@ == old(s)@ + decimal(n as nat),
    decreases n,
{
    if n >= 10 {
        push_decimal(s, n / 10);
    }
    push_char(s, digit(n % 10));
    assert(s@ =~= old(s)@ + decimal(n as nat));
}

/// The completion prompt for `task`, with the first `show_lines` lines of
/// `input` as a preview when a count is given.
pub fn build_prompt(task: &str, show_lines: Option<u16>, input: &str) -> (r: String)
    ensures
        r@ == prompt_text(task@, show_lines, input@),
{
    let mut prompt = String::from_str(SYSTEM_MESSAGE);
    match show_lines {
        Some(n) => {
            let lines = input_lines(input, n as usize);
            prompt.append("\n# First ");
            push_decimal(&mut prompt, n);
            prompt.append(" lines of `data`:\n");
            push_commented(&mut prompt, &lines);
            prompt.append("\n");
        },
        None => {},
    }
    prompt.append("\n# ");
    prompt.append(task);
    prompt.append(":");
    assert(prompt@ =~= prompt_text(task@, show_lines, input@));
    prompt
}

/// Appends to `program` the serialisation line that the flags ask for.
pub fn add_serializer(program: String, jsonify: bool, jsonify_one_line: bool) -> (r: String)
    ensures
        r@ == with_serializer(program@, jsonify, jsonify_one_line),
{
    let mut p = program;
    if jsonify_one_line {
        p.append(JSON_ONE_LINE_SUFFIX);
    } else if jsonify {
        p.append(JSON_SUFFIX);
    }
    p
}

/// Finishes the text returned by the completion service into a candidate:
/// trimmed, then followed by the serialisation line that the flags ask for.
pub fn finish_candidate(completion: &str, jsonify: bool, jsonify_one_line: bool) -> (r: String)
    ensures
        r@ == with_serializer(trimmed(completion@), jsonify, jsonify_one_line),
{
    let program = trim_text(completion);
    add_serializer(program, jsonify, jsonify_one_line)
}

} // verus!
