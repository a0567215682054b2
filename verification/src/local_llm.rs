//! The offline refinement engine: which files of the llama.cpp release are
//! kept, and how the raw output of `llama-cli` is cleaned into the refined
//! transcript.

use vstd::prelude::*;
use crate::text::{
    signed_decimal, i64_to_string,
    chars_of, find, find_seq, lemma_find_seq_bounds, push_all, slice_chars, string_from_chars,
    trim_chars, trim_seq, views, chars_equal, ascii_lower, contains_seq, matches_at,
};

verus! {

fn ascii_lower_exec(c: char) -> (r: char)
    ensures
        r == ascii_lower(c),
{
    if 'A' <= c && c <= 'Z' {
        ((c as u32) + 32) as u8 as char
    } else {
        c
    }
}

/// `s` and `t` are equal up to the case of ASCII letters.
pub open spec fn eq_ignore_ascii_case(s: Seq<char>, t: Seq<char>) -> bool {
    s.len() == t.len() && forall|i: int| 0 <= i < s.len() ==> ascii_lower(#[trigger] s[i]) == ascii_lower(t[i])
}

/// `s` starts with `p`, up to the case of ASCII letters.
pub open spec fn starts_with_ignore_ascii_case(s: Seq<char>, p: Seq<char>) -> bool {
    p.len() <= s.len() && eq_ignore_ascii_case(s.subrange(0, p.len() as int), p)
}

/// Whether `s` starts with `p`, up to the case of ASCII letters.
pub fn starts_with_ci(s: &Vec<char>, p: &Vec<char>) -> (r: bool)
    ensures
        r == starts_with_ignore_ascii_case(s@, p@),
{
    if p.len() > s.len() {
        return false;
    }
    let mut i: usize = 0;
    while i < p.len()
        invariant
            p@.len() <= s@.len(),
            i <= p@.len(),
            forall|k: int| 0 <= k < i ==> ascii_lower(s@[k]) == ascii_lower(p@[k]),
        decreases p@.len() - i,
    {
        if ascii_lower_exec(s[i]) != ascii_lower_exec(p[i]) {
            assert(ascii_lower(s@.subrange(0, p@.len() as int)[i as int]) != ascii_lower(p@[i as int]));
            return false;
        }
        i = i + 1;
    }
    assert forall|k: int| 0 <= k < p@.len() implies ascii_lower(
        #[trigger] s@.subrange(0, p@.len() as int)[k],
    ) == ascii_lower(p@[k]) by {}
    true
}

/// The extension of a file name as `Path::extension` reads it: what follows
/// the last dot, unless there is no dot or the only dot starts the name.
pub open spec fn file_extension(name: Seq<char>) -> Option<Seq<char>> {
    if exists|i: int| 1 <= i < name.len() && name[i] == '.' {
        let k = choose|i: int|
            1 <= i < name.len() && name[i] == '.' && forall|j: int| i < j < name.len() ==> name[j] != '.';
        Some(name.subrange(k + 1, name.len() as int))
    } else {
        None
    }
}

/// Whether a file of the llama.cpp release archive is extracted: executables
/// and shared libraries (extension `exe`, `dll`, `so`, `dylib`, in any case,
/// or no extension at all) and the `llama-cli` binary itself.
pub open spec fn archive_entry_wanted_spec(name: Seq<char>) -> bool {
    let ext = match file_extension(name) {
        Some(e) => e,
        None => Seq::empty(),
    };
    ||| eq_ignore_ascii_case(ext, "exe"@)
    ||| eq_ignore_ascii_case(ext, "dll"@)
    ||| eq_ignore_ascii_case(ext, "so"@)
    ||| eq_ignore_ascii_case(ext, "dylib"@)
    ||| ext.len() == 0
    ||| name == "llama-cli"@
}

fn eq_ci(s: &Vec<char>, t: &str) -> (r: bool)
    ensures
        r == eq_ignore_ascii_case(s@, t@),
{
    let tv = chars_of(t);
    if s.len() != tv.len() {
        return false;
    }
    let r = starts_with_ci(s, &tv);
    proof {
        assert(s@.subrange(0, tv@.len() as int) =~= s@);
    }
    r
}

/// The extension of a file name, as `Path::extension` reads it.
pub fn extension_of(name: &Vec<char>) -> (r: Option<Vec<char>>)
    ensures
        r matches Some(e) ==> file_extension(name@) == Some(e@),
        r is None ==> file_extension(name@) is None,
{
    let n = name.len();
    if n == 0 {
        return None;
    }
    let mut i: usize = n;
    while i > 1
        invariant
            n == name@.len(),
            1 <= n,
            i <= n,
            forall|j: int| i <= j < n ==> name@[j] != '.',
        decreases i,
    {
        if name[i - 1] == '.' {
            let k = i - 1;
            proof {
                let c = choose|c: int|
                    1 <= c < name@.len() && name@[c] == '.' && forall|j: int|
                        c < j < name@.len() ==> name@[j] != '.';
                assert(1 <= k < name@.len() && name@[k as int] == '.');
                if c < k {
                    assert(name@[k as int] != '.');
                } else if c > k {
                    assert(name@[c] != '.');
                }
            }
            return Some(slice_chars(name, k + 1, n));
        }
        i = i - 1;
    }
    assert forall|j: int| 1 <= j < name@.len() implies name@[j] != '.' by {}
    None
}

/// Whether a file of the llama.cpp release archive is extracted, given its
/// (non-empty) file name.
pub fn archive_entry_wanted(file_name: &str) -> (r: bool)
    ensures
        r == archive_entry_wanted_spec(file_name@),
{
    let name = chars_of(file_name);
    let ext = match extension_of(&name) {
        Some(e) => e,
        None => Vec::new(),
    };
    let llama = chars_of("llama-cli");
    eq_ci(&ext, "exe") || eq_ci(&ext, "dll") || eq_ci(&ext, "so") || eq_ci(&ext, "dylib")
        || ext.len() == 0 || chars_equal(&name, &llama)
}

/// Removes a reasoning block: text from `<think>` up to and including
/// `</think>` is dropped (what follows is trimmed); without a closing tag,
/// everything from `<think>` on is dropped.
pub open spec fn strip_think_spec(r: Seq<char>) -> Seq<char> {
    match find_seq(r, "<think>"@) {
        Some(s) => match find_seq(r, "</think>"@) {
            Some(e) => r.subrange(0, s) + trim_seq(r.subrange(e + 8, r.len() as int)),
            None => trim_seq(r.subrange(0, s)),
        },
        None => r,
    }
}

/// Cuts `r` at the first occurrence of `token`.
#[verifier::opaque]
pub open spec fn truncate_at_spec(r: Seq<char>, token: Seq<char>) -> Seq<char> {
    match find_seq(r, token) {
        Some(p) => r.subrange(0, p),
        None => r,
    }
}

/// The stop tokens and stray markers cut from the output, in order.
pub open spec fn strip_stop_tokens_spec(r: Seq<char>) -> Seq<char> {
    let r1 = truncate_at_spec(r, "[end of text]"@);
    let r2 = truncate_at_spec(r1, "<|endoftext|>"@);
    let r3 = truncate_at_spec(r2, "<|im_end|>"@);
    let r4 = truncate_at_spec(r3, "</s>"@);
    let r5 = truncate_at_spec(r4, "[/INST]"@);
    let r6 = truncate_at_spec(r5, "[INST]"@);
    truncate_at_spec(r6, "Raw transcript:"@)
}

/// The markers a model may emit after the text proper.
pub open spec fn stop_tokens() -> Seq<Seq<char>> {
    seq![
        "[end of text]"@,
        "<|endoftext|>"@,
        "<|im_end|>"@,
        "</s>"@,
        "[/INST]"@,
        "[INST]"@,
        "Raw transcript:"@,
    ]
}

/// Some stop token occurs in `r` at position `i`.
pub open spec fn stop_token_at(r: Seq<char>, i: int) -> bool {
    exists|k: int| 0 <= k < stop_tokens().len() && matches_at(r, #[trigger] stop_tokens()[k], i)
}

/// A text that does not contain a pattern has no prefix that contains it.
proof fn lemma_prefix_keeps_absence(t: Seq<char>, n: int, tok: Seq<char>)
    requires
        0 <= n <= t.len(),
        !contains_seq(t, tok),
    ensures
        !contains_seq(t.subrange(0, n), tok),
{
    if contains_seq(t.subrange(0, n), tok) {
        let q = choose|q: int| matches_at(t.subrange(0, n), tok, q);
        assert(t.subrange(0, n).subrange(q, q + tok.len()) =~= t.subrange(q, q + tok.len()));
        assert(matches_at(t, tok, q));
    }
}

/// Cutting at a non-empty token leaves a prefix without it, cut where the
/// token starts.
proof fn lemma_truncate_at(s: Seq<char>, tok: Seq<char>)
    requires
        tok.len() > 0,
    ensures
        truncate_at_spec(s, tok).len() <= s.len(),
        truncate_at_spec(s, tok) == s.subrange(0, truncate_at_spec(s, tok).len() as int),
        !contains_seq(truncate_at_spec(s, tok), tok),
        truncate_at_spec(s, tok).len() < s.len() ==> matches_at(
            s,
            tok,
            truncate_at_spec(s, tok).len() as int,
        ),
{
    reveal(truncate_at_spec);
    lemma_find_seq_bounds(s, tok);
    match find_seq(s, tok) {
        Some(p) => {
            let t = s.subrange(0, p);
            if contains_seq(t, tok) {
                let q = choose|q: int| matches_at(t, tok, q);
                assert(t.subrange(q, q + tok.len()) =~= s.subrange(q, q + tok.len()));
                assert(matches_at(s, tok, q));
                assert(q + tok.len() <= p);
                assert(false);
            }
        },
        None => {
            assert(s == s.subrange(0, s.len() as int));
        },
    }
}

proof fn lemma_stop_tokens_nonempty(k: int)
    requires
        0 <= k < stop_tokens().len(),
    ensures
        stop_tokens()[k].len() > 0,
{
    if k == 0 {
        reveal_strlit("[end of text]");
    } else if k == 1 {
        reveal_strlit("<|endoftext|>");
    } else if k == 2 {
        reveal_strlit("<|im_end|>");
    } else if k == 3 {
        reveal_strlit("</s>");
    } else if k == 4 {
        reveal_strlit("[/INST]");
    } else if k == 5 {
        reveal_strlit("[INST]");
    } else {
        reveal_strlit("Raw transcript:");
    }
}

/// One more cut keeps a prefix of `r` that ends where a stop token starts
/// (or is all of `r`), and that lacks every token cut so far.
proof fn lemma_cut_step(r: Seq<char>, prev: Seq<char>, k: int)
    requires
        0 <= k < stop_tokens().len(),
        prev.len() <= r.len(),
        prev == r.subrange(0, prev.len() as int),
        prev.len() < r.len() ==> stop_token_at(r, prev.len() as int),
    ensures
        ({
            let next = truncate_at_spec(prev, stop_tokens()[k]);
            &&& next.len() <= prev.len()
            &&& next == r.subrange(0, next.len() as int)
            &&& next == prev.subrange(0, next.len() as int)
            &&& !contains_seq(next, stop_tokens()[k])
            &&& next.len() < r.len() ==> stop_token_at(r, next.len() as int)
        }),
{
    lemma_stop_tokens_nonempty(k);
    let tok = stop_tokens()[k];
    lemma_truncate_at(prev, tok);
    let next = truncate_at_spec(prev, tok);
    assert(next =~= r.subrange(0, next.len() as int));
    if next.len() < prev.len() {
        let n = next.len() as int;
        assert(prev.subrange(n, n + tok.len()) =~= r.subrange(n, n + tok.len()));
        assert(matches_at(r, stop_tokens()[k], n));
    }
}

/// Cutting the stop tokens leaves the output up to the first place where
/// any of them starts: the result is a prefix of the output, holds none of
/// the stop tokens, and is either the whole output or followed in it by a
/// stop token.
pub proof fn lemma_stop_tokens_cut(r: Seq<char>)
    ensures
        ({
            let o = strip_stop_tokens_spec(r);
            &&& o.len() <= r.len()
            &&& o == r.subrange(0, o.len() as int)
            &&& forall|k: int| 0 <= k < stop_tokens().len() ==> !contains_seq(o, #[trigger] stop_tokens()[k])
            &&& o.len() < r.len() ==> stop_token_at(r, o.len() as int)
        }),
{
    let t = stop_tokens();
    assert(r =~= r.subrange(0, r.len() as int));
    let r1 = truncate_at_spec(r, t[0]);
    let r2 = truncate_at_spec(r1, t[1]);
    let r3 = truncate_at_spec(r2, t[2]);
    let r4 = truncate_at_spec(r3, t[3]);
    let r5 = truncate_at_spec(r4, t[4]);
    let r6 = truncate_at_spec(r5, t[5]);
    let r7 = truncate_at_spec(r6, t[6]);
    assert(r7 == strip_stop_tokens_spec(r));
    lemma_cut_step(r, r, 0);
    lemma_cut_step(r, r1, 1);
    lemma_cut_step(r, r2, 2);
    lemma_cut_step(r, r3, 3);
    lemma_cut_step(r, r4, 4);
    lemma_cut_step(r, r5, 5);
    lemma_cut_step(r, r6, 6);
    lemma_prefix_keeps_absence(r1, r7.len() as int, t[0]);
    lemma_prefix_keeps_absence(r2, r7.len() as int, t[1]);
    lemma_prefix_keeps_absence(r3, r7.len() as int, t[2]);
    lemma_prefix_keeps_absence(r4, r7.len() as int, t[3]);
    lemma_prefix_keeps_absence(r5, r7.len() as int, t[4]);
    lemma_prefix_keeps_absence(r6, r7.len() as int, t[5]);
    assert(r1.subrange(0, r7.len() as int) =~= r7);
    assert(r2.subrange(0, r7.len() as int) =~= r7);
    assert(r3.subrange(0, r7.len() as int) =~= r7);
    assert(r4.subrange(0, r7.len() as int) =~= r7);
    assert(r5.subrange(0, r7.len() as int) =~= r7);
    assert(r6.subrange(0, r7.len() as int) =~= r7);
}

/// Trims `r` and removes one pair of matching double or single quotes
/// around it (trimming again inside).
pub open spec fn strip_quotes_spec(r: Seq<char>) -> Seq<char> {
    let t = trim_seq(r);
    if t.len() >= 2 && ((t[0] == '"' && t[t.len() - 1] == '"') || (t[0] == '\'' && t[t.len() - 1]
        == '\'')) {
        trim_seq(t.subrange(1, t.len() - 1))
    } else {
        t
    }
}

/// Removes `prefix` (ignoring ASCII case) from the start of `r`, trimming
/// what remains.
pub open spec fn strip_prefix_spec(r: Seq<char>, prefix: Seq<char>) -> Seq<char> {
    if starts_with_ignore_ascii_case(r, prefix) {
        trim_seq(r.subrange(prefix.len() as int, r.len() as int))
    } else {
        r
    }
}

/// The lead-ins a model tends to write before the refined text, removed in
/// this order.
pub open spec fn strip_lead_ins_spec(r: Seq<char>) -> Seq<char> {
    let r1 = strip_prefix_spec(r, "Cleaned text:"@);
    let r2 = strip_prefix_spec(r1, "Cleaned transcript:"@);
    let r3 = strip_prefix_spec(r2, "Refined text:"@);
    let r4 = strip_prefix_spec(r3, "Refined transcript:"@);
    let r5 = strip_prefix_spec(r4, "Here is the cleaned text:"@);
    let r6 = strip_prefix_spec(r5, "Here is the refined text:"@);
    let r7 = strip_prefix_spec(r6, "Here is the cleaned transcript:"@);
    strip_prefix_spec(r7, "Here is the refined transcript:"@)
}

/// `line` without one trailing carriage return.
pub open spec fn strip_cr(line: Seq<char>) -> Seq<char> {
    if line.len() > 0 && line.last() == '\r' {
        line.drop_last()
    } else {
        line
    }
}

/// `str::lines`: the lines of `s`, split at `\n` (a `\r` before the `\n`
/// is dropped); a final line ending adds no empty line.
pub open spec fn lines_spec(s: Seq<char>) -> Seq<Seq<char>>
    decreases s.len(),
{
    if s.len() == 0 {
        Seq::empty()
    } else {
        match find_seq(s, seq!['\n']) {
            Some(i) => {
                proof {
                    lemma_find_seq_bounds(s, seq!['\n']);
                }
                seq![strip_cr(s.subrange(0, i))] + lines_spec(s.subrange(i + 1, s.len() as int))
            },
            None => seq![s],
        }
    }
}

/// A line that is empty, blank or a bare code fence.
pub open spec fn is_filler_line(line: Seq<char>) -> bool {
    trim_seq(line) == "```"@ || trim_seq(line).len() == 0
}

/// The lines without trailing blank lines and code fences.
pub open spec fn drop_trailing_filler(ls: Seq<Seq<char>>) -> Seq<Seq<char>>
    decreases ls.len(),
{
    if ls.len() > 0 && is_filler_line(ls.last()) {
        drop_trailing_filler(ls.drop_last())
    } else {
        ls
    }
}

/// The lines joined with `\n`.
pub open spec fn join_lines(ls: Seq<Seq<char>>) -> Seq<char>
    decreases ls.len(),
{
    if ls.len() == 0 {
        Seq::empty()
    } else if ls.len() == 1 {
        ls[0]
    } else {
        join_lines(ls.drop_last()) + seq!['\n'] + ls.last()
    }
}

/// The text of the refined transcript in the output of `llama-cli`.
pub open spec fn clean_output_spec(stdout: Seq<char>) -> Seq<char> {
    let r0 = trim_seq(stdout);
    let r1 = strip_think_spec(r0);
    let r2 = strip_stop_tokens_spec(r1);
    let r3 = strip_quotes_spec(r2);
    let r4 = strip_lead_ins_spec(r3);
    let r5 = strip_quotes_spec(r4);
    trim_seq(join_lines(drop_trailing_filler(lines_spec(r5))))
}

/// The refined transcript: the cleaned output, or the raw transcript when
/// nothing is left of the output.
pub open spec fn refined_text_spec(stdout: Seq<char>, raw_text: Seq<char>) -> Seq<char> {
    let r = clean_output_spec(stdout);
    if r.len() == 0 {
        raw_text
    } else {
        r
    }
}

fn strip_think(r: &Vec<char>) -> (o: Vec<char>)
    ensures
        o@ == strip_think_spec(r@),
{
    let open = chars_of("<think>");
    let close = chars_of("</think>");
    proof {
        reveal_strlit("</think>");
    }
    match find(r, &open) {
        Some(s) => {
            proof {
                lemma_find_seq_bounds(r@, open@);
            }
            match find(r, &close) {
                Some(e) => {
                    proof {
                        lemma_find_seq_bounds(r@, close@);
                    }
                    let n = r.len();
                    assert(close@.len() == 8);
                    assert(e + 8 <= n);
                    let mut o = slice_chars(r, 0, s);
                    let rest = slice_chars(r, e + 8, n);
                    let t = trim_chars(&rest);
                    push_all(&mut o, &t);
                    o
                },
                None => {
                    let head = slice_chars(r, 0, s);
                    trim_chars(&head)
                },
            }
        },
        None => slice_chars(r, 0, r.len()),
    }
}

fn truncate_at(r: Vec<char>, token: &str) -> (o: Vec<char>)
    ensures
        o@ == truncate_at_spec(r@, token@),
{
    proof {
        reveal(truncate_at_spec);
    }
    let t = chars_of(token);
    match find(&r, &t) {
        Some(p) => {
            proof {
                lemma_find_seq_bounds(r@, t@);
            }
            slice_chars(&r, 0, p)
        },
        None => r,
    }
}

fn strip_stop_tokens(r: Vec<char>) -> (o: Vec<char>)
    ensures
        o@ == strip_stop_tokens_spec(r@),
{
    let r1 = truncate_at(r, "[end of text]");
    let r2 = truncate_at(r1, "<|endoftext|>");
    let r3 = truncate_at(r2, "<|im_end|>");
    let r4 = truncate_at(r3, "</s>");
    let r5 = truncate_at(r4, "[/INST]");
    let r6 = truncate_at(r5, "[INST]");
    truncate_at(r6, "Raw transcript:")
}

fn strip_quotes(r: &Vec<char>) -> (o: Vec<char>)
    ensures
        o@ == strip_quotes_spec(r@),
{
    let t = trim_chars(r);
    let n = t.len();
    if n >= 2 && ((t[0] == '"' && t[n - 1] == '"') || (t[0] == '\'' && t[n - 1] == '\'')) {
        let inner = slice_chars(&t, 1, n - 1);
        trim_chars(&inner)
    } else {
        t
    }
}

fn strip_prefix(r: Vec<char>, prefix: &str) -> (o: Vec<char>)
    ensures
        o@ == strip_prefix_spec(r@, prefix@),
{
    let p = chars_of(prefix);
    if starts_with_ci(&r, &p) {
        let rest = slice_chars(&r, p.len(), r.len());
        trim_chars(&rest)
    } else {
        r
    }
}

fn strip_lead_ins(r: Vec<char>) -> (o: Vec<char>)
    ensures
        o@ == strip_lead_ins_spec(r@),
{
    let r1 = strip_prefix(r, "Cleaned text:");
    let r2 = strip_prefix(r1, "Cleaned transcript:");
    let r3 = strip_prefix(r2, "Refined text:");
    let r4 = strip_prefix(r3, "Refined transcript:");
    let r5 = strip_prefix(r4, "Here is the cleaned text:");
    let r6 = strip_prefix(r5, "Here is the refined text:");
    let r7 = strip_prefix(r6, "Here is the cleaned transcript:");
    strip_prefix(r7, "Here is the refined transcript:")
}

/// `str::lines`.
pub fn lines(s: &Vec<char>) -> (ls: Vec<Vec<char>>)
    ensures
        views(ls@) == lines_spec(s@),
{
    let mut nl: Vec<char> = Vec::new();
    nl.push('\n');
    assert(nl@ =~= seq!['\n']);
    let mut out: Vec<Vec<char>> = Vec::new();
    let mut rest = slice_chars(s, 0, s.len());
    assert(rest@ =~= s@);
    loop
        invariant
            nl@ == seq!['\n'],
            lines_spec(s@) == views(out@) + lines_spec(rest@),
        decreases rest@.len(),
    {
        if rest.len() == 0 {
            assert(lines_spec(rest@) == Seq::<Seq<char>>::empty());
            assert(views(out@) + lines_spec(rest@) =~= views(out@));
            return out;
        }
        match find(&rest, &nl) {
            Some(i) => {
                proof {
                    lemma_find_seq_bounds(rest@, nl@);
                }
                let n = rest.len();
                let mut head = slice_chars(&rest, 0, i);
                if head.len() > 0 && head[head.len() - 1] == '\r' {
                    let ghost h = head@;
                    head.pop();
                    assert(head@ =~= h.drop_last());
                }
                let tail = slice_chars(&rest, i + 1, n);
                let ghost old_out = out@;
                proof {
                    assert(lines_spec(rest@) == seq![head@] + lines_spec(tail@));
                }
                out.push(head);
                proof {
                    assert(views(out@) =~= views(old_out) + seq![head@]);
                    assert(views(old_out) + lines_spec(rest@) =~= views(out@) + lines_spec(tail@));
                }
                rest = tail;
            },
            None => {
                let ghost old_out = out@;
                assert(lines_spec(rest@) == seq![rest@]);
                out.push(rest);
                assert(views(out@) =~= views(old_out) + seq![rest@]);
                return out;
            },
        }
    }
}

fn is_filler(line: &Vec<char>) -> (r: bool)
    ensures
        r == is_filler_line(line@),
{
    let t = trim_chars(line);
    let fence = chars_of("```");
    chars_equal(&t, &fence) || t.len() == 0
}

/// Joining one more line adds a newline and the line.
pub proof fn lemma_join_push(ls: Seq<Seq<char>>, l: Seq<char>)
    requires
        ls.len() > 0,
    ensures
        join_lines(ls.push(l)) == join_lines(ls) + seq!['\n'] + l,
{
    assert(ls.push(l).drop_last() =~= ls);
}

fn join(ls: &Vec<Vec<char>>) -> (r: Vec<char>)
    ensures
        r@ == join_lines(views(ls@)),
{
    let mut r: Vec<char> = Vec::new();
    let mut i: usize = 0;
    while i < ls.len()
        invariant
            i <= ls@.len(),
            r@ == join_lines(views(ls@).subrange(0, i as int)),
        decreases ls@.len() - i,
    {
        let ghost prefix = views(ls@).subrange(0, i as int);
        if i > 0 {
            r.push('\n');
            proof {
                lemma_join_push(prefix, ls@[i as int]@);
            }
        } else {
            assert(views(ls@).subrange(0, 1) =~= seq![ls@[0]@]);
        }
        push_all(&mut r, &ls[i]);
        assert(views(ls@).subrange(0, i + 1) =~= prefix.push(ls@[i as int]@));
        i = i + 1;
    }
    assert(views(ls@).subrange(0, ls@.len() as int) =~= views(ls@));
    r
}

/// Cleans the raw output of `llama-cli` into the refined transcript: drops
/// any reasoning block, cuts at stop tokens, removes wrapping quotes and
/// lead-ins such as "Here is the cleaned text:", drops trailing blank lines
/// and code fences, and trims. When nothing is left, the raw transcript is
/// the result.
///
/// The lead-ins are matched ignoring the case of ASCII letters. This is the
/// same test as comparing Unicode lower case: the only character outside
/// ASCII whose lower case starts with a letter of these lead-ins is `İ`,
/// which lowers to `i` followed by a combining dot above, and no lead-in
/// holds that dot, so it matches neither way.
pub fn clean_llm_output(stdout: &str, raw_text: &str) -> (r: String)
    ensures
        r@ == refined_text_spec(stdout@, raw_text@),
{
    let out = chars_of(stdout);
    let r0 = trim_chars(&out);
    let r1 = strip_think(&r0);
    let r2 = strip_stop_tokens(r1);
    let r3 = strip_quotes(&r2);
    let r4 = strip_lead_ins(r3);
    let r5 = strip_quotes(&r4);
    let mut ls = lines(&r5);
    while ls.len() > 0 && is_filler(&ls[ls.len() - 1])
        invariant
            drop_trailing_filler(views(ls@)) == drop_trailing_filler(lines_spec(r5@)),
        decreases ls@.len(),
    {
        let ghost before = ls@;
        ls.pop();
        proof {
            assert(views(ls@) =~= views(before).drop_last());
        }
    }
    proof {
        if views(ls@).len() > 0 {
            assert(!is_filler_line(views(ls@).last()));
        }
        assert(drop_trailing_filler(views(ls@)) == views(ls@));
    }
    let joined = join(&ls);
    let fin = trim_chars(&joined);
    if fin.len() == 0 {
        String::from_str(raw_text)
    } else {
        string_from_chars(&fin)
    }
}


/// Whether a file in a model directory is the model itself: its extension
/// is `gguf`, in any case.
pub open spec fn is_gguf_spec(name: Seq<char>) -> bool {
    file_extension(name) matches Some(e) && eq_ignore_ascii_case(e, "gguf"@)
}

/// Whether a file in a model directory is the model itself (extension
/// `gguf`, in any case; no character outside ASCII lowers into these
/// letters, so this equals comparing Unicode lower case).
pub fn is_gguf_model_file(file_name: &str) -> (r: bool)
    ensures
        r == is_gguf_spec(file_name@),
{
    let name = chars_of(file_name);
    match extension_of(&name) {
        Some(e) => eq_ci(&e, "gguf"),
        None => false,
    }
}

/// `Option<i32>` as `Debug` writes it.
pub open spec fn exit_code_debug(code: Option<i32>) -> Seq<char> {
    match code {
        Some(c) => "Some("@ + signed_decimal(c as int) + ")"@,
        None => "None"@,
    }
}

/// The error of a failed `llama-cli` run: its standard error, else its
/// standard output (both trimmed), else its exit code.
pub open spec fn llama_failure_spec(stderr: Seq<char>, stdout: Seq<char>, code: Option<i32>) -> Seq<char> {
    "llama-cli failed: "@ + if trim_seq(stderr).len() > 0 {
        trim_seq(stderr)
    } else if trim_seq(stdout).len() > 0 {
        trim_seq(stdout)
    } else {
        "exit code "@ + exit_code_debug(code)
    }
}

/// The error of a failed `llama-cli` run.
pub fn llama_failure_message(stderr: &str, stdout: &str, code: Option<i32>) -> (r: String)
    ensures
        r@ == llama_failure_spec(stderr@, stdout@, code),
{
    let mut r: Vec<char> = chars_of("llama-cli failed: ");
    let e = trim_chars(&chars_of(stderr));
    let o = trim_chars(&chars_of(stdout));
    if e.len() > 0 {
        push_all(&mut r, &e);
    } else if o.len() > 0 {
        push_all(&mut r, &o);
    } else {
        let mut d: Vec<char> = chars_of("exit code ");
        match code {
            Some(c) => {
                push_all(&mut d, &chars_of("Some("));
                let n = i64_to_string(c as i64);
                push_all(&mut d, &chars_of(n.as_str()));
                push_all(&mut d, &chars_of(")"));
            },
            None => {
                push_all(&mut d, &chars_of("None"));
            },
        }
        push_all(&mut r, &d);
    }
    string_from_chars(&r)
}

} // verus!
