use crate::text::{
    clone_opt, concat3, lines, lines_of, opt_text, parse_u32, strip, strip_chars, texts, trim,
    trimmed, unsigned_of, CharClass, chars_of, string_of,
};
use vstd::prelude::*;

verus! {

/// Names what the `regex` crate finds: for a pattern and a text, the capture groups
/// of the leftmost match. Group 0 is the whole match, and a group that took no part
/// in the match is `None`. Where the pattern does not compile, or nothing in the
/// text matches, there are no groups at all.
pub uninterp spec fn regex_captures(pattern: Seq<char>, text: Seq<char>) -> Option<
    Seq<Option<Seq<char>>>,
>;

/// Names what the `regex` crate finds when it walks a text: the capture groups of
/// each match of the pattern, leftmost first, no two matches overlapping. Where the
/// pattern does not compile there are none.
pub uninterp spec fn regex_all_captures(pattern: Seq<char>, text: Seq<char>) -> Seq<
    Seq<Option<Seq<char>>>,
>;

/// The character sequences that a vector of optional strings holds.
pub open spec fn opt_texts(v: Seq<Option<String>>) -> Seq<Option<Seq<char>>> {
    Seq::new(v.len(), |i: int| opt_text(v[i]))
}

/// The groups of each match in a vector of matches.
pub open spec fn match_texts(v: Seq<Vec<Option<String>>>) -> Seq<Seq<Option<Seq<char>>>> {
    Seq::new(v.len(), |i: int| opt_texts(v[i]@))
}

/// Group `i` of a match, where the match has such a group and it took part.
pub open spec fn group_of(caps: Option<Seq<Option<Seq<char>>>>, i: int) -> Option<Seq<char>> {
    match caps {
        Some(g) => if 0 <= i < g.len() {
            g[i]
        } else {
            None
        },
        None => None,
    }
}

/// `Regex::new` on the pattern, then `Regex::captures` on the text: the groups of the
/// leftmost match, each as an owned string. `None` where the pattern is refused or
/// nothing matches. The contract names the result and claims nothing more.
#[verifier::external_body]
pub(crate) fn first_captures(pattern: &str, text: &str) -> (r: Option<Vec<Option<String>>>)
    ensures
        match r {
            Some(v) => regex_captures(pattern@, text@) == Some(opt_texts(v@)),
            None => regex_captures(pattern@, text@) is None,
        },
{
    let re = regex::Regex::new(pattern).ok()?;
    let caps = re.captures(text)?;
    Some(caps.iter().map(|m| m.map(|x| x.as_str().to_string())).collect())
}

/// `Regex::new` on the pattern, then `Regex::captures_iter` on the text: the groups
/// of every match in turn. Empty where the pattern is refused. The contract names
/// the result and claims nothing more.
#[verifier::external_body]
pub(crate) fn all_captures(pattern: &str, text: &str) -> (r: Vec<Vec<Option<String>>>)
    ensures
        match_texts(r@) == regex_all_captures(pattern@, text@),
{
    match regex::Regex::new(pattern) {
        Ok(re) => re
            .captures_iter(text)
            .map(|c| c.iter().map(|m| m.map(|x| x.as_str().to_string())).collect())
            .collect(),
        Err(_) => Vec::new(),
    }
}

/// Whether `c` has a meaning of its own in a pattern.
pub open spec fn is_meta(c: char) -> bool {
    c == '\\' || c == '.' || c == '+' || c == '*' || c == '?' || c == '(' || c == ')' || c == '|'
        || c == '[' || c == ']' || c == '{' || c == '}' || c == '^' || c == '$' || c == '#' || c
        == '&' || c == '-' || c == '~'
}

/// `s` with a backslash put before each character that has a meaning of its own in
/// a pattern, so that the whole matches `s` literally.
pub open spec fn escaped(s: Seq<char>) -> Seq<char>
    decreases s.len(),
{
    if s.len() == 0 {
        seq![]
    } else if is_meta(s.last()) {
        escaped(s.drop_last()) + seq!['\\', s.last()]
    } else {
        escaped(s.drop_last()).push(s.last())
    }
}

/// `regex::escape`: the text with a backslash before each of the eighteen
/// characters that the pattern syntax gives a meaning to, and every other
/// character unchanged.
#[verifier::external_body]
pub(crate) fn escape(s: &str) -> (r: String)
    ensures
        r@ == escaped(s@),
{
    regex::escape(s)
}

/// Picks group `i` out of the groups of a match.
pub fn take_group(caps: &Option<Vec<Option<String>>>, i: usize) -> (r: Option<String>)
    ensures
        opt_text(r) == match *caps {
            Some(v) => group_of(Some(opt_texts(v@)), i as int),
            None => None,
        },
{
    match caps {
        Some(v) => {
            if i < v.len() {
                clone_opt(&v[i])
            } else {
                None
            }
        },
        None => None,
    }
}

/// Group `i` of the leftmost match of `pattern` in `text`.
pub fn capture(pattern: &str, text: &str, i: usize) -> (r: Option<String>)
    ensures
        opt_text(r) == group_of(regex_captures(pattern@, text@), i as int),
{
    let caps = first_captures(pattern, text);
    take_group(&caps, i)
}

/// The pattern that finds the line `key=value` in a process environment.
pub open spec fn env_var_pattern(key: Seq<char>) -> Seq<char> {
    "(?m)^"@ + escaped(key) + "=([^\n]+)"@
}

/// The value of the variable `key` in a process environment given as lines
/// `KEY=VALUE`: what stands after the first `key=` that begins a line.
pub fn extract_env_var(environ_output: &str, key: &str) -> (r: Option<String>)
    ensures
        opt_text(r) == group_of(regex_captures(env_var_pattern(key@), environ_output@), 1),
{
    let quoted = escape(key);
    let pattern = concat3("(?m)^", quoted.as_str(), "=([^\n]+)");
    capture(pattern.as_str(), environ_output, 1)
}

/// The process id that a captured column writes, if it writes one.
pub open spec fn pid_of(captured: Option<Seq<char>>) -> Option<u32> {
    match captured {
        Some(t) => match unsigned_of(t, 0xFFFF_FFFF) {
            Some(n) => Some(n as u32),
            None => None,
        },
        None => None,
    }
}

/// The process id that a captured column writes, if it writes one.
pub fn pid_from_capture(captured: &Option<String>) -> (r: Option<u32>)
    ensures
        r == pid_of(opt_text(*captured)),
{
    match captured {
        Some(t) => parse_u32(t.as_str()),
        None => None,
    }
}

/// The process id that group 1 of `pattern` captures in `line`.
pub open spec fn line_pid(pattern: Seq<char>, line: Seq<char>) -> Option<u32> {
    pid_of(group_of(regex_captures(pattern, line), 1))
}

/// The process id of the first of `lines` that has one.
pub open spec fn first_pid(pattern: Seq<char>, lines: Seq<Seq<char>>) -> Option<u32>
    decreases lines.len(),
{
    if lines.len() == 0 {
        None
    } else {
        match line_pid(pattern, lines[0]) {
            Some(p) => Some(p),
            None => first_pid(pattern, lines.drop_first()),
        }
    }
}

/// The process id in the output of a process lister. With `first_only` only the
/// first line counts; else the first line that holds an id decides.
pub open spec fn pid_in_output(output: Seq<char>, pattern: Seq<char>, first_only: bool) -> Option<
    u32,
> {
    let all = lines_of(output);
    if first_only {
        if all.len() > 0 {
            line_pid(pattern, all[0])
        } else {
            None
        }
    } else {
        first_pid(pattern, all)
    }
}

/// The process id in the output of a process lister: group 1 of `regex_pattern`,
/// read as a number.
pub fn extract_pid_from_output(output: &str, regex_pattern: &str, first_only: bool) -> (r: Option<
    u32,
>)
    ensures
        r == pid_in_output(output@, regex_pattern@, first_only),
{
    let all = lines(output);
    if first_only {
        if all.len() > 0 {
            let c = capture(regex_pattern, all[0].as_str(), 1);
            pid_from_capture(&c)
        } else {
            None
        }
    } else {
        let mut i: usize = 0;
        assert(texts(all@).skip(0) == texts(all@));
        while i < all.len()
            invariant
                i <= all.len(),
                !first_only,
                texts(all@) == lines_of(output@),
                first_pid(regex_pattern@, texts(all@)) == first_pid(
                    regex_pattern@,
                    texts(all@).skip(i as int),
                ),
            decreases all.len() - i,
        {
            let c = capture(regex_pattern, all[i].as_str(), 1);
            let p = pid_from_capture(&c);
            assert(texts(all@).skip(i as int)[0] == all@[i as int]@);
            if p.is_some() {
                return p;
            }
            assert(texts(all@).skip(i as int).drop_first() == texts(all@).skip(i + 1));
            i += 1;
        }
        None
    }
}

/// A captured value made ready for use: white space removed from both ends, then
/// every double quote at either end.
pub open spec fn cleaned(captured: Seq<char>) -> Seq<char> {
    strip(trimmed(captured), CharClass::Only('"'))
}

/// A captured value made ready for use.
pub fn clean_value(captured: &str) -> (r: String)
    ensures
        r@ == cleaned(captured@),
{
    let t = trim(captured);
    let v = chars_of(t.as_str());
    let u = strip_chars(&v, CharClass::Only('"'));
    string_of(&u)
}

/// An optional captured value made ready for use.
pub open spec fn cleaned_opt(captured: Option<Seq<char>>) -> Option<Seq<char>> {
    match captured {
        Some(t) => Some(cleaned(t)),
        None => None,
    }
}

/// The pattern of an assignment line, whatever its key.
pub open spec fn assignment_pattern() -> Seq<char> {
    "^\\s*[^=\\s]+\\s*=\\s*(.*?)\\s*$"@
}

/// The pattern of a line that assigns to `key`.
pub open spec fn key_pattern(key: Seq<char>) -> Seq<char> {
    "^\\s*"@ + escaped(key) + "\\s*=\\s*(.*?)\\s*$"@
}

/// The right-hand side of an assignment line `key = value`, made ready for use.
pub fn extract_value_from_line(line: &str) -> (r: Option<String>)
    ensures
        opt_text(r) == cleaned_opt(group_of(regex_captures(assignment_pattern(), line@), 1)),
{
    match capture("^\\s*[^=\\s]+\\s*=\\s*(.*?)\\s*$", line, 1) {
        Some(m) => Some(clean_value(m.as_str())),
        None => None,
    }
}

/// The right-hand side of a line that assigns to `key`, made ready for use.
pub fn extract_key_value(line: &str, key: &str) -> (r: Option<String>)
    ensures
        opt_text(r) == cleaned_opt(group_of(regex_captures(key_pattern(key@), line@), 1)),
{
    let quoted = escape(key);
    let pattern = concat3("^\\s*", quoted.as_str(), "\\s*=\\s*(.*?)\\s*$");
    match capture(pattern.as_str(), line, 1) {
        Some(m) => Some(clean_value(m.as_str())),
        None => None,
    }
}

} // verus!
