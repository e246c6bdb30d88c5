use vstd::prelude::*;
use vstd::std_specs::iter::IteratorSpec;
use vstd::string::StringSliceAdditionalSpecFns;
use vstd::utf8::{decode_utf8, encode_utf8, is_char_boundary};

verus! {

/// `String::push` appends one character to the end of the string.
pub assume_specification[ String::push ](s: &mut String, ch: char)
    ensures
        final(s)@ == old(s)@.push(ch),
;

/// The characters of `s`, in order.
pub fn chars_of(s: &str) -> (r: Vec<char>)
    ensures
        r@ == s@,
{
    let mut out: Vec<char> = Vec::new();
    let chars_it = s.chars();
    for c in it: chars_it
        invariant
            it.seq() == s@,
            out@ == it.seq().take(it.index() as int),
    {
        out.push(c);
    }
    out
}

/// The string whose characters are `v`, in order.
pub fn string_of(v: &Vec<char>) -> (r: String)
    ensures
        r@ == v@,
{
    let mut out = String::new();
    let mut i: usize = 0;
    while i < v.len()
        invariant
            i <= v.len(),
            out@ == v@.take(i as int),
        decreases v.len() - i,
    {
        out.push(v[i]);
        i += 1;
    }
    assert(v@.take(v.len() as int) == v@);
    out
}

} // verus!
verus! {

/// Whether two string slices hold the same characters.
pub fn same_text(a: &str, b: &str) -> (r: bool)
    ensures
        r == (a@ == b@),
{
    let x = a.to_owned();
    let y = b.to_owned();
    x == y
}

/// A set of characters that trimming removes.
#[derive(Clone, Copy, Debug)]
pub enum CharClass {
    /// Unicode white space.
    Whitespace,
    /// One given character.
    Only(char),
}

/// Unicode white space: the code points with the `White_Space` property.
pub open spec fn is_space(c: char) -> bool {
    let n = c as u32;
    (0x09 <= n && n <= 0x0D) || n == 0x20 || n == 0x85 || n == 0xA0 || n == 0x1680 || (0x2000 <= n
        && n <= 0x200A) || n == 0x2028 || n == 0x2029 || n == 0x202F || n == 0x205F || n == 0x3000
}

/// Decides `is_space`.
pub fn is_space_char(c: char) -> (b: bool)
    ensures
        b == is_space(c),
{
    let n: u32 = c as u32;
    (0x09 <= n && n <= 0x0D) || n == 0x20 || n == 0x85 || n == 0xA0 || n == 0x1680 || (0x2000 <= n
        && n <= 0x200A) || n == 0x2028 || n == 0x2029 || n == 0x202F || n == 0x205F || n == 0x3000
}

impl CharClass {
    /// Membership of `c` in the class.
    pub open spec fn has(self, c: char) -> bool {
        match self {
            CharClass::Whitespace => is_space(c),
            CharClass::Only(d) => c == d,
        }
    }

    /// Decides `has`.
    pub fn holds(&self, c: char) -> (b: bool)
        ensures
            b == self.has(c),
    {
        match self {
            CharClass::Whitespace => is_space_char(c),
            CharClass::Only(d) => c == *d,
        }
    }
}

/// `s` without its longest prefix of characters in `k`.
pub open spec fn strip_front(s: Seq<char>, k: CharClass) -> Seq<char>
    decreases s.len(),
{
    if s.len() > 0 && k.has(s[0]) {
        strip_front(s.drop_first(), k)
    } else {
        s
    }
}

/// `s` without its longest suffix of characters in `k`.
pub open spec fn strip_back(s: Seq<char>, k: CharClass) -> Seq<char>
    decreases s.len(),
{
    if s.len() > 0 && k.has(s.last()) {
        strip_back(s.drop_last(), k)
    } else {
        s
    }
}

/// `s` with the characters of `k` removed from both ends.
pub open spec fn strip(s: Seq<char>, k: CharClass) -> Seq<char> {
    strip_back(strip_front(s, k), k)
}

/// `s` with white space removed from both ends.
pub open spec fn trimmed(s: Seq<char>) -> Seq<char> {
    strip(s, CharClass::Whitespace)
}

/// The part of `v` between `from` and `to`.
pub fn slice_chars(v: &Vec<char>, from: usize, to: usize) -> (r: Vec<char>)
    requires
        from <= to <= v.len(),
    ensures
        r@ == v@.subrange(from as int, to as int),
{
    let mut out: Vec<char> = Vec::new();
    let mut i: usize = from;
    while i < to
        invariant
            from <= i <= to <= v.len(),
            out@ == v@.subrange(from as int, i as int),
        decreases to - i,
    {
        out.push(v[i]);
        i += 1;
    }
    out
}

/// First index at or after which no leading character of class `k` remains.
pub fn front_cut(v: &Vec<char>, k: CharClass) -> (i: usize)
    ensures
        i <= v.len(),
        strip_front(v@, k) == v@.skip(i as int),
{
    let mut i: usize = 0;
    assert(v@.skip(0) == v@);
    while i < v.len() && k.holds(v[i])
        invariant
            i <= v.len(),
            strip_front(v@, k) == strip_front(v@.skip(i as int), k),
        decreases v.len() - i,
    {
        assert(v@.skip(i as int).drop_first() == v@.skip(i + 1));
        i += 1;
    }
    i
}

/// End index before which no trailing character of class `k` remains, not below `from`.
pub fn back_cut(v: &Vec<char>, from: usize, k: CharClass) -> (j: usize)
    requires
        from <= v.len(),
    ensures
        from <= j <= v.len(),
        strip_back(v@.skip(from as int), k) == v@.subrange(from as int, j as int),
{
    let mut j: usize = v.len();
    assert(v@.subrange(from as int, j as int) == v@.skip(from as int));
    while j > from && k.holds(v[j - 1])
        invariant
            from <= j <= v.len(),
            strip_back(v@.skip(from as int), k) == strip_back(
                v@.subrange(from as int, j as int),
                k,
            ),
        decreases j,
    {
        assert(v@.subrange(from as int, j as int).drop_last() == v@.subrange(
            from as int,
            j - 1,
        ));
        j -= 1;
    }
    j
}

/// Removes the characters of `k` from both ends of `v`.
pub fn strip_chars(v: &Vec<char>, k: CharClass) -> (r: Vec<char>)
    ensures
        r@ == strip(v@, k),
{
    let i = front_cut(v, k);
    let j = back_cut(v, i, k);
    slice_chars(v, i, j)
}

/// `s` with white space removed from both ends.
pub fn trim(s: &str) -> (r: String)
    ensures
        r@ == trimmed(s@),
{
    let v = chars_of(s);
    let t = strip_chars(&v, CharClass::Whitespace);
    string_of(&t)
}

/// `s` with white space removed from its end.
pub fn trim_end(s: &str) -> (r: String)
    ensures
        r@ == strip_back(s@, CharClass::Whitespace),
{
    let v = chars_of(s);
    let j = back_cut(&v, 0, CharClass::Whitespace);
    assert(v@.skip(0) == v@);
    let t = slice_chars(&v, 0, j);
    string_of(&t)
}

/// `s` with every leading and trailing `c` removed.
pub fn trim_matches(s: &str, c: char) -> (r: String)
    ensures
        r@ == strip(s@, CharClass::Only(c)),
{
    let v = chars_of(s);
    let t = strip_chars(&v, CharClass::Only(c));
    string_of(&t)
}

/// Whether `pat` stands in `s` at index `i`.
pub open spec fn occurs_at(s: Seq<char>, pat: Seq<char>, i: int) -> bool {
    0 <= i && i + pat.len() <= s.len() && s.subrange(i, i + pat.len()) == pat
}

/// Whether `pat` stands somewhere in `s`.
pub open spec fn has_substring(s: Seq<char>, pat: Seq<char>) -> bool {
    exists|i: int| occurs_at(s, pat, i)
}

/// Whether `s` begins with `pat`.
pub open spec fn has_prefix(s: Seq<char>, pat: Seq<char>) -> bool {
    occurs_at(s, pat, 0)
}

/// Whether `s` ends with `pat`.
pub open spec fn has_suffix(s: Seq<char>, pat: Seq<char>) -> bool {
    occurs_at(s, pat, s.len() - pat.len())
}

/// Decides `occurs_at`.
pub fn matches_at(v: &Vec<char>, pat: &Vec<char>, i: usize) -> (b: bool)
    ensures
        b == occurs_at(v@, pat@, i as int),
{
    if pat.len() > v.len() || i > v.len() - pat.len() {
        return false;
    }
    let mut j: usize = 0;
    while j < pat.len()
        invariant
            j <= pat.len(),
            i + pat.len() <= v.len(),
            v@.subrange(i as int, i + j) == pat@.take(j as int),
        decreases pat.len() - j,
    {
        if v[i + j] != pat[j] {
            assert(v@.subrange(i as int, i + pat.len())[j as int] != pat@[j as int]);
            return false;
        }
        assert(v@.subrange(i as int, i + j + 1) == v@.subrange(i as int, i + j).push(
            v@[i + j],
        ));
        assert(pat@.take(j + 1) == pat@.take(j as int).push(pat@[j as int]));
        j += 1;
    }
    assert(pat@.take(pat.len() as int) == pat@);
    true
}

/// The first index at or after `from` where `pat` stands in `v`.
pub fn find_from(v: &Vec<char>, pat: &Vec<char>, from: usize) -> (r: Option<usize>)
    ensures
        match r {
            Some(i) => from <= i && occurs_at(v@, pat@, i as int) && forall|j: int|
                from <= j < i ==> !occurs_at(v@, pat@, j),
            None => forall|j: int| from <= j ==> !occurs_at(v@, pat@, j),
        },
{
    if from > v.len() {
        return None;
    }
    let mut i: usize = from;
    while i < v.len()
        invariant
            from <= i <= v.len(),
            forall|j: int| from <= j < i ==> !occurs_at(v@, pat@, j),
        decreases v.len() - i,
    {
        if matches_at(v, pat, i) {
            return Some(i);
        }
        i += 1;
    }
    if matches_at(v, pat, i) {
        Some(i)
    } else {
        None
    }
}

/// Whether `pat` stands somewhere in `s`.
pub fn contains(s: &str, pat: &str) -> (b: bool)
    ensures
        b == has_substring(s@, pat@),
{
    let v = chars_of(s);
    let p = chars_of(pat);
    find_from(&v, &p, 0).is_some()
}

/// Whether `s` begins with `pat`.
pub fn starts_with(s: &str, pat: &str) -> (b: bool)
    ensures
        b == has_prefix(s@, pat@),
{
    let v = chars_of(s);
    let p = chars_of(pat);
    matches_at(&v, &p, 0)
}

/// Whether `s` ends with `pat`.
pub fn ends_with(s: &str, pat: &str) -> (b: bool)
    ensures
        b == has_suffix(s@, pat@),
{
    let v = chars_of(s);
    let p = chars_of(pat);
    if p.len() > v.len() {
        false
    } else {
        matches_at(&v, &p, v.len() - p.len())
    }
}

} // verus!
verus! {

/// The character sequences that a vector of strings holds.
pub open spec fn texts(v: Seq<String>) -> Seq<Seq<char>> {
    Seq::new(v.len(), |i: int| v[i]@)
}

/// The character sequence of an optional string.
pub open spec fn opt_text(o: Option<String>) -> Option<Seq<char>> {
    match o {
        Some(s) => Some(s@),
        None => None,
    }
}

/// The character sequence of an optional string slice.
pub open spec fn opt_str(o: Option<&str>) -> Option<Seq<char>> {
    match o {
        Some(s) => Some(s@),
        None => None,
    }
}

/// A line without the carriage return that may end it.
pub open spec fn strip_cr(line: Seq<char>) -> Seq<char> {
    if line.len() > 0 && line.last() == '\r' {
        line.drop_last()
    } else {
        line
    }
}

/// The lines of `s` after the characters `cur` of an unfinished line.
pub open spec fn lines_after(s: Seq<char>, cur: Seq<char>) -> Seq<Seq<char>>
    decreases s.len(),
{
    if s.len() == 0 {
        if cur.len() > 0 {
            seq![cur]
        } else {
            seq![]
        }
    } else if s[0] == '\n' {
        seq![strip_cr(cur)] + lines_after(s.drop_first(), seq![])
    } else {
        lines_after(s.drop_first(), cur.push(s[0]))
    }
}

/// The lines of `s`: a line ends at a line feed, or at a carriage return directly
/// before a line feed; the last line needs no line ending.
pub open spec fn lines_of(s: Seq<char>) -> Seq<Seq<char>> {
    lines_after(s, seq![])
}

/// The pieces of `s` between occurrences of `c`, after the characters `cur` of an
/// unfinished piece.
pub open spec fn pieces_after(s: Seq<char>, c: char, cur: Seq<char>) -> Seq<Seq<char>>
    decreases s.len(),
{
    if s.len() == 0 {
        seq![cur]
    } else if s[0] == c {
        seq![cur] + pieces_after(s.drop_first(), c, seq![])
    } else {
        pieces_after(s.drop_first(), c, cur.push(s[0]))
    }
}

/// The pieces of `s` between occurrences of `c`; there is always at least one.
pub open spec fn split_on(s: Seq<char>, c: char) -> Seq<Seq<char>> {
    pieces_after(s, c, seq![])
}

/// The maximal runs of `s` without white space, after the characters `cur` of an
/// unfinished run.
pub open spec fn words_after(s: Seq<char>, cur: Seq<char>) -> Seq<Seq<char>>
    decreases s.len(),
{
    if s.len() == 0 {
        if cur.len() > 0 {
            seq![cur]
        } else {
            seq![]
        }
    } else if is_space(s[0]) {
        if cur.len() > 0 {
            seq![cur] + words_after(s.drop_first(), seq![])
        } else {
            words_after(s.drop_first(), seq![])
        }
    } else {
        words_after(s.drop_first(), cur.push(s[0]))
    }
}

/// The maximal runs of `s` without white space.
pub open spec fn words_of(s: Seq<char>) -> Seq<Seq<char>> {
    words_after(s, seq![])
}

/// Pushes the string of `cur` onto `out`.
fn push_text(out: &mut Vec<String>, cur: &Vec<char>)
    ensures
        texts(final(out)@) == texts(old(out)@).push(cur@),
{
    let s = string_of(cur);
    out.push(s);
    assert(texts(out@) =~= texts(old(out)@).push(cur@));
}

/// The lines of `s`.
pub fn lines(s: &str) -> (r: Vec<String>)
    ensures
        texts(r@) == lines_of(s@),
{
    let v = chars_of(s);
    let mut out: Vec<String> = Vec::new();
    let mut cur: Vec<char> = Vec::new();
    let mut i: usize = 0;
    assert(v@.skip(0) == v@);
    assert(texts(out@) =~= seq![]);
    while i < v.len()
        invariant
            i <= v.len(),
            lines_of(v@) == texts(out@) + lines_after(v@.skip(i as int), cur@),
        decreases v.len() - i,
    {
        assert(v@.skip(i as int).drop_first() == v@.skip(i + 1));
        if v[i] == '\n' {
            let n = cur.len();
            if n > 0 && cur[n - 1] == '\r' {
                let line = slice_chars(&cur, 0, n - 1);
                assert(line@ == strip_cr(cur@));
                push_text(&mut out, &line);
            } else {
                push_text(&mut out, &cur);
            }
            cur = Vec::new();
            assert(lines_of(v@) =~= texts(out@) + lines_after(v@.skip(i + 1), cur@));
        } else {
            cur.push(v[i]);
        }
        i += 1;
    }
    if cur.len() > 0 {
        push_text(&mut out, &cur);
    }
    assert(lines_of(v@) =~= texts(out@));
    out
}

/// The pieces of `s` between occurrences of `c`.
pub fn split(s: &str, c: char) -> (r: Vec<String>)
    ensures
        texts(r@) == split_on(s@, c),
{
    let v = chars_of(s);
    let mut out: Vec<String> = Vec::new();
    let mut cur: Vec<char> = Vec::new();
    let mut i: usize = 0;
    assert(v@.skip(0) == v@);
    assert(texts(out@) =~= seq![]);
    while i < v.len()
        invariant
            i <= v.len(),
            split_on(v@, c) == texts(out@) + pieces_after(v@.skip(i as int), c, cur@),
        decreases v.len() - i,
    {
        assert(v@.skip(i as int).drop_first() == v@.skip(i + 1));
        if v[i] == c {
            push_text(&mut out, &cur);
            cur = Vec::new();
            assert(split_on(v@, c) =~= texts(out@) + pieces_after(v@.skip(i + 1), c, cur@));
        } else {
            cur.push(v[i]);
        }
        i += 1;
    }
    push_text(&mut out, &cur);
    assert(split_on(v@, c) =~= texts(out@));
    out
}

/// The maximal runs of `s` without white space.
pub fn split_whitespace(s: &str) -> (r: Vec<String>)
    ensures
        texts(r@) == words_of(s@),
{
    let v = chars_of(s);
    let mut out: Vec<String> = Vec::new();
    let mut cur: Vec<char> = Vec::new();
    let mut i: usize = 0;
    assert(v@.skip(0) == v@);
    assert(texts(out@) =~= seq![]);
    while i < v.len()
        invariant
            i <= v.len(),
            words_of(v@) == texts(out@) + words_after(v@.skip(i as int), cur@),
        decreases v.len() - i,
    {
        assert(v@.skip(i as int).drop_first() == v@.skip(i + 1));
        if is_space_char(v[i]) {
            if cur.len() > 0 {
                push_text(&mut out, &cur);
                cur = Vec::new();
                assert(words_of(v@) =~= texts(out@) + words_after(v@.skip(i + 1), cur@));
            } else {
                assert(cur@ =~= seq![]);
            }
        } else {
            cur.push(v[i]);
        }
        i += 1;
    }
    if cur.len() > 0 {
        push_text(&mut out, &cur);
    }
    assert(words_of(v@) =~= texts(out@));
    out
}

/// The index of the first `c` in `s`, or the length of `s` where there is none.
pub open spec fn first_index(s: Seq<char>, c: char) -> nat
    decreases s.len(),
{
    if s.len() == 0 {
        0
    } else if s[0] == c {
        0
    } else {
        1 + first_index(s.drop_first(), c)
    }
}

/// `first_index` is at most the length, and marks the first occurrence.
pub proof fn lemma_first_index(s: Seq<char>, c: char)
    ensures
        first_index(s, c) <= s.len(),
        first_index(s, c) < s.len() ==> s[first_index(s, c) as int] == c,
        forall|j: int| 0 <= j < first_index(s, c) ==> s[j] != c,
    decreases s.len(),
{
    if s.len() > 0 && s[0] != c {
        lemma_first_index(s.drop_first(), c);
        let k = first_index(s.drop_first(), c);
        assert forall|j: int| 0 <= j < first_index(s, c) implies s[j] != c by {
            if j > 0 {
                assert(s.drop_first()[j - 1] == s[j]);
            }
        }
    }
}

/// The index of the first `c` in `v`.
pub fn position(v: &Vec<char>, c: char) -> (r: Option<usize>)
    ensures
        match r {
            Some(i) => i < v.len() && i == first_index(v@, c),
            None => first_index(v@, c) == v.len(),
        },
{
    let mut i: usize = 0;
    assert(v@.skip(0) == v@);
    while i < v.len()
        invariant
            i <= v.len(),
            first_index(v@, c) == i + first_index(v@.skip(i as int), c),
        decreases v.len() - i,
    {
        if v[i] == c {
            return Some(i);
        }
        assert(v@.skip(i as int).drop_first() == v@.skip(i + 1));
        i += 1;
    }
    None
}

/// `s` with every occurrence of the non-empty `from` replaced by `to`, left to right.
pub open spec fn replace_all(s: Seq<char>, from: Seq<char>, to: Seq<char>) -> Seq<char>
    decreases s.len(),
{
    if from.len() == 0 || s.len() < from.len() {
        s
    } else if has_prefix(s, from) {
        to + replace_all(s.skip(from.len() as int), from, to)
    } else {
        seq![s[0]] + replace_all(s.drop_first(), from, to)
    }
}

/// Appends the characters of `extra` to `out`.
pub fn append_chars(out: &mut Vec<char>, extra: &Vec<char>)
    ensures
        final(out)@ == old(out)@ + extra@,
{
    let mut i: usize = 0;
    while i < extra.len()
        invariant
            i <= extra.len(),
            out@ == old(out)@ + extra@.take(i as int),
        decreases extra.len() - i,
    {
        out.push(extra[i]);
        assert(extra@.take(i + 1) == extra@.take(i as int).push(extra@[i as int]));
        i += 1;
    }
    assert(extra@.take(extra.len() as int) == extra@);
}

/// `s` with every occurrence of `from` replaced by `to`.
pub fn replace(s: &str, from: &str, to: &str) -> (r: String)
    requires
        from@.len() > 0,
    ensures
        r@ == replace_all(s@, from@, to@),
{
    let v = chars_of(s);
    let p = chars_of(from);
    let t = chars_of(to);
    let mut out: Vec<char> = Vec::new();
    let mut i: usize = 0;
    assert(v@.skip(0) == v@);
    while i < v.len()
        invariant
            i <= v.len(),
            p@.len() > 0,
            replace_all(v@, p@, t@) == out@ + replace_all(v@.skip(i as int), p@, t@),
        decreases v.len() - i,
    {
        let ghost rest = v@.skip(i as int);
        if matches_at(&v, &p, i) {
            assert(rest.subrange(0, p@.len() as int) == v@.subrange(i as int, i + p@.len()));
            assert(rest.skip(p@.len() as int) == v@.skip(i + p@.len()));
            append_chars(&mut out, &t);
            i += p.len();
        } else {
            assert(rest.len() >= p@.len() ==> rest.subrange(0, p@.len() as int) == v@.subrange(
                i as int,
                i + p@.len(),
            ));
            assert(rest.drop_first() == v@.skip(i + 1));
            assert(rest == seq![rest[0]] + rest.drop_first());
            out.push(v[i]);
            i += 1;
        }
    }
    assert(replace_all(v@.skip(v.len() as int), p@, t@) == v@.skip(v.len() as int));
    assert(v@.skip(v.len() as int) =~= Seq::<char>::empty());
    string_of(&out)
}

} // verus!
verus! {

/// Whether `c` is an ASCII decimal digit.
pub open spec fn is_digit(c: char) -> bool {
    0x30 <= c as u32 && c as u32 <= 0x39
}

/// The number that the ASCII digit `c` stands for.
pub open spec fn digit_value(c: char) -> nat {
    (c as u32 - 0x30) as nat
}

/// Whether every character of `s` is an ASCII decimal digit.
pub open spec fn all_digits(s: Seq<char>) -> bool {
    forall|i: int| 0 <= i < s.len() ==> is_digit(#[trigger] s[i])
}

/// The number that the decimal digits `s` write.
pub open spec fn decimal_value(s: Seq<char>) -> nat
    decreases s.len(),
{
    if s.len() == 0 {
        0
    } else {
        decimal_value(s.drop_last()) * 10 + digit_value(s.last())
    }
}

/// `s` without a plus sign that may lead it.
pub open spec fn unsigned_body(s: Seq<char>) -> Seq<char> {
    if s.len() > 0 && s[0] == '+' {
        s.drop_first()
    } else {
        s
    }
}

/// The number that `s` writes as an unsigned decimal not above `max`: an optional
/// plus sign, then one digit or more.
pub open spec fn unsigned_of(s: Seq<char>, max: nat) -> Option<nat> {
    let body = unsigned_body(s);
    if body.len() > 0 && all_digits(body) && decimal_value(body) <= max {
        Some(decimal_value(body))
    } else {
        None
    }
}

/// A longer run of digits writes no smaller number than its prefix.
pub proof fn lemma_decimal_value_prefix(s: Seq<char>, j: int)
    requires
        0 <= j <= s.len(),
    ensures
        decimal_value(s.take(j)) <= decimal_value(s),
    decreases s.len() - j,
{
    if j < s.len() {
        lemma_decimal_value_prefix(s, j + 1);
        assert(s.take(j + 1).drop_last() == s.take(j));
    } else {
        assert(s.take(j) == s);
    }
}

/// Parses an unsigned decimal number not above `max`.
pub fn parse_bounded(s: &str, max: u64) -> (r: Option<u64>)
    ensures
        match r {
            Some(n) => unsigned_of(s@, max as nat) == Some(n as nat),
            None => unsigned_of(s@, max as nat) is None,
        },
{
    let v = chars_of(s);
    let start: usize = if v.len() > 0 && v[0] == '+' {
        1
    } else {
        0
    };
    let ghost body = unsigned_body(v@);
    assert(body == v@.skip(start as int));
    if start == v.len() {
        return None;
    }
    let mut acc: u64 = 0;
    let mut i: usize = start;
    assert(body.take(0) =~= seq![]);
    while i < v.len()
        invariant
            start <= i <= v.len(),
            body == v@.skip(start as int),
            body == unsigned_body(s@),
            all_digits(body.take(i - start)),
            acc as nat == decimal_value(body.take(i - start)),
            acc <= max,
        decreases v.len() - i,
    {
        let n: u32 = v[i] as u32;
        let ghost next = body.take(i - start + 1);
        assert(next.drop_last() == body.take(i - start));
        assert(next.last() == v@[i as int]);
        if n < 0x30 || n > 0x39 {
            assert(!is_digit(body[i - start]));
            return None;
        }
        let d: u64 = (n - 0x30) as u64;
        if d > max || acc > (max - d) / 10 {
            proof {
                assert(decimal_value(next) > max);
                lemma_decimal_value_prefix(body, i - start + 1);
            }
            return None;
        }
        acc = acc * 10 + d;
        assert forall|k: int| 0 <= k < next.len() implies is_digit(#[trigger] next[k]) by {
            if k < next.len() - 1 {
                assert(next[k] == body.take(i - start)[k]);
            }
        }
        i += 1;
    }
    assert(body.take(v.len() - start) == body);
    Some(acc)
}

/// Parses a `u16` as `str::parse` does.
pub fn parse_u16(s: &str) -> (r: Option<u16>)
    ensures
        match r {
            Some(n) => unsigned_of(s@, 0xFFFF) == Some(n as nat),
            None => unsigned_of(s@, 0xFFFF) is None,
        },
{
    match parse_bounded(s, 0xFFFF) {
        Some(n) => Some(n as u16),
        None => None,
    }
}

/// Parses a `u32` as `str::parse` does.
pub fn parse_u32(s: &str) -> (r: Option<u32>)
    ensures
        match r {
            Some(n) => unsigned_of(s@, 0xFFFF_FFFF) == Some(n as nat),
            None => unsigned_of(s@, 0xFFFF_FFFF) is None,
        },
{
    match parse_bounded(s, 0xFFFF_FFFF) {
        Some(n) => Some(n as u32),
        None => None,
    }
}

/// Parses a `u64` as `str::parse` does.
pub fn parse_u64(s: &str) -> (r: Option<u64>)
    ensures
        match r {
            Some(n) => unsigned_of(s@, u64::MAX as nat) == Some(n as nat),
            None => unsigned_of(s@, u64::MAX as nat) is None,
        },
{
    parse_bounded(s, u64::MAX)
}

/// The character that writes the digit `d`.
pub open spec fn digit_char(d: nat) -> char {
    ((d % 10) as u8 + 0x30u8) as char
}

/// The decimal digits that write `n`, without leading zeros.
pub open spec fn decimal_text(n: nat) -> Seq<char>
    decreases n,
{
    if n < 10 {
        seq![digit_char(n)]
    } else {
        decimal_text(n / 10).push(digit_char(n % 10))
    }
}

/// The reverse of a character vector.
pub fn reversed(v: &Vec<char>) -> (r: Vec<char>)
    ensures
        r@ == v@.reverse(),
{
    let mut out: Vec<char> = Vec::new();
    let mut i: usize = v.len();
    while i > 0
        invariant
            i <= v.len(),
            out@.len() == v.len() - i,
            forall|k: int| 0 <= k < out@.len() ==> out@[k] == v@[v.len() - 1 - k],
        decreases i,
    {
        i -= 1;
        out.push(v[i]);
    }
    assert(out@ =~= v@.reverse());
    out
}

/// The decimal digits of `n`, last digit first.
pub open spec fn decimal_digits_reversed(n: nat) -> Seq<char>
    decreases n,
{
    if n < 10 {
        seq![digit_char(n)]
    } else {
        seq![digit_char(n % 10)] + decimal_digits_reversed(n / 10)
    }
}

/// Reading the reversed digits backwards gives the decimal text.
pub proof fn lemma_decimal_digits_reversed(n: nat)
    ensures
        decimal_digits_reversed(n).reverse() == decimal_text(n),
    decreases n,
{
    if n >= 10 {
        lemma_decimal_digits_reversed(n / 10);
        let a = seq![digit_char(n % 10)];
        let b = decimal_digits_reversed(n / 10);
        assert((a + b).reverse() =~= b.reverse().push(digit_char(n % 10)));
    } else {
        assert(seq![digit_char(n)].reverse() =~= seq![digit_char(n)]);
    }
}

/// The decimal digits that write `n`.
pub fn u128_to_chars(n: u128) -> (r: Vec<char>)
    ensures
        r@ == decimal_text(n as nat),
{
    let mut rev: Vec<char> = Vec::new();
    let mut m: u128 = n;
    while m >= 10
        invariant
            decimal_digits_reversed(n as nat) == rev@ + decimal_digits_reversed(m as nat),
        decreases m,
    {
        let d: u8 = (m % 10) as u8;
        let ghost before = rev@;
        rev.push((d + 0x30u8) as char);
        assert(rev@ == before.push(digit_char((m % 10) as nat)));
        assert(rev@ + decimal_digits_reversed((m / 10) as nat) =~= before + (seq![
            digit_char((m % 10) as nat),
        ] + decimal_digits_reversed((m / 10) as nat)));
        m = m / 10;
    }
    let d: u8 = m as u8;
    rev.push((d + 0x30u8) as char);
    assert(rev@ =~= decimal_digits_reversed(n as nat));
    proof {
        lemma_decimal_digits_reversed(n as nat);
    }
    reversed(&rev)
}

/// The decimal text of `n`.
pub fn u64_to_string(n: u64) -> (r: String)
    ensures
        r@ == decimal_text(n as nat),
{
    let v = u128_to_chars(n as u128);
    string_of(&v)
}

/// The decimal text of `n`.
pub fn u128_to_string(n: u128) -> (r: String)
    ensures
        r@ == decimal_text(n as nat),
{
    let v = u128_to_chars(n);
    string_of(&v)
}

/// `a` followed by `b`.
pub fn concat(a: &str, b: &str) -> (r: String)
    ensures
        r@ == a@ + b@,
{
    let mut out = a.to_owned();
    out.append(b);
    out
}

/// `a`, `b` and `c` in a row.
pub fn concat3(a: &str, b: &str, c: &str) -> (r: String)
    ensures
        r@ == a@ + b@ + c@,
{
    let mut out = a.to_owned();
    out.append(b);
    out.append(c);
    out
}

/// The parts in a row, with `sep` between neighbours.
pub open spec fn joined(parts: Seq<Seq<char>>, sep: Seq<char>) -> Seq<char>
    decreases parts.len(),
{
    if parts.len() == 0 {
        seq![]
    } else if parts.len() == 1 {
        parts[0]
    } else {
        joined(parts.drop_last(), sep) + sep + parts.last()
    }
}

/// The parts in a row, with `sep` between neighbours.
pub fn join(parts: &Vec<String>, sep: &str) -> (r: String)
    ensures
        r@ == joined(texts(parts@), sep@),
{
    let mut out = String::new();
    let mut i: usize = 0;
    assert(texts(parts@).take(0) =~= seq![]);
    while i < parts.len()
        invariant
            i <= parts.len(),
            out@ == joined(texts(parts@).take(i as int), sep@),
        decreases parts.len() - i,
    {
        let ghost next = texts(parts@).take(i + 1);
        assert(next.drop_last() == texts(parts@).take(i as int));
        assert(next.last() == parts@[i as int]@);
        if i > 0 {
            out.append(sep);
        } else {
            assert(out@ + parts@[i as int]@ =~= parts@[i as int]@);
        }
        out.append(parts[i].as_str());
        i += 1;
    }
    assert(texts(parts@).take(parts.len() as int) == texts(parts@));
    out
}

/// `unit` written `n` times in a row.
pub open spec fn repeated(unit: Seq<char>, n: nat) -> Seq<char>
    decreases n,
{
    if n == 0 {
        seq![]
    } else {
        repeated(unit, (n - 1) as nat) + unit
    }
}

/// `unit` written `n` times in a row.
pub fn repeat(unit: &str, n: usize) -> (r: String)
    ensures
        r@ == repeated(unit@, n as nat),
{
    let mut out = String::new();
    let mut i: usize = 0;
    while i < n
        invariant
            i <= n,
            out@ == repeated(unit@, i as nat),
        decreases n - i,
    {
        out.append(unit);
        i += 1;
    }
    out
}

/// `s` followed by the spaces that bring it to `width` characters.
pub open spec fn padded_right(s: Seq<char>, width: nat) -> Seq<char> {
    if s.len() >= width {
        s
    } else {
        s + repeated(seq![' '], (width - s.len()) as nat)
    }
}

/// `s` after the spaces that bring it to `width` characters.
pub open spec fn padded_left(s: Seq<char>, width: nat) -> Seq<char> {
    if s.len() >= width {
        s
    } else {
        repeated(seq![' '], (width - s.len()) as nat) + s
    }
}

/// Left-aligns `s` in a field of `width` characters.
pub fn pad_right(s: &str, width: usize) -> (r: String)
    ensures
        r@ == padded_right(s@, width as nat),
{
    let n = s.unicode_len();
    if n >= width {
        s.to_owned()
    } else {
        proof {
            reveal_strlit(" ");
            assert(" "@ =~= seq![' ']);
        }
        let fill = repeat(" ", width - n);
        concat(s, fill.as_str())
    }
}

/// Right-aligns `s` in a field of `width` characters.
pub fn pad_left(s: &str, width: usize) -> (r: String)
    ensures
        r@ == padded_left(s@, width as nat),
{
    let n = s.unicode_len();
    if n >= width {
        s.to_owned()
    } else {
        proof {
            reveal_strlit(" ");
            assert(" "@ =~= seq![' ']);
        }
        let fill = repeat(" ", width - n);
        concat(fill.as_str(), s)
    }
}

/// The lower-case form of an ASCII letter; other characters stay.
pub open spec fn ascii_lower(c: char) -> char {
    if 0x41 <= c as u32 && c as u32 <= 0x5A {
        ((c as u32 + 0x20) as u8) as char
    } else {
        c
    }
}

/// `s` with its ASCII capital letters in lower case.
pub open spec fn ascii_lowered(s: Seq<char>) -> Seq<char> {
    Seq::new(s.len(), |i: int| ascii_lower(s[i]))
}

/// `s` with its ASCII capital letters in lower case.
pub fn to_ascii_lowercase(s: &str) -> (r: String)
    ensures
        r@ == ascii_lowered(s@),
{
    let v = chars_of(s);
    let mut out: Vec<char> = Vec::new();
    let mut i: usize = 0;
    while i < v.len()
        invariant
            i <= v.len(),
            out@.len() == i,
            forall|k: int| 0 <= k < i ==> out@[k] == ascii_lower(v@[k]),
        decreases v.len() - i,
    {
        let n: u32 = v[i] as u32;
        if 0x41 <= n && n <= 0x5A {
            out.push(((n + 0x20) as u8) as char);
        } else {
            out.push(v[i]);
        }
        i += 1;
    }
    assert(out@ =~= ascii_lowered(v@));
    string_of(&out)
}

} // verus!
verus! {

/// `rel` under the directory `base`: an absolute `rel` stands alone, and a
/// separator is put between the two where `base` does not end in one.
pub open spec fn path_join(base: Seq<char>, rel: Seq<char>) -> Seq<char> {
    if rel.len() > 0 && rel[0] == '/' {
        rel
    } else if base.len() == 0 || base.last() == '/' {
        base + rel
    } else {
        base + seq!['/'] + rel
    }
}

/// `rel` under the directory `base`.
pub fn join_path(base: &str, rel: &str) -> (r: String)
    ensures
        r@ == path_join(base@, rel@),
{
    let b = chars_of(base);
    let p = chars_of(rel);
    if p.len() > 0 && p[0] == '/' {
        rel.to_owned()
    } else if b.len() == 0 || b[b.len() - 1] == '/' {
        concat(base, rel)
    } else {
        proof {
            reveal_strlit("/");
            assert("/"@ =~= seq!['/']);
        }
        concat3(base, "/", rel)
    }
}

/// The directory that holds `path`: `path` up to its last separator; the root for
/// a path directly under it; nothing for a path without a separator.
pub open spec fn path_parent(path: Seq<char>) -> Seq<char>
    decreases path.len(),
{
    if path.len() == 0 {
        path
    } else if path.last() == '/' {
        if path.len() == 1 {
            path
        } else {
            path.drop_last()
        }
    } else {
        path_parent(path.drop_last())
    }
}

/// The directory that holds `path`.
pub fn parent_path(path: &str) -> (r: String)
    ensures
        r@ == path_parent(path@),
{
    let v = chars_of(path);
    let mut j: usize = v.len();
    assert(v@.take(j as int) == v@);
    while j > 0 && v[j - 1] != '/'
        invariant
            j <= v.len(),
            path_parent(v@) == path_parent(v@.take(j as int)),
        decreases j,
    {
        assert(v@.take(j as int).drop_last() == v@.take(j - 1));
        j -= 1;
    }
    if j <= 1 {
        let t = slice_chars(&v, 0, j);
        assert(v@.subrange(0, j as int) == v@.take(j as int));
        string_of(&t)
    } else {
        let t = slice_chars(&v, 0, j - 1);
        assert(v@.take(j as int).drop_last() == v@.subrange(0, j - 1));
        string_of(&t)
    }
}

/// Names what `str::to_lowercase` gives: the string in Unicode lower case.
pub uninterp spec fn unicode_lowercase(s: Seq<char>) -> Seq<char>;

/// `str::to_lowercase`: the lower-case form of `s` by the Unicode mapping. Nothing
/// is claimed of the mapping but that it depends on `s` alone.
#[verifier::external_body]
pub(crate) fn to_lowercase(s: &str) -> (r: String)
    ensures
        r@ == unicode_lowercase(s@),
{
    s.to_lowercase()
}

/// A copy of an optional string.
pub fn clone_opt(o: &Option<String>) -> (r: Option<String>)
    ensures
        r == *o,
{
    match o {
        Some(s) => Some(s.clone()),
        None => None,
    }
}

/// Whether two optional strings hold the same characters, or both nothing.
pub fn same_opt_text(a: &Option<String>, b: &Option<String>) -> (r: bool)
    ensures
        r == (opt_text(*a) == opt_text(*b)),
{
    match (a, b) {
        (Some(x), Some(y)) => same_text(x.as_str(), y.as_str()),
        (None, None) => true,
        _ => false,
    }
}

/// The characters that the first `n` bytes of the UTF-8 form of `s` write.
pub open spec fn byte_prefix(s: Seq<char>, n: int) -> Seq<char> {
    decode_utf8(encode_utf8(s).subrange(0, n))
}

/// Whether `s` can be cut after `n` bytes of its UTF-8 form: it is no longer than
/// that, or no character straddles the cut.
pub open spec fn can_cut(s: Seq<char>, n: int) -> bool {
    encode_utf8(s).len() <= n || is_char_boundary(encode_utf8(s), n)
}

/// `s` where its UTF-8 form has at most `limit` bytes; else the first `keep`
/// bytes of it, followed by `mark`.
pub open spec fn cut_text(s: Seq<char>, limit: int, keep: int, mark: Seq<char>) -> Seq<char> {
    if encode_utf8(s).len() <= limit {
        s
    } else {
        byte_prefix(s, keep) + mark
    }
}

/// Shortens `s` to its first `keep` bytes and `mark` where it is longer than
/// `limit` bytes.
pub fn cut(s: &str, limit: usize, keep: usize, mark: &str) -> (r: String)
    requires
        keep <= limit,
        encode_utf8(s@).len() > limit ==> is_char_boundary(encode_utf8(s@), keep as int),
    ensures
        r@ == cut_text(s@, limit as int, keep as int, mark@),
{
    broadcast use vstd::utf8::encode_utf8_decode_utf8;

    if s.as_bytes().len() <= limit {
        s.to_owned()
    } else {
        let (head, _tail) = s.split_at(keep);
        assert(head@ == decode_utf8(encode_utf8(head@)));
        assert(encode_utf8(head@) == encode_utf8(s@).subrange(0, keep as int));
        concat(head, mark)
    }
}

/// How many bytes the UTF-8 form of `s` has.
pub fn byte_len(s: &str) -> (n: usize)
    ensures
        n == encode_utf8(s@).len(),
{
    s.as_bytes().len()
}

/// Whether `s` can be cut after `n` bytes.
pub fn is_cut_point(s: &str, n: usize) -> (b: bool)
    ensures
        b == can_cut(s@, n as int),
{
    s.as_bytes().len() <= n || s.is_char_boundary(n)
}

/// The digits `s` in groups of three from the right, with a comma between groups.
pub open spec fn grouped(s: Seq<char>) -> Seq<char>
    decreases s.len(),
{
    if s.len() <= 3 {
        s
    } else {
        grouped(s.take(s.len() - 3)) + seq![','] + s.skip(s.len() - 3)
    }
}

/// Groups digits in threes from the right.
pub fn group_digits(s: &str) -> (r: String)
    ensures
        r@ == grouped(s@),
{
    let v = chars_of(s);
    let mut out: Vec<char> = Vec::new();
    let mut i: usize = v.len();
    assert(v@.take(i as int) == v@);
    assert(grouped(v@) =~= grouped(v@.take(i as int)) + out@);
    while i > 3
        invariant
            i <= v.len(),
            grouped(v@) == grouped(v@.take(i as int)) + out@,
        decreases i,
    {
        let chunk = slice_chars(&v, i - 3, i);
        let mut next: Vec<char> = Vec::new();
        next.push(',');
        append_chars(&mut next, &chunk);
        append_chars(&mut next, &out);
        let ghost part = v@.take(i as int);
        assert(part.take(part.len() - 3) == v@.take(i - 3));
        assert(part.skip(part.len() - 3) == v@.subrange(i - 3, i as int));
        assert(grouped(v@) =~= grouped(v@.take(i - 3)) + next@);
        out = next;
        i -= 3;
    }
    let mut head = slice_chars(&v, 0, i);
    assert(v@.subrange(0, i as int) == v@.take(i as int));
    append_chars(&mut head, &out);
    string_of(&head)
}

/// The order of strings: character by character, a string before every string
/// that it begins.
pub open spec fn lex_le(a: Seq<char>, b: Seq<char>) -> bool
    decreases a.len(),
{
    if a.len() == 0 {
        true
    } else if b.len() == 0 {
        false
    } else if a[0] != b[0] {
        a[0] < b[0]
    } else {
        lex_le(a.drop_first(), b.drop_first())
    }
}

/// Of two strings, one is not after the other.
pub proof fn lemma_lex_total(a: Seq<char>, b: Seq<char>)
    ensures
        lex_le(a, b) || lex_le(b, a),
    decreases a.len(),
{
    if a.len() > 0 && b.len() > 0 && a[0] == b[0] {
        lemma_lex_total(a.drop_first(), b.drop_first());
    }
}

/// The order of strings is transitive.
pub proof fn lemma_lex_trans(a: Seq<char>, b: Seq<char>, c: Seq<char>)
    requires
        lex_le(a, b),
        lex_le(b, c),
    ensures
        lex_le(a, c),
    decreases a.len(),
{
    if a.len() > 0 && b.len() > 0 && c.len() > 0 {
        if a[0] == b[0] && b[0] == c[0] {
            lemma_lex_trans(a.drop_first(), b.drop_first(), c.drop_first());
        }
    }
}

/// Decides `lex_le`.
pub fn text_le(a: &str, b: &str) -> (r: bool)
    ensures
        r == lex_le(a@, b@),
{
    let x = chars_of(a);
    let y = chars_of(b);
    let mut i: usize = 0;
    assert(x@.skip(0) == x@);
    assert(y@.skip(0) == y@);
    while i < x.len()
        invariant
            i <= x.len(),
            i <= y.len(),
            x@ == a@,
            y@ == b@,
            lex_le(x@, y@) == lex_le(x@.skip(i as int), y@.skip(i as int)),
        decreases x.len() - i,
    {
        if i >= y.len() {
            return false;
        }
        assert(x@.skip(i as int).drop_first() == x@.skip(i + 1));
        assert(y@.skip(i as int).drop_first() == y@.skip(i + 1));
        if x[i] != y[i] {
            return x[i] < y[i];
        }
        i += 1;
    }
    true
}

/// Whether the strings stand in order.
pub open spec fn in_order(v: Seq<Seq<char>>) -> bool {
    forall|i: int, j: int| 0 <= i < j < v.len() ==> lex_le(#[trigger] v[i], #[trigger] v[j])
}

/// The strings of `v` in order: the same strings, each as often as in `v`.
pub fn sort_texts(v: &Vec<String>) -> (r: Vec<String>)
    ensures
        in_order(texts(r@)),
        texts(r@).to_multiset() == texts(v@).to_multiset(),
{
    let mut out: Vec<String> = Vec::new();
    let mut i: usize = 0;
    assert(texts(v@).take(0) =~= Seq::<Seq<char>>::empty());
    assert(texts(out@) =~= Seq::<Seq<char>>::empty());
    while i < v.len()
        invariant
            i <= v.len(),
            in_order(texts(out@)),
            texts(out@).to_multiset() == texts(v@).take(i as int).to_multiset(),
        decreases v.len() - i,
    {
        let ghost held = texts(out@);
        let ghost x = v@[i as int]@;
        let mut p: usize = 0;
        while p < out.len() && text_le(out[p].as_str(), v[i].as_str())
            invariant
                p <= out.len(),
                i < v.len(),
                held == texts(out@),
                x == v@[i as int]@,
                forall|k: int| 0 <= k < p ==> lex_le(#[trigger] held[k], x),
            decreases out.len() - p,
        {
            assert(held[p as int] == out@[p as int]@);
            p += 1;
        }
        proof {
            if p < out.len() {
                assert(held[p as int] == out@[p as int]@);
                lemma_lex_total(held[p as int], x);
                assert forall|k: int| p <= k < held.len() implies lex_le(x, #[trigger] held[k]) by {
                    if k > p {
                        lemma_lex_trans(x, held[p as int], held[k]);
                    }
                }
            }
        }
        out.insert(p, v[i].clone());
        proof {
            let now = texts(out@);
            let front = held.take(p as int);
            let back = held.skip(p as int);
            assert(now =~= front + seq![x] + back);
            assert(held =~= front + back);
            vstd::seq_lib::lemma_multiset_commutative(front, back);
            vstd::seq_lib::lemma_multiset_commutative(front + seq![x], back);
            vstd::seq_lib::lemma_multiset_commutative(front, seq![x]);
            let seen = texts(v@).take(i as int);
            let next = texts(v@).take(i + 1);
            assert(next =~= seen + seq![x]);
            vstd::seq_lib::lemma_multiset_commutative(seen, seq![x]);
            assert(now.to_multiset() =~= next.to_multiset());
            assert forall|a: int, b: int| 0 <= a < b < now.len() implies lex_le(
                #[trigger] now[a],
                #[trigger] now[b],
            ) by {
                if a < p && b == p {
                    assert(now[a] == held[a]);
                } else if a < p && b > p {
                    assert(now[a] == held[a]);
                    assert(now[b] == held[b - 1]);
                } else if a == p {
                    assert(now[b] == held[b - 1]);
                } else if a > p {
                    assert(now[a] == held[a - 1]);
                    assert(now[b] == held[b - 1]);
                } else {
                    assert(now[a] == held[a]);
                    assert(now[b] == held[b]);
                }
            }
        }
        i += 1;
    }
    assert(texts(v@).take(v.len() as int) == texts(v@));
    out
}

/// Whether `v` holds the string `s`.
pub open spec fn holds_text(v: Seq<Seq<char>>, s: Seq<char>) -> bool {
    exists|i: int| 0 <= i < v.len() && v[i] == s
}

/// The decimal text of a whole number, with a minus sign before a negative one.
pub open spec fn signed_text(n: int) -> Seq<char> {
    if n < 0 {
        seq!['-'] + decimal_text((-n) as nat)
    } else {
        decimal_text(n as nat)
    }
}

/// The decimal text of `n`.
pub fn i64_to_string(n: i64) -> (r: String)
    ensures
        r@ == signed_text(n as int),
{
    if n < 0 {
        let magnitude: u128 = (-(n as i128)) as u128;
        let digits = u128_to_string(magnitude);
        proof {
            reveal_strlit("-");
            assert("-"@ =~= seq!['-']);
        }
        concat("-", digits.as_str())
    } else {
        u64_to_string(n as u64)
    }
}

/// Names what `str::to_uppercase` gives: the string in Unicode upper case.
pub uninterp spec fn unicode_uppercase(s: Seq<char>) -> Seq<char>;

/// `str::to_uppercase`: the upper-case form of `s` by the Unicode mapping. Nothing
/// is claimed of the mapping but that it depends on `s` alone.
#[verifier::external_body]
pub(crate) fn to_uppercase(s: &str) -> (r: String)
    ensures
        r@ == unicode_uppercase(s@),
{
    s.to_uppercase()
}

/// Whether each string stands before the next, so that none occurs twice.
pub open spec fn strictly_in_order(v: Seq<Seq<char>>) -> bool {
    forall|i: int, j: int|
        0 <= i < j < v.len() ==> lex_le(#[trigger] v[i], #[trigger] v[j]) && v[i] != v[j]
}

/// The strings of `v` in order, each once.
pub fn sorted_set(v: &Vec<String>) -> (r: Vec<String>)
    ensures
        strictly_in_order(texts(r@)),
        forall|s: Seq<char>| holds_text(texts(r@), s) <==> holds_text(texts(v@), s),
{
    let sorted = sort_texts(v);
    let ghost all = texts(sorted@);
    proof {
        assert forall|s: Seq<char>| #[trigger]
            holds_text(all, s) <==> holds_text(texts(v@), s) by {
            lemma_same_members(all, texts(v@), s);
        }
    }
    let mut out: Vec<String> = Vec::new();
    let mut i: usize = 0;
    while i < sorted.len()
        invariant
            i <= sorted.len(),
            all == texts(sorted@),
            in_order(all),
            forall|s: Seq<char>| #[trigger] holds_text(all, s) <==> holds_text(texts(v@), s),
            strictly_in_order(texts(out@)),
            forall|k: int| 0 <= k < out@.len() ==> holds_text(all.take(i as int), #[trigger] out@[k]@),
            forall|k: int| 0 <= k < i ==> holds_text(texts(out@), #[trigger] all[k]),
            i > 0 ==> out@.len() > 0 && out@[out@.len() - 1]@ == all[i - 1],
        decreases sorted.len() - i,
    {
        let ghost held = texts(out@);
        let fresh = out.len() == 0 || !same_text(out[out.len() - 1].as_str(), sorted[i].as_str());
        if fresh {
            out.push(sorted[i].clone());
            proof {
                let now = texts(out@);
                assert(now =~= held.push(all[i as int]));
                assert forall|a: int, b: int| 0 <= a < b < now.len() implies lex_le(
                    #[trigger] now[a],
                    #[trigger] now[b],
                ) && now[a] != now[b] by {
                    if b == now.len() - 1 {
                        assert(holds_text(all.take(i as int), held[a]));
                        let m = choose|m: int|
                            0 <= m < all.take(i as int).len() && all.take(i as int)[m] == held[a];
                        assert(all[m] == held[a]);
                        assert(lex_le(all[m], all[i as int]));
                        if held[a] == all[i as int] {
                            assert(lex_le(all[m], all[i - 1]));
                            assert(lex_le(all[i - 1], all[i as int]));
                            lemma_lex_antisym(all[i - 1], all[i as int]);
                        }
                    } else {
                        assert(now[a] == held[a]);
                        assert(now[b] == held[b]);
                    }
                }
                assert forall|k: int| 0 <= k < out@.len() implies holds_text(
                    all.take(i + 1),
                    #[trigger] out@[k]@,
                ) by {
                    if k < held.len() {
                        assert(out@[k]@ == held[k]);
                        let m = choose|m: int|
                            0 <= m < all.take(i as int).len() && all.take(i as int)[m] == held[k];
                        assert(all.take(i + 1)[m] == held[k]);
                    } else {
                        assert(all.take(i + 1)[i as int] == out@[k]@);
                    }
                }
                assert forall|k: int| 0 <= k < i + 1 implies holds_text(now, #[trigger] all[k]) by {
                    if k < i {
                        let m = choose|m: int| 0 <= m < held.len() && held[m] == all[k];
                        assert(now[m] == all[k]);
                    } else {
                        assert(now[now.len() - 1] == all[k]);
                    }
                }
            }
        } else {
            proof {
                assert forall|k: int| 0 <= k < out@.len() implies holds_text(
                    all.take(i + 1),
                    #[trigger] out@[k]@,
                ) by {
                    let m = choose|m: int|
                        0 <= m < all.take(i as int).len() && all.take(i as int)[m] == out@[k]@;
                    assert(all.take(i + 1)[m] == out@[k]@);
                }
                assert forall|k: int| 0 <= k < i + 1 implies holds_text(held, #[trigger] all[k]) by {
                    if k == i {
                        assert(held[held.len() - 1] == all[k]);
                    }
                }
            }
        }
        i += 1;
    }
    proof {
        assert(all.take(sorted.len() as int) == all);
        assert forall|s: Seq<char>| #[trigger]
            holds_text(texts(out@), s) <==> holds_text(all, s) by {
            if holds_text(texts(out@), s) {
                let k = choose|k: int| 0 <= k < texts(out@).len() && texts(out@)[k] == s;
                assert(holds_text(all, out@[k]@));
            }
            if holds_text(all, s) {
                let k = choose|k: int| 0 <= k < all.len() && all[k] == s;
                assert(holds_text(texts(out@), all[k]));
            }
        }
    }
    out
}

/// Two strings that are each not after the other are one string.
pub proof fn lemma_lex_antisym(a: Seq<char>, b: Seq<char>)
    requires
        lex_le(a, b),
        lex_le(b, a),
    ensures
        a == b,
    decreases a.len(),
{
    if a.len() > 0 && b.len() > 0 {
        lemma_lex_antisym(a.drop_first(), b.drop_first());
        assert(a =~= seq![a[0]] + a.drop_first());
        assert(b =~= seq![b[0]] + b.drop_first());
    } else {
        assert(a =~= b);
    }
}

/// Two lists with the same strings, each as often, hold the same strings.
pub proof fn lemma_same_members(a: Seq<Seq<char>>, b: Seq<Seq<char>>, s: Seq<char>)
    requires
        a.to_multiset() == b.to_multiset(),
    ensures
        holds_text(a, s) <==> holds_text(b, s),
{
    a.to_multiset_ensures();
    b.to_multiset_ensures();
    if holds_text(a, s) {
        let i = choose|i: int| 0 <= i < a.len() && a[i] == s;
        assert(a.contains(s));
        assert(b.to_multiset().count(s) > 0);
        assert(b.contains(s));
    }
    if holds_text(b, s) {
        let i = choose|i: int| 0 <= i < b.len() && b[i] == s;
        assert(b.contains(s));
        assert(a.to_multiset().count(s) > 0);
        assert(a.contains(s));
    }
}

} // verus!
