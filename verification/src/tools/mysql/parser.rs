use crate::text::{
    chars_of, contains, first_index, has_substring, lines, lines_of, opt_text, position, same_text,
    slice_chars, string_of, strip_chars, texts, trim, trimmed, CharClass,
};
use crate::tools::mysql::cluster::{backends_of, frontends_of, Backend, ClusterInfo, Frontend};
use vstd::prelude::*;

verus! {

/// The run of stars that marks the first line of a row in the database client's
/// vertical output.
pub open spec fn row_marker() -> Seq<char> {
    "***************************"@
}

/// Whether a line begins a row.
pub open spec fn is_row_separator(line: Seq<char>) -> bool {
    has_substring(line, row_marker()) && has_substring(line, "row"@)
}

/// Whether a text holds nothing but white space.
pub open spec fn is_blank(s: Seq<char>) -> bool {
    trimmed(s).len() == 0
}

/// A block as a sequence of blocks: none where it is blank.
pub open spec fn block_if_any(cur: Seq<char>) -> Seq<Seq<char>> {
    if is_blank(cur) {
        seq![]
    } else {
        seq![cur]
    }
}

/// The row blocks in `rest`, after the lines `cur` of an unfinished block.
pub open spec fn blocks_after(rest: Seq<Seq<char>>, cur: Seq<char>) -> Seq<Seq<char>>
    decreases rest.len(),
{
    if rest.len() == 0 {
        block_if_any(cur)
    } else if is_row_separator(rest[0]) {
        block_if_any(cur) + blocks_after(rest.drop_first(), rest[0] + seq!['\n'])
    } else {
        blocks_after(rest.drop_first(), cur + rest[0] + seq!['\n'])
    }
}

/// The row blocks of the database client's vertical output: each begins at a
/// line that marks a row and runs up to the next such line, every line ended by
/// a line feed; what stands before the first row is a block too, unless blank.
pub open spec fn blocks_of(output: Seq<char>) -> Seq<Seq<char>> {
    blocks_after(lines_of(output), seq![])
}

/// Decides `is_blank`.
pub fn is_blank_text(s: &str) -> (b: bool)
    ensures
        b == is_blank(s@),
{
    let t = trim(s);
    chars_of(t.as_str()).len() == 0
}

/// Decides `is_row_separator`.
pub fn is_separator_line(line: &str) -> (b: bool)
    ensures
        b == is_row_separator(line@),
{
    contains(line, "***************************") && contains(line, "row")
}

/// Parses the parts of the cluster that run the coordination role.
pub fn parse_frontends(output: &str) -> (r: Vec<Frontend>)
    ensures
        crate::tools::mysql::cluster::frontend_views(r@) == frontends_of(blocks_of(output@)),
{
    ClusterInfo::parse_frontends_from_output(output)
}

/// Parses the parts of the cluster that run the storage role.
pub fn parse_backends(output: &str) -> (r: Vec<Backend>)
    ensures
        crate::tools::mysql::cluster::backend_views(r@) == backends_of(blocks_of(output@)),
{
    ClusterInfo::parse_backends_from_output(output)
}

/// Splits the database client's vertical output into one block for each row.
pub fn split_into_blocks(output: &str) -> (r: Vec<String>)
    ensures
        texts(r@) == blocks_of(output@),
{
    let all = lines(output);
    let mut blocks: Vec<String> = Vec::new();
    let mut current = String::new();
    let mut i: usize = 0;
    let ghost rows = texts(all@);
    assert(rows.skip(0) == rows);
    assert(texts(blocks@) =~= seq![]);
    proof {
        reveal_strlit("\n");
        assert("\n"@ =~= seq!['\n']);
    }
    while i < all.len()
        invariant
            i <= all.len(),
            rows == texts(all@),
            rows == lines_of(output@),
            "\n"@ == seq!['\n'],
            blocks_of(output@) == texts(blocks@) + blocks_after(rows.skip(i as int), current@),
        decreases all.len() - i,
    {
        assert(rows.skip(i as int)[0] == all@[i as int]@);
        assert(rows.skip(i as int).drop_first() == rows.skip(i + 1));
        let line = all[i].as_str();
        if is_separator_line(line) {
            if !is_blank_text(current.as_str()) {
                let ghost before = texts(blocks@);
                blocks.push(current.clone());
                assert(texts(blocks@) =~= before + seq![current@]);
            }
            current = String::new();
            assert(current@ + line@ =~= line@);
        }
        let ghost head = current@;
        current.append(line);
        current.append("\n");
        assert(current@ =~= head + line@ + seq!['\n']);
        assert(blocks_of(output@) =~= texts(blocks@) + blocks_after(rows.skip(i + 1), current@));
        i += 1;
    }
    if !is_blank_text(current.as_str()) {
        let ghost before = texts(blocks@);
        blocks.push(current);
        assert(texts(blocks@) =~= before + seq![current@]);
    }
    assert(blocks_of(output@) =~= texts(blocks@));
    blocks
}

/// The key and the value that a line `key: value` holds: what stands before the
/// first colon and what stands after it, each without the white space around it.
/// A line without a colon, or with nothing before it, holds none.
pub open spec fn key_value_of(line: Seq<char>) -> Option<(Seq<char>, Seq<char>)> {
    let k = first_index(line, ':') as int;
    if k < line.len() && trimmed(line.take(k)).len() > 0 {
        Some((trimmed(line.take(k)), trimmed(line.skip(k + 1))))
    } else {
        None
    }
}

/// What an optional pair of strings holds.
pub open spec fn opt_pair(o: Option<(String, String)>) -> Option<(Seq<char>, Seq<char>)> {
    match o {
        Some(p) => Some((p.0@, p.1@)),
        None => None,
    }
}

/// Parses a line `key: value`.
pub fn parse_key_value(line: &str) -> (r: Option<(String, String)>)
    ensures
        opt_pair(r) == key_value_of(line@),
{
    let v = chars_of(line);
    match position(&v, ':') {
        Some(k) => {
            let left = slice_chars(&v, 0, k);
            let right = slice_chars(&v, k + 1, v.len());
            assert(v@.subrange(0, k as int) == v@.take(k as int));
            assert(v@.subrange(k + 1, v.len() as int) == v@.skip(k + 1));
            let key = strip_chars(&left, CharClass::Whitespace);
            let value = strip_chars(&right, CharClass::Whitespace);
            if key.len() > 0 {
                Some((string_of(&key), string_of(&value)))
            } else {
                None
            }
        },
        None => None,
    }
}

/// The pairs of a vector of fields, as plain values.
pub open spec fn pairs_of(v: Seq<(String, String)>) -> Seq<(Seq<char>, Seq<char>)> {
    Seq::new(v.len(), |i: int| (v[i].0@, v[i].1@))
}

/// What a list of fields says: each key with the value of the last pair that
/// names it.
pub open spec fn field_map(pairs: Seq<(Seq<char>, Seq<char>)>) -> Map<Seq<char>, Seq<char>>
    decreases pairs.len(),
{
    if pairs.len() == 0 {
        Map::empty()
    } else {
        field_map(pairs.drop_last()).insert(pairs.last().0, pairs.last().1)
    }
}

/// The pair that a line of a block holds: none for an empty line and for a line
/// that marks a row.
pub open spec fn field_of_line(raw: Seq<char>) -> Option<(Seq<char>, Seq<char>)> {
    let line = trimmed(raw);
    if line.len() == 0 || has_substring(line, row_marker()) {
        None
    } else {
        key_value_of(line)
    }
}

/// The pairs that the lines of a block hold, in order.
pub open spec fn fields_of_lines(all: Seq<Seq<char>>) -> Seq<(Seq<char>, Seq<char>)>
    decreases all.len(),
{
    if all.len() == 0 {
        seq![]
    } else {
        match field_of_line(all.last()) {
            Some(p) => fields_of_lines(all.drop_last()).push(p),
            None => fields_of_lines(all.drop_last()),
        }
    }
}

/// The fields of a row block, as a map from key to value.
pub open spec fn block_fields(block: Seq<char>) -> Map<Seq<char>, Seq<char>> {
    field_map(fields_of_lines(lines_of(block)))
}

/// Parses the fields of a row block, one `key: value` to a line. Of two lines
/// with the same key the later one counts.
pub fn parse_key_value_pairs(block: &str) -> (r: Vec<(String, String)>)
    ensures
        field_map(pairs_of(r@)) == block_fields(block@),
        pairs_of(r@) == fields_of_lines(lines_of(block@)),
{
    let all = lines(block);
    let mut fields: Vec<(String, String)> = Vec::new();
    let mut i: usize = 0;
    let ghost rows = texts(all@);
    assert(rows.take(0) =~= Seq::<Seq<char>>::empty());
    assert(pairs_of(fields@) =~= seq![]);
    while i < all.len()
        invariant
            i <= all.len(),
            rows == texts(all@),
            rows == lines_of(block@),
            pairs_of(fields@) == fields_of_lines(rows.take(i as int)),
        decreases all.len() - i,
    {
        let ghost next = rows.take(i + 1);
        assert(next.drop_last() == rows.take(i as int));
        assert(next.last() == all@[i as int]@);
        let line_owned = trim(all[i].as_str());
        let line = line_owned.as_str();
        if !(chars_of(line).len() == 0 || contains(line, "***************************")) {
            match parse_key_value(line) {
                Some(pair) => {
                    let ghost before = pairs_of(fields@);
                    let ghost added = (pair.0@, pair.1@);
                    fields.push(pair);
                    assert(pairs_of(fields@) =~= before.push(added));
                },
                None => {},
            }
        }
        i += 1;
    }
    assert(rows.take(all.len() as int) == rows);
    fields
}

/// The value of a key in a list of fields.
pub open spec fn field_value(pairs: Seq<(Seq<char>, Seq<char>)>, key: Seq<char>) -> Option<
    Seq<char>,
> {
    if field_map(pairs).contains_key(key) {
        Some(field_map(pairs)[key])
    } else {
        None
    }
}

/// The value of a key in a list of fields.
pub fn lookup(fields: &Vec<(String, String)>, key: &str) -> (r: Option<String>)
    ensures
        opt_text(r) == field_value(pairs_of(fields@), key@),
{
    let ghost pairs = pairs_of(fields@);
    let mut i: usize = fields.len();
    assert(pairs.take(i as int) == pairs);
    while i > 0
        invariant
            i <= fields.len(),
            pairs == pairs_of(fields@),
            field_value(pairs, key@) == field_value(pairs.take(i as int), key@),
        decreases i,
    {
        let ghost part = pairs.take(i as int);
        assert(part.drop_last() == pairs.take(i - 1));
        assert(part.last() == (fields@[i - 1].0@, fields@[i - 1].1@));
        if same_text(fields[i - 1].0.as_str(), key) {
            return Some(fields[i - 1].1.clone());
        }
        i -= 1;
    }
    assert(pairs.take(0) =~= Seq::<(Seq<char>, Seq<char>)>::empty());
    None
}

} // verus!
