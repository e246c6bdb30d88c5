use crate::config_loader::regex_utils::{
    all_captures, first_captures, group_of, match_texts, opt_texts, regex_all_captures,
    regex_captures,
};
use crate::error::CliError;
use crate::text::{
    ascii_lowered, chars_of, concat3, contains, has_substring, join, joined, lines, lines_of,
    parse_u32, parse_u64, same_text, split, split_on, string_of, strip, strip_back, strip_chars,
    texts, to_ascii_lowercase, to_uppercase, trim, trim_end, trimmed, unicode_uppercase,
    unsigned_of, CharClass,
};
use crate::tools::fe::table_info::sql::ResultSet;
use crate::tools::fe::table_info::{
    BucketCount, BucketingSpec, BucketingView, ColumnDef, CreateTableParsed, CreateTableParsedView,
    IndexInfo, IndexInfoView, PartitionStat, PartitionStatView, TableModel,
    TableStatsFromPartitions, TableStatsFromPartitionsView,
};
use vstd::prelude::*;

verus! {

/// The least number of cells of a row that describes a partition.
pub const V2_MIN_COLS: usize = 15;

/// The least number of cells of a row that also counts the partition's rows.
pub const V3_MIN_COLS: usize = 22;

/// The names in the pieces of a list: each piece without the white space and
/// then the backticks around it, empty names left out.
pub open spec fn names_in(pieces: Seq<Seq<char>>) -> Seq<Seq<char>>
    decreases pieces.len(),
{
    if pieces.len() == 0 {
        seq![]
    } else {
        let name = strip(trimmed(pieces.last()), CharClass::Only('`'));
        if name.len() == 0 {
            names_in(pieces.drop_last())
        } else {
            names_in(pieces.drop_last()).push(name)
        }
    }
}

/// The columns that a list with commas names.
pub open spec fn column_list(input: Seq<char>) -> Seq<Seq<char>> {
    names_in(split_on(input, ','))
}

/// The columns that a list with commas names.
pub fn parse_column_list(input: &str) -> (r: Vec<String>)
    ensures
        texts(r@) == column_list(input@),
{
    let pieces = split(input, ',');
    let mut out: Vec<String> = Vec::new();
    let ghost all = texts(pieces@);
    let mut i: usize = 0;
    assert(all.take(0) =~= Seq::<Seq<char>>::empty());
    assert(texts(out@) =~= seq![]);
    while i < pieces.len()
        invariant
            i <= pieces.len(),
            all == texts(pieces@),
            texts(out@) == names_in(all.take(i as int)),
        decreases pieces.len() - i,
    {
        let ghost next = all.take(i + 1);
        assert(next.drop_last() == all.take(i as int));
        assert(next.last() == pieces@[i as int]@);
        let t = trim(pieces[i].as_str());
        let v = chars_of(t.as_str());
        let name = strip_chars(&v, CharClass::Only('`'));
        if name.len() > 0 {
            let ghost before = texts(out@);
            out.push(string_of(&name));
            assert(texts(out@) =~= before.push(name@));
        }
        i += 1;
    }
    assert(all.take(pieces.len() as int) == all);
    out
}

/// The number of buckets that a text writes: a number, or else automatic.
pub open spec fn bucket_count(text: Seq<char>) -> BucketCount {
    if ascii_lowered(text) == "auto"@ {
        BucketCount::Auto
    } else {
        match unsigned_of(text, 0xFFFF_FFFF) {
            Some(n) => BucketCount::Fixed(n as u32),
            None => BucketCount::Auto,
        }
    }
}

/// The number of buckets that a text writes.
pub fn parse_bucket_count(buckets: &str) -> (r: BucketCount)
    ensures
        r == bucket_count(buckets@),
{
    let lowered = to_ascii_lowercase(buckets);
    if same_text(lowered.as_str(), "auto") {
        BucketCount::Auto
    } else {
        match parse_u32(buckets) {
            Some(n) => BucketCount::Fixed(n),
            None => BucketCount::Auto,
        }
    }
}

/// The model of the table that a statement creates.
pub open spec fn model_of(sql: Seq<char>) -> TableModel {
    if has_substring(sql, "UNIQUE KEY("@) || has_substring(sql, "UNIQUE KEY (`"@) {
        TableModel::UniqueKey
    } else if has_substring(sql, "AGGREGATE KEY("@) {
        TableModel::AggregateKey
    } else {
        TableModel::DuplicateKey
    }
}

/// The pattern of the clause that names the key columns.
pub open spec fn key_pattern() -> Seq<char> {
    "(?i)(UNIQUE|DUPLICATE|AGGREGATE)\\s+KEY\\((?P<cols>[^\\)]*)\\)"@
}

/// The pattern of the clause that spreads rows by a hash of columns.
pub open spec fn hash_pattern() -> Seq<char> {
    "DISTRIBUTED\\s+BY\\s+HASH\\((?P<cols>[^\\)]*)\\)\\s+BUCKETS\\s+(?P<buckets>AUTO|\\d+)"@
}

/// The pattern of the clause that spreads rows at random.
pub open spec fn random_pattern() -> Seq<char> {
    "DISTRIBUTED\\s+BY\\s+RANDOM\\s+BUCKETS\\s+(?P<buckets>AUTO|\\d+)"@
}

/// A captured text, or what stands in where the group took no part.
pub open spec fn text_or(captured: Option<Seq<char>>, other: Seq<char>) -> Seq<char> {
    match captured {
        Some(t) => t,
        None => other,
    }
}

/// How a table spreads its rows, given what the two clauses matched.
pub open spec fn bucketing_from(
    hash: Option<Seq<Option<Seq<char>>>>,
    random: Option<Seq<Option<Seq<char>>>>,
) -> BucketingView {
    if hash is Some {
        BucketingView::Hash {
            columns: column_list(text_or(group_of(hash, 1), ""@)),
            buckets: bucket_count(text_or(group_of(hash, 2), "AUTO"@)),
        }
    } else if random is Some {
        BucketingView::Random { buckets: bucket_count(text_or(group_of(random, 1), "AUTO"@)) }
    } else {
        BucketingView::Hash { columns: seq![], buckets: BucketCount::Auto }
    }
}

/// Whether a table with unique keys merges on write, as far as its statement
/// tells.
pub open spec fn merge_on_write_of(sql: Seq<char>) -> Option<bool> {
    let lower = ascii_lowered(sql);
    if has_substring(lower, "merge-on-write\" = \"true\""@) || has_substring(
        lower,
        "enable_unique_key_merge_on_write\" = \"true\""@,
    ) || has_substring(lower, "merge-on-write: yes"@) {
        Some(true)
    } else if has_substring(lower, "merge-on-write\" = \"false\""@) {
        Some(false)
    } else {
        None
    }
}

/// What a statement that creates a table says, given what its clauses matched.
pub open spec fn create_table_from(
    sql: Seq<char>,
    key: Option<Seq<Option<Seq<char>>>>,
    hash: Option<Seq<Option<Seq<char>>>>,
    random: Option<Seq<Option<Seq<char>>>>,
) -> CreateTableParsedView {
    CreateTableParsedView {
        model: model_of(sql),
        key_columns: column_list(text_or(group_of(key, 2), ""@)),
        bucketing: bucketing_from(hash, random),
        merge_on_write: if model_of(sql) == TableModel::UniqueKey {
            merge_on_write_of(sql)
        } else {
            None
        },
    }
}

/// What a statement that creates a table says.
pub open spec fn create_table_of(sql: Seq<char>) -> CreateTableParsedView {
    create_table_from(
        sql,
        regex_captures(key_pattern(), sql),
        regex_captures(hash_pattern(), sql),
        regex_captures(random_pattern(), sql),
    )
}

/// What the groups of a match hold where there is one.
pub open spec fn opt_groups(m: Option<Vec<Option<String>>>) -> Option<Seq<Option<Seq<char>>>> {
    match m {
        Some(v) => Some(opt_texts(v@)),
        None => None,
    }
}

/// A captured text of a match, or what stands in where the group took no part.
fn group_text(groups: &Vec<Option<String>>, i: usize, other: &str) -> (r: String)
    ensures
        r@ == text_or(group_of(Some(opt_texts(groups@)), i as int), other@),
{
    if i < groups.len() {
        match &groups[i] {
            Some(t) => t.clone(),
            None => other.to_owned(),
        }
    } else {
        other.to_owned()
    }
}

/// A captured text, or what stands in where there is no match or the group took
/// no part.
fn group_or(m: &Option<Vec<Option<String>>>, i: usize, other: &str) -> (r: String)
    ensures
        r@ == text_or(group_of(opt_groups(*m), i as int), other@),
{
    match m {
        Some(groups) => group_text(groups, i, other),
        None => other.to_owned(),
    }
}

/// What a statement that creates a table says, given what its clauses matched.
pub fn create_table_from_matches(
    raw_sql: &str,
    key: &Option<Vec<Option<String>>>,
    hash: &Option<Vec<Option<String>>>,
    random: &Option<Vec<Option<String>>>,
) -> (r: CreateTableParsed)
    ensures
        r@ == create_table_from(raw_sql@, opt_groups(*key), opt_groups(*hash), opt_groups(*random)),
{
    let model = if contains(raw_sql, "UNIQUE KEY(") || contains(raw_sql, "UNIQUE KEY (`") {
        TableModel::UniqueKey
    } else if contains(raw_sql, "AGGREGATE KEY(") {
        TableModel::AggregateKey
    } else {
        TableModel::DuplicateKey
    };
    let key_cols = group_or(key, 2, "");
    let key_columns = parse_column_list(key_cols.as_str());
    let bucketing = if hash.is_some() {
        let cols = group_or(hash, 1, "");
        let buckets = group_or(hash, 2, "AUTO");
        BucketingSpec::Hash {
            columns: parse_column_list(cols.as_str()),
            buckets: parse_bucket_count(buckets.as_str()),
        }
    } else if random.is_some() {
        let buckets = group_or(random, 1, "AUTO");
        BucketingSpec::Random { buckets: parse_bucket_count(buckets.as_str()) }
    } else {
        let none: Vec<String> = Vec::new();
        assert(texts(none@) =~= seq![]);
        BucketingSpec::Hash { columns: none, buckets: BucketCount::Auto }
    };
    let merge_on_write = match model {
        TableModel::UniqueKey => {
            let lower = to_ascii_lowercase(raw_sql);
            if contains(lower.as_str(), "merge-on-write\" = \"true\"") || contains(
                lower.as_str(),
                "enable_unique_key_merge_on_write\" = \"true\"",
            ) || contains(lower.as_str(), "merge-on-write: yes") {
                Some(true)
            } else if contains(lower.as_str(), "merge-on-write\" = \"false\"") {
                Some(false)
            } else {
                None
            }
        },
        _ => None,
    };
    CreateTableParsed { model, key_columns, bucketing, merge_on_write }
}

/// Reads what a statement that creates a table says of its model, its keys and
/// its buckets. This never fails.
pub fn parse_create_table(raw_sql: &str) -> (r: Result<CreateTableParsed, CliError>)
    ensures
        r is Ok,
        r->Ok_0@ == create_table_of(raw_sql@),
{
    let key = first_captures(
        "(?i)(UNIQUE|DUPLICATE|AGGREGATE)\\s+KEY\\((?P<cols>[^\\)]*)\\)",
        raw_sql,
    );
    let hash = first_captures(
        "DISTRIBUTED\\s+BY\\s+HASH\\((?P<cols>[^\\)]*)\\)\\s+BUCKETS\\s+(?P<buckets>AUTO|\\d+)",
        raw_sql,
    );
    let random = first_captures(
        "DISTRIBUTED\\s+BY\\s+RANDOM\\s+BUCKETS\\s+(?P<buckets>AUTO|\\d+)",
        raw_sql,
    );
    Ok(create_table_from_matches(raw_sql, &key, &hash, &random))
}

/// The pattern of the clause that declares an index.
pub open spec fn index_pattern() -> Seq<char> {
    "(?mi)^\\s*INDEX\\s+`?(?P<name>[A-Za-z0-9_]+)`?\\s*\\((?P<cols>[^\\)]*)\\)\\s*USING\\s+(?P<itype>[A-Za-z0-9_]+)"@
}

/// The pattern of the property that names the columns with a bloom filter.
pub open spec fn bloom_pattern() -> Seq<char> {
    "(?i)\"bloom_filter_columns\"\\s*=\\s*\"(?P<cols>[^\"]*)\""@
}

/// The index that a match of the index clause declares.
pub open spec fn index_of_match(groups: Seq<Option<Seq<char>>>) -> IndexInfoView {
    IndexInfoView {
        name: text_or(group_of(Some(groups), 1), ""@),
        columns: column_list(text_or(group_of(Some(groups), 2), ""@)),
        index_type: unicode_uppercase(text_or(group_of(Some(groups), 3), "INDEX"@)),
    }
}

/// The indexes that the matches of the index clause declare, in order.
pub open spec fn declared_indexes(matches: Seq<Seq<Option<Seq<char>>>>) -> Seq<IndexInfoView> {
    Seq::new(matches.len(), |i: int| index_of_match(matches[i]))
}

/// The index that the bloom filter property stands for, where it names a column.
pub open spec fn bloom_index(m: Option<Seq<Option<Seq<char>>>>) -> Seq<IndexInfoView> {
    if m is Some && column_list(text_or(group_of(m, 1), ""@)).len() > 0 {
        let columns = column_list(text_or(group_of(m, 1), ""@));
        seq![
            IndexInfoView {
                name: "bloom_filter("@ + joined(columns, ","@) + ")"@,
                columns,
                index_type: "BLOOM_FILTER"@,
            },
        ]
    } else {
        seq![]
    }
}

/// What a vector of indexes holds.
pub open spec fn index_views(v: Seq<IndexInfo>) -> Seq<IndexInfoView> {
    Seq::new(v.len(), |i: int| v[i]@)
}

/// The indexes of a table, given what the index clause and the bloom filter
/// property matched in the statement that creates it.
pub fn indexes_from_matches(
    declared: &Vec<Vec<Option<String>>>,
    bloom: &Option<Vec<Option<String>>>,
) -> (r: Vec<IndexInfo>)
    ensures
        index_views(r@) == declared_indexes(match_texts(declared@)) + bloom_index(
            opt_groups(*bloom),
        ),
{
    let mut result: Vec<IndexInfo> = Vec::new();
    let ghost all = match_texts(declared@);
    let mut i: usize = 0;
    while i < declared.len()
        invariant
            i <= declared.len(),
            all == match_texts(declared@),
            result@.len() == i,
            forall|k: int| 0 <= k < i ==> (#[trigger] result@[k])@ == index_of_match(all[k]),
        decreases declared.len() - i,
    {
        let ghost groups = opt_texts(declared@[i as int]@);
        assert(all[i as int] == groups);
        let name = group_text(&declared[i], 1, "");
        let cols = group_text(&declared[i], 2, "");
        let itype = group_text(&declared[i], 3, "INDEX");
        result.push(
            IndexInfo {
                name,
                columns: parse_column_list(cols.as_str()),
                index_type: to_uppercase(itype.as_str()),
            },
        );
        i += 1;
    }
    assert(index_views(result@) =~= declared_indexes(all));
    match bloom {
        Some(_) => {
            let cols = group_or(bloom, 1, "");
            let columns = parse_column_list(cols.as_str());
            if columns.len() > 0 {
                let list = join(&columns, ",");
                let ghost before = index_views(result@);
                let index = IndexInfo {
                    name: concat3("bloom_filter(", list.as_str(), ")"),
                    columns,
                    index_type: "BLOOM_FILTER".to_owned(),
                };
                let ghost added = index@;
                result.push(index);
                assert(index_views(result@) =~= before + seq![added]);
            } else {
                assert(index_views(result@) + Seq::<IndexInfoView>::empty() =~= index_views(
                    result@,
                ));
            }
        },
        None => {
            assert(index_views(result@) + Seq::<IndexInfoView>::empty() =~= index_views(result@));
        },
    }
    result
}

/// The indexes of a table, from the statement that creates it: the indexes that
/// it declares, and one for its bloom filter columns where it names any.
pub fn parse_indexes_from_create(ddl: &str) -> (r: Vec<IndexInfo>)
    ensures
        index_views(r@) == declared_indexes(regex_all_captures(index_pattern(), ddl@))
            + bloom_index(regex_captures(bloom_pattern(), ddl@)),
{
    let declared = all_captures(
        "(?mi)^\\s*INDEX\\s+`?(?P<name>[A-Za-z0-9_]+)`?\\s*\\((?P<cols>[^\\)]*)\\)\\s*USING\\s+(?P<itype>[A-Za-z0-9_]+)",
        ddl,
    );
    let bloom = first_captures("(?i)\"bloom_filter_columns\"\\s*=\\s*\"(?P<cols>[^\"]*)\"", ddl);
    indexes_from_matches(&declared, &bloom)
}

/// What a row of the list of partitions says, before its size is worked out.
#[derive(Debug)]
pub struct PartitionRow {
    pub name: String,
    pub buckets: u32,
    /// The size of the data as the database writes it, such as `6.599 MB`.
    pub data_size: String,
    pub rows: u64,
}

/// What a `PartitionRow` holds, as plain values.
pub struct PartitionRowView {
    pub name: Seq<char>,
    pub buckets: u32,
    pub data_size: Seq<char>,
    pub rows: u64,
}

impl View for PartitionRow {
    type V = PartitionRowView;

    open spec fn view(&self) -> PartitionRowView {
        PartitionRowView {
            name: self.name@,
            buckets: self.buckets,
            data_size: self.data_size@,
            rows: self.rows,
        }
    }
}

/// What a vector of rows holds.
pub open spec fn row_views(v: Seq<PartitionRow>) -> Seq<PartitionRowView> {
    Seq::new(v.len(), |i: int| v[i]@)
}

/// The number that a cell writes, or zero.
pub open spec fn number_or_zero(cell: Seq<char>, max: nat) -> nat {
    match unsigned_of(trimmed(cell), max) {
        Some(n) => n,
        None => 0,
    }
}

/// The partition that a line of the list describes: a line of at least fifteen
/// cells between tabs. The name is the second cell, the buckets the ninth, the
/// size the fifteenth; and the last cell counts the rows where there are at
/// least twenty-two cells.
pub open spec fn partition_of_line(raw: Seq<char>) -> Option<PartitionRowView> {
    let line = strip_back(raw, CharClass::Whitespace);
    let cells = split_on(line, '\t');
    if line.len() == 0 || cells.len() < 15 {
        None
    } else {
        Some(
            PartitionRowView {
                name: trimmed(cells[1]),
                buckets: number_or_zero(cells[8], 0xFFFF_FFFF) as u32,
                data_size: trimmed(cells[14]),
                rows: if cells.len() >= 22 {
                    number_or_zero(cells.last(), 0xFFFF_FFFF_FFFF_FFFF) as u64
                } else {
                    0
                },
            },
        )
    }
}

/// The partitions that the lines of a list describe, in order.
pub open spec fn partition_rows_of(all: Seq<Seq<char>>) -> Seq<PartitionRowView>
    decreases all.len(),
{
    if all.len() == 0 {
        seq![]
    } else {
        match partition_of_line(all.last()) {
            Some(p) => partition_rows_of(all.drop_last()).push(p),
            None => partition_rows_of(all.drop_last()),
        }
    }
}

/// Reads the rows of the list of partitions.
pub fn partition_rows(rows: &ResultSet) -> (r: Vec<PartitionRow>)
    ensures
        row_views(r@) == partition_rows_of(lines_of(rows@)),
{
    let all = lines(rows.0.as_str());
    let mut out: Vec<PartitionRow> = Vec::new();
    let ghost seen = texts(all@);
    let mut i: usize = 0;
    assert(seen.take(0) =~= Seq::<Seq<char>>::empty());
    assert(row_views(out@) =~= seq![]);
    while i < all.len()
        invariant
            i <= all.len(),
            seen == texts(all@),
            row_views(out@) == partition_rows_of(seen.take(i as int)),
        decreases all.len() - i,
    {
        let ghost next = seen.take(i + 1);
        assert(next.drop_last() == seen.take(i as int));
        assert(next.last() == all@[i as int]@);
        let line = trim_end(all[i].as_str());
        if chars_of(line.as_str()).len() > 0 {
            let cells = split(line.as_str(), '\t');
            if cells.len() >= V2_MIN_COLS {
                let ghost cs = texts(cells@);
                assert(cs[1] == cells@[1]@);
                assert(cs[8] == cells@[8]@);
                assert(cs[14] == cells@[14]@);
                assert(cs.last() == cells@[cells.len() - 1]@);
                let name = trim(cells[1].as_str());
                let bucket_text = trim(cells[8].as_str());
                let buckets = match parse_u32(bucket_text.as_str()) {
                    Some(n) => n,
                    None => 0,
                };
                let data_size = trim(cells[14].as_str());
                let row_count = if cells.len() >= V3_MIN_COLS {
                    let count_text = trim(cells[cells.len() - 1].as_str());
                    match parse_u64(count_text.as_str()) {
                        Some(n) => n,
                        None => 0,
                    }
                } else {
                    0
                };
                let ghost before = row_views(out@);
                let row = PartitionRow { name, buckets, data_size, rows: row_count };
                let ghost added = row@;
                out.push(row);
                assert(row_views(out@) =~= before.push(added));
            }
        }
        i += 1;
    }
    assert(seen.take(all.len() as int) == seen);
    out
}

/// The size of the row number `k` in bytes; a size that was not worked out
/// counts as zero.
pub open spec fn size_at(sizes: Seq<u64>, k: int) -> u64 {
    if 0 <= k < sizes.len() {
        sizes[k]
    } else {
        0
    }
}

/// What is measured of a partition, from its row and its size in bytes. The
/// size of a bucket is told of a partition that has buckets.
pub open spec fn stat_of(row: PartitionRowView, size: u64) -> PartitionStatView {
    PartitionStatView {
        name: row.name,
        size_bytes: size,
        rows: row.rows,
        buckets: row.buckets,
        avg_bucket_size_bytes: if row.buckets > 0 {
            Some((size / (row.buckets as u64)) as u64)
        } else {
            None
        },
    }
}

/// The number of buckets of the first row that has buckets.
pub open spec fn first_buckets(rows: Seq<PartitionRowView>) -> Option<u32>
    decreases rows.len(),
{
    if rows.len() == 0 {
        None
    } else if rows[0].buckets > 0 {
        Some(rows[0].buckets)
    } else {
        first_buckets(rows.drop_first())
    }
}

/// Whether every row that has buckets has `n` of them.
pub open spec fn all_have(rows: Seq<PartitionRowView>, n: u32) -> bool {
    forall|i: int| 0 <= i < rows.len() && (#[trigger] rows[i]).buckets > 0 ==> rows[i].buckets == n
}

/// The number of buckets that every partition with buckets has, where there is
/// such a number.
pub open spec fn common_buckets(rows: Seq<PartitionRowView>) -> Option<u32> {
    match first_buckets(rows) {
        Some(n) => if all_have(rows, n) {
            Some(n)
        } else {
            None
        },
        None => None,
    }
}

/// The partitions of a table, from the rows of their list and the size of each
/// row in bytes.
pub open spec fn stats_of(rows: Seq<PartitionRowView>, sizes: Seq<u64>)
    -> TableStatsFromPartitionsView {
    TableStatsFromPartitionsView {
        partitions: Seq::new(rows.len(), |i: int| stat_of(rows[i], size_at(sizes, i))),
        total_buckets: common_buckets(rows),
    }
}

/// The first row with buckets is the first of the rows so far, or else of the rest.
proof fn lemma_first_buckets_split(rows: Seq<PartitionRowView>, i: int)
    requires
        0 <= i <= rows.len(),
    ensures
        first_buckets(rows) == match first_buckets(rows.take(i)) {
            Some(n) => Some(n),
            None => first_buckets(rows.skip(i)),
        },
    decreases i,
{
    if i == 0 {
        assert(rows.take(0) =~= Seq::<PartitionRowView>::empty());
        assert(rows.skip(0) == rows);
    } else {
        assert(rows.take(i)[0] == rows[0]);
        assert(rows.take(i).drop_first() == rows.drop_first().take(i - 1));
        assert(rows.skip(i) == rows.drop_first().skip(i - 1));
        if rows[0].buckets == 0 {
            lemma_first_buckets_split(rows.drop_first(), i - 1);
        }
    }
}

/// Works out what is measured of the partitions of a table. `sizes` holds, for
/// each row that `partition_rows` reads in `rows`, the size of its data in
/// bytes. This never fails.
pub fn parse_partitions(rows: &ResultSet, sizes: &Vec<u64>) -> (r: Result<
    TableStatsFromPartitions,
    CliError,
>)
    ensures
        r is Ok,
        r->Ok_0@ == stats_of(partition_rows_of(lines_of(rows@)), sizes@),
{
    let read = partition_rows(rows);
    let ghost all = row_views(read@);
    let mut partitions: Vec<PartitionStat> = Vec::new();
    let mut first_bucket: Option<u32> = None;
    let mut all_equal: bool = true;
    let mut i: usize = 0;
    assert(all.take(0) =~= Seq::<PartitionRowView>::empty());
    while i < read.len()
        invariant
            i <= read.len(),
            all == row_views(read@),
            partitions@.len() == i,
            forall|k: int|
                0 <= k < i ==> (#[trigger] partitions@[k])@ == stat_of(all[k], size_at(sizes@, k)),
            first_bucket == first_buckets(all.take(i as int)),
            first_bucket is Some ==> first_bucket->0 > 0,
            all_equal == match first_bucket {
                Some(n) => all_have(all.take(i as int), n),
                None => true,
            },
        decreases read.len() - i,
    {
        let row = &read[i];
        assert(all[i as int] == row@);
        let size: u64 = if i < sizes.len() {
            sizes[i]
        } else {
            0
        };
        let avg = if row.buckets > 0 {
            Some(size / (row.buckets as u64))
        } else {
            None
        };
        partitions.push(
            PartitionStat {
                name: row.name.clone(),
                size_bytes: size,
                rows: row.rows,
                buckets: row.buckets,
                avg_bucket_size_bytes: avg,
            },
        );
        proof {
            let before = all.take(i as int);
            let next = all.take(i + 1);
            lemma_first_buckets_split(next, i as int);
            assert(next.take(i as int) == before);
            assert(next.skip(i as int) =~= seq![row@]);
            assert(seq![row@].drop_first() =~= Seq::<PartitionRowView>::empty());
            assert(first_buckets(seq![row@]) == if row@.buckets > 0 {
                Some(row@.buckets)
            } else {
                None
            }) by {
                reveal_with_fuel(first_buckets, 2);
            }
            assert forall|n: u32| all_have(next, n) == (all_have(before, n) && (row@.buckets > 0
                ==> row@.buckets == n)) by {
                if all_have(next, n) {
                    assert forall|k: int| 0 <= k < before.len() && (#[trigger] before[k]).buckets
                        > 0 implies before[k].buckets == n by {
                        assert(next[k] == before[k]);
                    }
                    assert(next[i as int] == row@);
                } else if all_have(before, n) && (row@.buckets > 0 ==> row@.buckets == n) {
                    assert forall|k: int| 0 <= k < next.len() && (#[trigger] next[k]).buckets
                        > 0 implies next[k].buckets == n by {
                        if k < i {
                            assert(next[k] == before[k]);
                        }
                    }
                }
            }
            if first_bucket is None {
                assert forall|k: int| 0 <= k < before.len() implies (#[trigger] before[k]).buckets
                    == 0 by {
                    lemma_no_buckets(before, k);
                }
            }
        }
        if row.buckets > 0 {
            match first_bucket {
                Some(fb) => {
                    if fb != row.buckets {
                        all_equal = false;
                    }
                },
                None => {
                    first_bucket = Some(row.buckets);
                },
            }
        }
        i += 1;
    }
    assert(all.take(read.len() as int) == all);
    let total_buckets = if all_equal {
        first_bucket
    } else {
        None
    };
    let stats = TableStatsFromPartitions { partitions, total_buckets };
    assert(stats@.partitions =~= stats_of(all, sizes@).partitions);
    Ok(stats)
}

/// Where no row has buckets, each row has none.
proof fn lemma_no_buckets(rows: Seq<PartitionRowView>, k: int)
    requires
        first_buckets(rows) is None,
        0 <= k < rows.len(),
    ensures
        rows[k].buckets == 0,
    decreases rows.len(),
{
    if k > 0 {
        assert(rows.drop_first()[k - 1] == rows[k]);
        lemma_no_buckets(rows.drop_first(), k - 1);
    }
}

/// Reads all that the answers to the two queries about a table say: the
/// statement that creates it, its partitions with their sizes in bytes, its
/// columns, of which nothing is read, and its indexes.
pub fn fetch_and_parse_all(create_rs: &ResultSet, parts_rs: &ResultSet, sizes: &Vec<u64>) -> (r:
    Result<(CreateTableParsed, TableStatsFromPartitions, Vec<ColumnDef>, Vec<IndexInfo>), CliError>)
    ensures
        r is Ok,
        r->Ok_0.0@ == create_table_of(create_rs@),
        r->Ok_0.1@ == stats_of(partition_rows_of(lines_of(parts_rs@)), sizes@),
        r->Ok_0.2@.len() == 0,
        index_views(r->Ok_0.3@) == declared_indexes(regex_all_captures(index_pattern(), create_rs@))
            + bloom_index(regex_captures(bloom_pattern(), create_rs@)),
{
    let create = match parse_create_table(create_rs.0.as_str()) {
        Ok(c) => c,
        Err(e) => {
            return Err(e);
        },
    };
    let parts = match parse_partitions(parts_rs, sizes) {
        Ok(p) => p,
        Err(e) => {
            return Err(e);
        },
    };
    let cols: Vec<ColumnDef> = Vec::new();
    let idxs = parse_indexes_from_create(create_rs.0.as_str());
    Ok((create, parts, cols, idxs))
}

} // verus!
