use crate::text::{
    chars_of, in_order, lines, lines_of, same_text, sort_texts, split, split_on, texts, trim,
    trimmed,
};
use vstd::prelude::*;

pub mod browser;
pub mod ops;
pub mod sql;

verus! {

/// How a table treats rows with one key.
#[derive(Debug, Clone, Copy, PartialEq, Eq, Structural)]
pub enum TableModel {
    UniqueKey,
    DuplicateKey,
    AggregateKey,
}

/// How many buckets a partition has.
#[derive(Debug, Clone, Copy, PartialEq, Eq, Structural)]
pub enum BucketCount {
    Fixed(u32),
    Auto,
}

/// How the rows of a table are spread over buckets.
#[derive(Debug)]
pub enum BucketingSpec {
    Hash { columns: Vec<String>, buckets: BucketCount },
    Random { buckets: BucketCount },
}

/// What a `BucketingSpec` holds, as plain values.
pub enum BucketingView {
    Hash { columns: Seq<Seq<char>>, buckets: BucketCount },
    Random { buckets: BucketCount },
}

impl View for BucketingSpec {
    type V = BucketingView;

    open spec fn view(&self) -> BucketingView {
        match self {
            BucketingSpec::Hash { columns, buckets } => BucketingView::Hash {
                columns: texts(columns@),
                buckets: *buckets,
            },
            BucketingSpec::Random { buckets } => BucketingView::Random { buckets: *buckets },
        }
    }
}

/// A table, by the name of its database and its own.
#[derive(Debug)]
pub struct TableIdentity {
    pub schema: String,
    pub name: String,
}

/// What a `TableIdentity` holds, as plain values.
pub struct TableIdentityView {
    pub schema: Seq<char>,
    pub name: Seq<char>,
}

impl View for TableIdentity {
    type V = TableIdentityView;

    open spec fn view(&self) -> TableIdentityView {
        TableIdentityView {
            schema: self.schema@,
            name: self.name@,
        }
    }
}

/// What is measured of one partition of a table.
#[derive(Debug)]
pub struct PartitionStat {
    pub name: String,
    pub size_bytes: u64,
    pub rows: u64,
    pub buckets: u32,
    pub avg_bucket_size_bytes: Option<u64>,
}

/// What a `PartitionStat` holds, as plain values.
pub struct PartitionStatView {
    pub name: Seq<char>,
    pub size_bytes: u64,
    pub rows: u64,
    pub buckets: u32,
    pub avg_bucket_size_bytes: Option<u64>,
}

impl View for PartitionStat {
    type V = PartitionStatView;

    open spec fn view(&self) -> PartitionStatView {
        PartitionStatView {
            name: self.name@,
            size_bytes: self.size_bytes,
            rows: self.rows,
            buckets: self.buckets,
            avg_bucket_size_bytes: self.avg_bucket_size_bytes,
        }
    }
}

/// The partitions of a table, and the number of buckets where all partitions
/// have the same.
#[derive(Debug)]
pub struct TableStatsFromPartitions {
    pub partitions: Vec<PartitionStat>,
    pub total_buckets: Option<u32>,
}

/// What a `TableStatsFromPartitions` holds, as plain values.
pub struct TableStatsFromPartitionsView {
    pub partitions: Seq<PartitionStatView>,
    pub total_buckets: Option<u32>,
}

impl View for TableStatsFromPartitions {
    type V = TableStatsFromPartitionsView;

    open spec fn view(&self) -> TableStatsFromPartitionsView {
        TableStatsFromPartitionsView {
            partitions: Seq::new(self.partitions@.len(), |i: int| self.partitions@[i]@),
            total_buckets: self.total_buckets,
        }
    }
}

/// A column of a table.
#[derive(Debug)]
pub struct ColumnDef {
    pub name: String,
    pub data_type: String,
    pub nullable: bool,
    pub is_key: bool,
}

/// What a `ColumnDef` holds, as plain values.
pub struct ColumnDefView {
    pub name: Seq<char>,
    pub data_type: Seq<char>,
    pub nullable: bool,
    pub is_key: bool,
}

impl View for ColumnDef {
    type V = ColumnDefView;

    open spec fn view(&self) -> ColumnDefView {
        ColumnDefView {
            name: self.name@,
            data_type: self.data_type@,
            nullable: self.nullable,
            is_key: self.is_key,
        }
    }
}

/// An index of a table.
#[derive(Debug)]
pub struct IndexInfo {
    pub name: String,
    pub columns: Vec<String>,
    pub index_type: String,
}

/// What a `IndexInfo` holds, as plain values.
pub struct IndexInfoView {
    pub name: Seq<char>,
    pub columns: Seq<Seq<char>>,
    pub index_type: Seq<char>,
}

impl View for IndexInfo {
    type V = IndexInfoView;

    open spec fn view(&self) -> IndexInfoView {
        IndexInfoView {
            name: self.name@,
            columns: texts(self.columns@),
            index_type: self.index_type@,
        }
    }
}

/// What the statement that creates a table says of its model and its buckets.
#[derive(Debug)]
pub struct CreateTableParsed {
    pub model: TableModel,
    pub key_columns: Vec<String>,
    pub bucketing: BucketingSpec,
    pub merge_on_write: Option<bool>,
}

/// What a `CreateTableParsed` holds, as plain values.
pub struct CreateTableParsedView {
    pub model: TableModel,
    pub key_columns: Seq<Seq<char>>,
    pub bucketing: BucketingView,
    pub merge_on_write: Option<bool>,
}

impl View for CreateTableParsed {
    type V = CreateTableParsedView;

    open spec fn view(&self) -> CreateTableParsedView {
        CreateTableParsedView {
            model: self.model,
            key_columns: texts(self.key_columns@),
            bucketing: self.bucketing@,
            merge_on_write: self.merge_on_write,
        }
    }
}

/// All that is reported of one table.
#[derive(Debug)]
pub struct TableInfoReport {
    pub ident: TableIdentity,
    pub model: TableModel,
    pub key_columns: Vec<String>,
    pub bucketing_key: Option<Vec<String>>,
    pub bucket: BucketCount,
    pub merge_on_write: Option<bool>,
    pub indexes: Vec<IndexInfo>,
    pub columns: Vec<ColumnDef>,
    pub partitions: Vec<PartitionStat>,
}

/// What a `TableInfoReport` holds, as plain values.
pub struct TableInfoReportView {
    pub ident: TableIdentityView,
    pub model: TableModel,
    pub key_columns: Seq<Seq<char>>,
    pub bucketing_key: Option<Seq<Seq<char>>>,
    pub bucket: BucketCount,
    pub merge_on_write: Option<bool>,
    pub indexes: Seq<IndexInfoView>,
    pub columns: Seq<ColumnDefView>,
    pub partitions: Seq<PartitionStatView>,
}

impl View for TableInfoReport {
    type V = TableInfoReportView;

    open spec fn view(&self) -> TableInfoReportView {
        TableInfoReportView {
            ident: self.ident@,
            model: self.model,
            key_columns: texts(self.key_columns@),
            bucketing_key: match self.bucketing_key {
                Some(x) => Some(texts(x@)),
                None => None,
            },
            bucket: self.bucket,
            merge_on_write: self.merge_on_write,
            indexes: Seq::new(self.indexes@.len(), |i: int| self.indexes@[i]@),
            columns: Seq::new(self.columns@.len(), |i: int| self.columns@[i]@),
            partitions: Seq::new(self.partitions@.len(), |i: int| self.partitions@[i]@),
        }
    }
}

/// A copy of a vector of strings.
pub fn clone_texts(v: &Vec<String>) -> (r: Vec<String>)
    ensures
        texts(r@) == texts(v@),
{
    let mut out: Vec<String> = Vec::new();
    let mut i: usize = 0;
    while i < v.len()
        invariant
            i <= v.len(),
            out@.len() == i,
            forall|k: int| 0 <= k < i ==> out@[k]@ == v@[k]@,
        decreases v.len() - i,
    {
        out.push(v[i].clone());
        i += 1;
    }
    assert(texts(out@) =~= texts(v@));
    out
}

impl Clone for TableIdentity {
    fn clone(&self) -> (r: TableIdentity)
        ensures
            r@ == self@,
    {
        TableIdentity { schema: self.schema.clone(), name: self.name.clone() }
    }
}

impl Clone for PartitionStat {
    fn clone(&self) -> (r: PartitionStat)
        ensures
            r@ == self@,
    {
        PartitionStat {
            name: self.name.clone(),
            size_bytes: self.size_bytes,
            rows: self.rows,
            buckets: self.buckets,
            avg_bucket_size_bytes: self.avg_bucket_size_bytes,
        }
    }
}

impl Clone for ColumnDef {
    fn clone(&self) -> (r: ColumnDef)
        ensures
            r@ == self@,
    {
        ColumnDef {
            name: self.name.clone(),
            data_type: self.data_type.clone(),
            nullable: self.nullable,
            is_key: self.is_key,
        }
    }
}

impl Clone for IndexInfo {
    fn clone(&self) -> (r: IndexInfo)
        ensures
            r@ == self@,
    {
        IndexInfo {
            name: self.name.clone(),
            columns: clone_texts(&self.columns),
            index_type: self.index_type.clone(),
        }
    }
}

/// What a vector of partitions holds.
pub open spec fn partition_views(v: Seq<PartitionStat>) -> Seq<PartitionStatView> {
    Seq::new(v.len(), |i: int| v[i]@)
}

/// What a vector of tables holds.
pub open spec fn identity_views(v: Seq<TableIdentity>) -> Seq<TableIdentityView> {
    Seq::new(v.len(), |i: int| v[i]@)
}

/// A copy of a vector of partitions.
pub fn clone_partitions(v: &Vec<PartitionStat>) -> (r: Vec<PartitionStat>)
    ensures
        partition_views(r@) == partition_views(v@),
{
    let mut out: Vec<PartitionStat> = Vec::new();
    let mut i: usize = 0;
    while i < v.len()
        invariant
            i <= v.len(),
            out@.len() == i,
            forall|k: int| 0 <= k < i ==> out@[k]@ == v@[k]@,
        decreases v.len() - i,
    {
        out.push(v[i].clone());
        i += 1;
    }
    assert(partition_views(out@) =~= partition_views(v@));
    out
}

/// A copy of a vector of columns.
pub fn clone_columns(v: &Vec<ColumnDef>) -> (r: Vec<ColumnDef>)
    ensures
        Seq::new(r@.len(), |i: int| r@[i]@) == Seq::new(v@.len(), |i: int| v@[i]@),
{
    let mut out: Vec<ColumnDef> = Vec::new();
    let mut i: usize = 0;
    while i < v.len()
        invariant
            i <= v.len(),
            out@.len() == i,
            forall|k: int| 0 <= k < i ==> out@[k]@ == v@[k]@,
        decreases v.len() - i,
    {
        out.push(v[i].clone());
        i += 1;
    }
    assert(Seq::new(out@.len(), |i: int| out@[i]@) =~= Seq::new(v@.len(), |i: int| v@[i]@));
    out
}

/// A copy of a vector of indexes.
pub fn clone_indexes(v: &Vec<IndexInfo>) -> (r: Vec<IndexInfo>)
    ensures
        Seq::new(r@.len(), |i: int| r@[i]@) == Seq::new(v@.len(), |i: int| v@[i]@),
{
    let mut out: Vec<IndexInfo> = Vec::new();
    let mut i: usize = 0;
    while i < v.len()
        invariant
            i <= v.len(),
            out@.len() == i,
            forall|k: int| 0 <= k < i ==> out@[k]@ == v@[k]@,
        decreases v.len() - i,
    {
        out.push(v[i].clone());
        i += 1;
    }
    assert(Seq::new(out@.len(), |i: int| out@[i]@) =~= Seq::new(v@.len(), |i: int| v@[i]@));
    out
}

/// The report of a table, put together from what was read of it: the buckets and
/// the bucketing key are those of the statement that creates the table, and
/// merge-on-write is told only of a table with unique keys.
pub open spec fn report_of(
    ident: TableIdentityView,
    create: CreateTableParsedView,
    parts: TableStatsFromPartitionsView,
    cols: Seq<ColumnDefView>,
    idxs: Seq<IndexInfoView>,
) -> TableInfoReportView {
    TableInfoReportView {
        ident,
        model: create.model,
        key_columns: create.key_columns,
        bucketing_key: match create.bucketing {
            BucketingView::Hash { columns, buckets } => Some(columns),
            BucketingView::Random { buckets } => None,
        },
        bucket: match create.bucketing {
            BucketingView::Hash { columns, buckets } => buckets,
            BucketingView::Random { buckets } => buckets,
        },
        merge_on_write: if create.model == TableModel::UniqueKey {
            create.merge_on_write
        } else {
            None
        },
        indexes: idxs,
        columns: cols,
        partitions: parts.partitions,
    }
}

/// Puts the report of a table together.
pub fn assemble_report(
    ident: &TableIdentity,
    create: &CreateTableParsed,
    parts: &TableStatsFromPartitions,
    cols: &Vec<ColumnDef>,
    idxs: &Vec<IndexInfo>,
) -> (r: TableInfoReport)
    ensures
        r@ == report_of(
            ident@,
            create@,
            parts@,
            Seq::new(cols@.len(), |i: int| cols@[i]@),
            Seq::new(idxs@.len(), |i: int| idxs@[i]@),
        ),
{
    let (bucket, bucketing_key) = match &create.bucketing {
        BucketingSpec::Hash { columns, buckets } => (*buckets, Some(clone_texts(columns))),
        BucketingSpec::Random { buckets } => (*buckets, None),
    };
    let merge_on_write = match create.model {
        TableModel::UniqueKey => create.merge_on_write,
        _ => None,
    };
    TableInfoReport {
        ident: ident.clone(),
        model: create.model,
        key_columns: clone_texts(&create.key_columns),
        bucketing_key,
        bucket,
        merge_on_write,
        indexes: clone_indexes(idxs),
        columns: clone_columns(cols),
        partitions: clone_partitions(&parts.partitions),
    }
}

/// Collects what is reported of the tables of a cluster.
#[derive(Debug, Clone, Copy, PartialEq, Eq, Structural)]
pub struct FeTableInfoTool;

/// The table that a line of the list of tables names: the database and the table,
/// with a tab between them. A line without a tab, and an empty line, name none.
pub open spec fn table_of_line(raw: Seq<char>) -> Option<TableIdentityView> {
    let line = trimmed(raw);
    let cells = split_on(line, '\t');
    if line.len() > 0 && cells.len() >= 2 {
        Some(TableIdentityView { schema: cells[0], name: cells[1] })
    } else {
        None
    }
}

/// The tables that the lines of a list name, in order.
pub open spec fn tables_of(all: Seq<Seq<char>>) -> Seq<TableIdentityView>
    decreases all.len(),
{
    if all.len() == 0 {
        seq![]
    } else {
        match table_of_line(all.last()) {
            Some(t) => tables_of(all.drop_last()).push(t),
            None => tables_of(all.drop_last()),
        }
    }
}

/// Whether a database belongs to the system and is not shown.
pub open spec fn is_system_database(name: Seq<char>) -> bool {
    name == "information_schema"@ || name == "mysql"@ || name == "__internal_schema"@
}

/// The databases that the lines of a list name, in order: each line without the
/// white space around it, but for empty lines and the databases of the system.
pub open spec fn databases_of(all: Seq<Seq<char>>) -> Seq<Seq<char>>
    decreases all.len(),
{
    if all.len() == 0 {
        seq![]
    } else {
        let name = trimmed(all.last());
        if name.len() == 0 || is_system_database(name) {
            databases_of(all.drop_last())
        } else {
            databases_of(all.drop_last()).push(name)
        }
    }
}

/// How many workers to use for a number of tables: one for each table, but at
/// least one and at most thirty-two.
pub open spec fn suggested(total: nat) -> nat {
    if total <= 1 {
        1
    } else if total < 32 {
        total
    } else {
        32
    }
}

impl FeTableInfoTool {
    /// The tables that the database client listed, one to a line.
    pub fn list_tables(output: &str) -> (r: Vec<TableIdentity>)
        ensures
            identity_views(r@) == tables_of(lines_of(output@)),
    {
        let all = lines(output);
        let mut out: Vec<TableIdentity> = Vec::new();
        let ghost rows = texts(all@);
        let mut i: usize = 0;
        assert(rows.take(0) =~= Seq::<Seq<char>>::empty());
        assert(identity_views(out@) =~= seq![]);
        while i < all.len()
            invariant
                i <= all.len(),
                rows == texts(all@),
                identity_views(out@) == tables_of(rows.take(i as int)),
            decreases all.len() - i,
        {
            let ghost next = rows.take(i + 1);
            assert(next.drop_last() == rows.take(i as int));
            assert(next.last() == all@[i as int]@);
            let line = trim(all[i].as_str());
            if chars_of(line.as_str()).len() > 0 {
                let cells = split(line.as_str(), '\t');
                if cells.len() >= 2 {
                    assert(texts(cells@)[0] == cells@[0]@);
                    assert(texts(cells@)[1] == cells@[1]@);
                    let ghost before = identity_views(out@);
                    let ident = TableIdentity { schema: cells[0].clone(), name: cells[1].clone() };
                    let ghost added = ident@;
                    out.push(ident);
                    assert(identity_views(out@) =~= before.push(added));
                }
            }
            i += 1;
        }
        assert(rows.take(all.len() as int) == rows);
        out
    }

    /// The databases that the database client listed, in the order of their
    /// names, without those of the system.
    pub fn list_databases(output: &str) -> (r: Vec<String>)
        ensures
            in_order(texts(r@)),
            texts(r@).to_multiset() == databases_of(lines_of(output@)).to_multiset(),
    {
        let all = lines(output);
        let mut out: Vec<String> = Vec::new();
        let ghost rows = texts(all@);
        let mut i: usize = 0;
        assert(rows.take(0) =~= Seq::<Seq<char>>::empty());
        assert(texts(out@) =~= seq![]);
        while i < all.len()
            invariant
                i <= all.len(),
                rows == texts(all@),
                texts(out@) == databases_of(rows.take(i as int)),
            decreases all.len() - i,
        {
            let ghost next = rows.take(i + 1);
            assert(next.drop_last() == rows.take(i as int));
            assert(next.last() == all@[i as int]@);
            let db = trim(all[i].as_str());
            let system = same_text(db.as_str(), "information_schema") || same_text(
                db.as_str(),
                "mysql",
            ) || same_text(db.as_str(), "__internal_schema");
            if chars_of(db.as_str()).len() > 0 && !system {
                let ghost before = texts(out@);
                let ghost added = db@;
                out.push(db);
                assert(texts(out@) =~= before.push(added));
            }
            i += 1;
        }
        assert(rows.take(all.len() as int) == rows);
        sort_texts(&out)
    }

    /// How many workers to use for a number of tables.
    pub fn suggest_concurrency(total_tables: usize) -> (r: usize)
        ensures
            r == suggested(total_tables as nat),
    {
        if total_tables <= 1 {
            return 1;
        }
        let limit: usize = if total_tables < 32 {
            total_tables
        } else {
            32
        };
        let mut c: usize = 2;
        while c < limit
            invariant
                2 <= c <= 64,
                2 <= limit <= 32,
            decreases 64 - c,
        {
            c = c * 2;
        }
        if c < limit {
            c
        } else {
            limit
        }
    }

    /// The tables of a database among the tables that were listed.
    pub fn collect_all_in_db(tables: Vec<TableIdentity>, db: &str) -> (r: Vec<TableIdentity>)
        ensures
            identity_views(r@) == tables_in(identity_views(tables@), db@),
    {
        let mut out: Vec<TableIdentity> = Vec::new();
        let ghost all = identity_views(tables@);
        let mut i: usize = 0;
        assert(all.take(0) =~= Seq::<TableIdentityView>::empty());
        assert(identity_views(out@) =~= seq![]);
        while i < tables.len()
            invariant
                i <= tables.len(),
                all == identity_views(tables@),
                identity_views(out@) == tables_in(all.take(i as int), db@),
            decreases tables.len() - i,
        {
            let ghost next = all.take(i + 1);
            assert(next.drop_last() == all.take(i as int));
            assert(next.last() == tables@[i as int]@);
            if same_text(tables[i].schema.as_str(), db) {
                let ghost before = identity_views(out@);
                out.push(tables[i].clone());
                assert(identity_views(out@) =~= before.push(tables@[i as int]@));
            }
            i += 1;
        }
        assert(all.take(tables.len() as int) == all);
        out
    }
}

/// The tables of a list that belong to a database, in order.
pub open spec fn tables_in(all: Seq<TableIdentityView>, db: Seq<char>) -> Seq<TableIdentityView>
    decreases all.len(),
{
    if all.len() == 0 {
        seq![]
    } else if all.last().schema == db {
        tables_in(all.drop_last(), db).push(all.last())
    } else {
        tables_in(all.drop_last(), db)
    }
}

} // verus!
