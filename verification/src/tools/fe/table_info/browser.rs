use crate::error::{CliError, ErrorView};
use crate::text::{
    concat, concat3, cut, cut_text, decimal_text, join, join_path, joined, pad_left, pad_right,
    padded_left, padded_right, path_join, repeat, repeated, same_text, texts, u64_to_string,
};
use crate::tools::common::format_utils::{bytes_text, format_bytes};
use crate::tools::fe::table_info::{
    partition_views, BucketCount, IndexInfo, IndexInfoView, PartitionStat, PartitionStatView,
    TableIdentity, TableIdentityView, TableInfoReport, TableInfoReportView, TableModel,
};
use vstd::prelude::*;
use vstd::utf8::{encode_utf8, is_char_boundary};

verus! {

/// What the operator chose in a list that may end with an entry for all.
#[derive(Debug)]
pub enum SelectionResult {
    Single(String),
    All,
}

/// What the operator chose among the databases.
#[derive(Debug)]
pub enum DatabaseSelection {
    Single(String),
    AllDbs,
}

/// What the operator chose among the tables of a database.
#[derive(Debug)]
pub enum TableSelection {
    Single(TableIdentity),
    AllInDb(String),
}

/// What the operator wants after a table was analysed.
#[derive(Debug, Clone, Copy, PartialEq, Eq, Structural)]
pub enum NextAction {
    AnalyzeAnother,
    BackToFeMenu,
    ExitApp,
}

/// The entries of a selection list: the items, and behind them the entry for
/// all where there is to be one. It is a failure where there is no item.
pub fn create_string_selector(items: Vec<String>, add_all_option: bool, all_option_text: &str)
    -> (r: Result<Vec<String>, CliError>)
    ensures
        items@.len() == 0 ==> r is Err && r->Err_0@ == ErrorView::ToolExecutionFailed("no items"@),
        items@.len() > 0 ==> r is Ok && texts(r->Ok_0@) == if add_all_option {
            texts(items@).push(all_option_text@)
        } else {
            texts(items@)
        },
{
    if items.len() == 0 {
        return Err(CliError::ToolExecutionFailed("no items".to_owned()));
    }
    let mut options = items;
    if add_all_option {
        let ghost before = texts(options@);
        options.push(all_option_text.to_owned());
        assert(texts(options@) =~= before.push(all_option_text@));
    }
    Ok(options)
}

/// What an entry that the operator chose stands for: all where it is the entry
/// for all, else itself.
pub fn selection_of(selected: String, add_all_option: bool, all_option_text: &str) -> (r:
    SelectionResult)
    ensures
        match r {
            SelectionResult::All => add_all_option && selected@ == all_option_text@,
            SelectionResult::Single(s) => s@ == selected@ && !(add_all_option && selected@
                == all_option_text@),
        },
{
    if add_all_option && same_text(selected.as_str(), all_option_text) {
        SelectionResult::All
    } else {
        SelectionResult::Single(selected)
    }
}

/// What the operator's choice among the databases stands for.
pub fn select_database_or_bulk(selected: String) -> (r: DatabaseSelection)
    ensures
        match r {
            DatabaseSelection::AllDbs => selected@ == "[All Databases]"@,
            DatabaseSelection::Single(db) => db@ == selected@ && selected@ != "[All Databases]"@,
        },
{
    match selection_of(selected, true, "[All Databases]") {
        SelectionResult::All => DatabaseSelection::AllDbs,
        SelectionResult::Single(db) => DatabaseSelection::Single(db),
    }
}

/// What the operator's choice among the tables of a database stands for.
pub fn select_table_or_bulk(database: &str, selected: String) -> (r: TableSelection)
    ensures
        match r {
            TableSelection::AllInDb(db) => selected@ == "[All tables in this DB]"@ && db@
                == database@,
            TableSelection::Single(ident) => ident@ == (TableIdentityView {
                schema: database@,
                name: selected@,
            }) && selected@ != "[All tables in this DB]"@,
        },
{
    match selection_of(selected, true, "[All tables in this DB]") {
        SelectionResult::All => TableSelection::AllInDb(database.to_owned()),
        SelectionResult::Single(name) => TableSelection::Single(
            TableIdentity { schema: database.to_owned(), name },
        ),
    }
}

/// The database that the operator chose in a list without an entry for all.
pub fn select_database(selected: String) -> (r: Result<String, CliError>)
    ensures
        r is Ok,
        r->Ok_0@ == selected@,
{
    Ok(selected)
}

/// The heading of the list of the tables of a database.
pub fn table_list_title(database: &str) -> (r: String)
    ensures
        r@ == "Select a table in "@ + database@,
{
    concat("Select a table in ", database)
}

/// What the entry that the operator chose after an analysis stands for.
pub fn prompt_next_action(selected: &str) -> (r: Result<NextAction, CliError>)
    ensures
        r is Ok,
        r->Ok_0 == if selected@ == "Analyze another table/database"@ {
            NextAction::AnalyzeAnother
        } else if selected@ == "Back to FE menu"@ {
            NextAction::BackToFeMenu
        } else {
            NextAction::ExitApp
        },
{
    if same_text(selected, "Analyze another table/database") {
        Ok(NextAction::AnalyzeAnother)
    } else if same_text(selected, "Back to FE menu") {
        Ok(NextAction::BackToFeMenu)
    } else {
        Ok(NextAction::ExitApp)
    }
}

/// A text made to fit in `max` bytes: as it is where it fits, else its first
/// `max - 1` bytes and an ellipsis.
pub open spec fn truncated(s: Seq<char>, max: int) -> Seq<char> {
    cut_text(
        s,
        max,
        if max >= 1 {
            max - 1
        } else {
            0
        },
        "…"@,
    )
}

/// Whether a text can be made to fit in `max` bytes.
pub open spec fn can_truncate(s: Seq<char>, max: int) -> bool {
    encode_utf8(s).len() > max ==> is_char_boundary(
        encode_utf8(s),
        if max >= 1 {
            max - 1
        } else {
            0
        },
    )
}

/// A text made to fit in `max` bytes.
pub fn truncate(s: &str, max: usize) -> (r: String)
    requires
        can_truncate(s@, max as int),
    ensures
        r@ == truncated(s@, max as int),
{
    let keep = if max >= 1 {
        max - 1
    } else {
        0
    };
    cut(s, max, keep, "…")
}

/// The line that closes the top, the middle or the bottom of the table of
/// partitions, between the given corners.
pub open spec fn rule_text(left: Seq<char>, mid: Seq<char>, right: Seq<char>) -> Seq<char> {
    left + repeated("─"@, 20) + mid + repeated("─"@, 12) + mid + repeated("─"@, 14) + mid
        + repeated("─"@, 10) + right + "\n"@
}

/// A row of the table of partitions.
pub open spec fn table_row(
    name: Seq<char>,
    size: Seq<char>,
    rows: Seq<char>,
    buckets: Seq<char>,
) -> Seq<char> {
    "│ "@ + padded_right(name, 18) + " │ "@ + padded_left(size, 10) + " │ "@ + padded_left(
        rows,
        12,
    ) + " │ "@ + padded_left(buckets, 8) + " │\n"@
}

/// The row of a partition in the table.
pub open spec fn partition_row(p: PartitionStatView) -> Seq<char> {
    table_row(
        truncated(p.name, 18),
        bytes_text(p.size_bytes, 3, false),
        decimal_text(p.rows as nat),
        decimal_text(p.buckets as nat),
    )
}

/// The rows of the partitions of a list, in a row.
pub open spec fn partition_rows_text(parts: Seq<PartitionStatView>) -> Seq<char>
    decreases parts.len(),
{
    if parts.len() == 0 {
        seq![]
    } else {
        partition_rows_text(parts.drop_last()) + partition_row(parts.last())
    }
}

/// The table of the partitions of a table.
pub open spec fn partitions_table(parts: Seq<PartitionStatView>) -> Seq<char> {
    rule_text("┌"@, "┬"@, "┐"@) + table_row("Partition"@, "Size"@, "Rows"@, "Buckets"@) + rule_text(
        "├"@,
        "┼"@,
        "┤"@,
    ) + partition_rows_text(parts) + rule_text("└"@, "┴"@, "┘"@)
}

/// A line of the table of partitions between the given corners.
fn rule(left: &str, mid: &str, right: &str) -> (r: String)
    ensures
        r@ == rule_text(left@, mid@, right@),
{
    let mut out = left.to_owned();
    out.append(repeat("─", 20).as_str());
    out.append(mid);
    out.append(repeat("─", 12).as_str());
    out.append(mid);
    out.append(repeat("─", 14).as_str());
    out.append(mid);
    out.append(repeat("─", 10).as_str());
    out.append(right);
    out.append("\n");
    out
}

/// A row of the table of partitions.
fn row(name: &str, size: &str, rows: &str, buckets: &str) -> (r: String)
    ensures
        r@ == table_row(name@, size@, rows@, buckets@),
{
    let mut out = "│ ".to_owned();
    out.append(pad_right(name, 18).as_str());
    out.append(" │ ");
    out.append(pad_left(size, 10).as_str());
    out.append(" │ ");
    out.append(pad_left(rows, 12).as_str());
    out.append(" │ ");
    out.append(pad_left(buckets, 8).as_str());
    out.append(" │\n");
    out
}

/// Whether the name of every partition of a list can be made to fit.
pub open spec fn names_fit(parts: Seq<PartitionStatView>) -> bool {
    forall|i: int| 0 <= i < parts.len() ==> can_truncate((#[trigger] parts[i]).name, 18)
}

/// The table of the partitions of a table: name, size, rows and buckets.
pub fn build_partitions_table(parts: &Vec<PartitionStat>) -> (r: String)
    requires
        names_fit(partition_views(parts@)),
    ensures
        r@ == partitions_table(partition_views(parts@)),
{
    let ghost all = partition_views(parts@);
    let mut s = rule("┌", "┬", "┐");
    s.append(row("Partition", "Size", "Rows", "Buckets").as_str());
    s.append(rule("├", "┼", "┤").as_str());
    let ghost head = s@;
    let mut i: usize = 0;
    assert(all.take(0) =~= Seq::<PartitionStatView>::empty());
    assert(s@ =~= head + partition_rows_text(all.take(0)));
    while i < parts.len()
        invariant
            i <= parts.len(),
            all == partition_views(parts@),
            names_fit(all),
            s@ == head + partition_rows_text(all.take(i as int)),
        decreases parts.len() - i,
    {
        let ghost next = all.take(i + 1);
        assert(next.drop_last() == all.take(i as int));
        assert(next.last() == parts@[i as int]@);
        assert(all[i as int] == parts@[i as int]@);
        let p = &parts[i];
        let size = format_bytes(p.size_bytes, 3, false);
        let name = truncate(p.name.as_str(), 18);
        let line = row(
            name.as_str(),
            size.as_str(),
            u64_to_string(p.rows).as_str(),
            u64_to_string(p.buckets as u64).as_str(),
        );
        s.append(line.as_str());
        assert(s@ =~= head + partition_rows_text(next));
        i += 1;
    }
    assert(all.take(parts.len() as int) == all);
    s.append(rule("└", "┴", "┘").as_str());
    assert(s@ =~= partitions_table(all));
    s
}

/// The name of a model of tables.
pub open spec fn model_name(model: TableModel) -> Seq<char> {
    match model {
        TableModel::UniqueKey => "UniqueKey"@,
        TableModel::DuplicateKey => "DuplicateKey"@,
        TableModel::AggregateKey => "AggregateKey"@,
    }
}

/// A list of names with commas between them, or a dash for an empty list.
pub open spec fn names_or_dash(names: Seq<Seq<char>>) -> Seq<char> {
    if names.len() == 0 {
        "-"@
    } else {
        joined(names, ", "@)
    }
}

/// The indexes of a table, each with its type behind it.
pub open spec fn index_names(indexes: Seq<IndexInfoView>) -> Seq<Seq<char>> {
    Seq::new(indexes.len(), |i: int| indexes[i].name + "("@ + indexes[i].index_type + ")"@)
}

/// A line of the report: a label in a column of eighteen characters, and a value.
pub open spec fn report_line(label: Seq<char>, value: Seq<char>) -> Seq<char> {
    "  "@ + padded_right(label, 18) + " "@ + value + "\n"@
}

/// The line of the indexes of a table.
pub open spec fn indexes_text(indexes: Seq<IndexInfoView>) -> Seq<char> {
    if indexes.len() == 0 {
        "None"@
    } else {
        joined(index_names(indexes), ", "@)
    }
}

/// Whether the report of a table can be written: the line of its indexes and
/// the names of its partitions can be made to fit.
pub open spec fn can_report(report: TableInfoReportView) -> bool {
    can_truncate(indexes_text(report.indexes), 50) && names_fit(report.partitions)
}

/// The report of a table as it is shown and saved.
pub open spec fn report_content(report: TableInfoReportView) -> Seq<char> {
    "\n"@ + repeated("="@, 80) + "\n"@ + ("Table Info: "@ + report.ident.schema + "."@
        + report.ident.name + "\n"@) + repeated("-"@, 80) + "\n"@ + report_line(
        "Table Type:"@,
        model_name(report.model),
    ) + report_line("Key Columns:"@, names_or_dash(report.key_columns)) + report_line(
        "Bucketing Key:"@,
        match report.bucketing_key {
            Some(v) => joined(v, ", "@),
            None => "-"@,
        },
    ) + report_line(
        "Bucket Count:"@,
        match report.bucket {
            BucketCount::Fixed(n) => decimal_text(n as nat),
            BucketCount::Auto => "AUTO"@,
        },
    ) + report_line(
        "Merge-on-Write:"@,
        match report.merge_on_write {
            Some(true) => "Yes"@,
            Some(false) => "No"@,
            None => "-"@,
        },
    ) + report_line("Indexes:"@, truncated(indexes_text(report.indexes), 50)) + "\n"@
        + "Partitions:\n"@ + partitions_table(report.partitions) + ("Total partitions: "@
        + decimal_text(report.partitions.len()) + "\n"@) + repeated("="@, 80)
}

/// A line of the report.
fn line(label: &str, value: &str) -> (r: String)
    ensures
        r@ == report_line(label@, value@),
{
    let mut out = "  ".to_owned();
    out.append(pad_right(label, 18).as_str());
    out.append(" ");
    out.append(value);
    out.append("\n");
    out
}

/// The line of the indexes of a table.
pub fn indexes_line(indexes: &Vec<IndexInfo>) -> (r: String)
    ensures
        r@ == indexes_text(Seq::new(indexes@.len(), |i: int| indexes@[i]@)),
{
    let ghost all = Seq::new(indexes@.len(), |i: int| indexes@[i]@);
    if indexes.len() == 0 {
        return "None".to_owned();
    }
    let mut names: Vec<String> = Vec::new();
    let mut i: usize = 0;
    while i < indexes.len()
        invariant
            i <= indexes.len(),
            all == Seq::new(indexes@.len(), |k: int| indexes@[k]@),
            names@.len() == i,
            forall|k: int| 0 <= k < i ==> (#[trigger] names@[k])@ == index_names(all)[k],
        decreases indexes.len() - i,
    {
        let head = concat3(indexes[i].name.as_str(), "(", indexes[i].index_type.as_str());
        names.push(concat(head.as_str(), ")"));
        i += 1;
    }
    assert(texts(names@) =~= index_names(all));
    join(&names, ", ")
}

/// The report of a table as it is shown and saved.
pub fn generate_report_content(report: &TableInfoReport) -> (r: String)
    requires
        can_report(report@),
    ensures
        r@ == report_content(report@),
{
    let mut out = String::new();
    out.append("\n");
    out.append(repeat("=", 80).as_str());
    out.append("\n");
    let title = concat3("Table Info: ", report.ident.schema.as_str(), ".");
    out.append(concat3(title.as_str(), report.ident.name.as_str(), "\n").as_str());
    out.append(repeat("-", 80).as_str());
    out.append("\n");
    let model = match report.model {
        TableModel::UniqueKey => "UniqueKey",
        TableModel::DuplicateKey => "DuplicateKey",
        TableModel::AggregateKey => "AggregateKey",
    };
    let keys = if report.key_columns.len() == 0 {
        "-".to_owned()
    } else {
        join(&report.key_columns, ", ")
    };
    let bucket_str = match report.bucket {
        BucketCount::Fixed(n) => u64_to_string(n as u64),
        BucketCount::Auto => "AUTO".to_owned(),
    };
    let bucket_key = match &report.bucketing_key {
        Some(v) => join(v, ", "),
        None => "-".to_owned(),
    };
    let mow = match report.merge_on_write {
        Some(true) => "Yes",
        Some(false) => "No",
        None => "-",
    };
    out.append(line("Table Type:", model).as_str());
    out.append(line("Key Columns:", keys.as_str()).as_str());
    out.append(line("Bucketing Key:", bucket_key.as_str()).as_str());
    out.append(line("Bucket Count:", bucket_str.as_str()).as_str());
    out.append(line("Merge-on-Write:", mow).as_str());
    let indexes = indexes_line(&report.indexes);
    out.append(line("Indexes:", truncate(indexes.as_str(), 50).as_str()).as_str());
    out.append("\n");
    out.append("Partitions:\n");
    out.append(build_partitions_table(&report.partitions).as_str());
    let count = u64_to_string(report.partitions.len() as u64);
    out.append(concat3("Total partitions: ", count.as_str(), "\n").as_str());
    out.append(repeat("=", 80).as_str());
    assert(out@ =~= report_content(report@));
    out
}

/// The lines that close the collection of many tables.
pub fn render_batch_summary(scope: &str, total: usize) -> (r: Vec<String>)
    ensures
        texts(r@) == seq![
            Seq::<char>::empty(),
            repeated("="@, 80),
            "Batch collection completed for "@ + scope@,
            "Collected tables: "@ + decimal_text(total as nat),
            repeated("="@, 80),
        ],
{
    let mut lines: Vec<String> = Vec::new();
    lines.push(String::new());
    lines.push(repeat("=", 80));
    lines.push(concat("Batch collection completed for ", scope));
    let n = u64_to_string(total as u64);
    lines.push(concat("Collected tables: ", n.as_str()));
    lines.push(repeat("=", 80));
    assert(texts(lines@) =~= seq![
        Seq::<char>::empty(),
        repeated("="@, 80),
        "Batch collection completed for "@ + scope@,
        "Collected tables: "@ + decimal_text(total as nat),
        repeated("="@, 80),
    ]);
    lines
}

/// The file that keeps the report of a table, or the reports of all tables.
pub fn save_reports_txt(output_dir: &str, ident: Option<&TableIdentity>) -> (r: String)
    ensures
        r@ == match ident {
            Some(t) => path_join(
                path_join(path_join(output_dir@, "table-info"@), t@.schema),
                t@.name + ".txt"@,
            ),
            None => path_join(
                path_join(output_dir@, "table-info"@),
                "all_databases_table_info.txt"@,
            ),
        },
{
    let base = join_path(output_dir, "table-info");
    match ident {
        Some(t) => {
            let dir = join_path(base.as_str(), t.schema.as_str());
            let name = concat(t.name.as_str(), ".txt");
            join_path(dir.as_str(), name.as_str())
        },
        None => join_path(base.as_str(), "all_databases_table_info.txt"),
    }
}

} // verus!
