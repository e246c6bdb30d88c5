use crate::config_loader::{DorisConfig, DorisRecord};
use crate::error::CliError;
use crate::text::{concat3, opt_str, replace, replace_all};
use crate::tools::fe::table_info::{TableIdentity, TableIdentityView};
use vstd::prelude::*;

verus! {

/// The raw output of the database client for a query: rows on lines, cells
/// between tabs, no header.
#[derive(Debug)]
pub struct ResultSet(pub String);

impl View for ResultSet {
    type V = Seq<char>;

    open spec fn view(&self) -> Seq<char> {
        self.0@
    }
}

impl Clone for ResultSet {
    fn clone(&self) -> (r: ResultSet)
        ensures
            r@ == self@,
    {
        ResultSet(self.0.clone())
    }
}

/// Asks the database of the reconciled record.
#[derive(Debug)]
pub struct MySqlExecutor {
    doris: DorisConfig,
}

impl MySqlExecutor {
    /// The record whose database is asked.
    pub closed spec fn record(&self) -> DorisRecord {
        self.doris@
    }

    /// An executor for the database of a record.
    pub fn from_config(doris: DorisConfig) -> (r: MySqlExecutor)
        ensures
            r.record() == doris@,
    {
        MySqlExecutor { doris }
    }

    /// The record whose database is asked.
    pub fn config(&self) -> (r: &DorisConfig)
        ensures
            r@ == self.record(),
    {
        &self.doris
    }

    /// What a query gave, from what the database client printed for it.
    pub fn query(&self, output: Result<String, CliError>) -> (r: Result<ResultSet, CliError>)
        ensures
            match output {
                Ok(text) => r is Ok && r->Ok_0@ == text@,
                Err(e) => r is Err && r->Err_0 == e,
            },
    {
        match output {
            Ok(text) => Ok(ResultSet(text)),
            Err(e) => Err(e),
        }
    }
}

/// The query for the tables of the database engine, of all databases or of one.
pub open spec fn table_list_sql(schema: Option<Seq<char>>) -> Seq<char> {
    "SELECT table_schema, table_name FROM information_schema.tables WHERE TABLE_TYPE = 'BASE TABLE' AND ENGINE = 'Doris' AND TABLE_SCHEMA NOT IN ('__internal_schema', 'information_schema', 'mysql')"@
        + (match schema {
        Some(db) => " AND table_schema = '"@ + replace_all(db, "'"@, "''"@) + "'"@,
        None => seq![],
    }) + " ORDER BY table_schema, table_name;"@
}

/// The query for the tables of the database engine; a quote in the name of the
/// database is doubled.
pub fn query_table_list(schema: Option<&str>) -> (r: String)
    ensures
        r@ == table_list_sql(opt_str(schema)),
{
    let mut sql =
        "SELECT table_schema, table_name FROM information_schema.tables WHERE TABLE_TYPE = 'BASE TABLE' AND ENGINE = 'Doris' AND TABLE_SCHEMA NOT IN ('__internal_schema', 'information_schema', 'mysql')".to_owned();
    match schema {
        Some(db) => {
            proof {
                reveal_strlit("'");
            }
            let quoted = replace(db, "'", "''");
            let clause = concat3(" AND table_schema = '", quoted.as_str(), "'");
            sql.append(clause.as_str());
        },
        None => {
            assert(sql@ + Seq::<char>::empty() =~= sql@);
        },
    }
    sql.append(" ORDER BY table_schema, table_name;");
    sql
}

/// The query for the databases.
pub fn query_database_list() -> (r: String)
    ensures
        r@ == "SHOW DATABASES;"@,
{
    "SHOW DATABASES;".to_owned()
}

/// The name of a table as it is written in a query: both parts between
/// backticks, a backtick in a name doubled.
pub open spec fn quoted_table(ident: TableIdentityView) -> Seq<char> {
    "`"@ + replace_all(ident.schema, "`"@, "``"@) + "`.`"@ + replace_all(ident.name, "`"@, "``"@)
        + "`"@
}

/// The name of a table as it is written in a query.
pub fn quote_table(ident: &TableIdentity) -> (r: String)
    ensures
        r@ == quoted_table(ident@),
{
    proof {
        reveal_strlit("`");
    }
    let schema = replace(ident.schema.as_str(), "`", "``");
    let name = replace(ident.name.as_str(), "`", "``");
    let head = concat3("`", schema.as_str(), "`.`");
    concat3(head.as_str(), name.as_str(), "`")
}

/// The query for the statement that creates a table.
pub fn query_show_create(ident: &TableIdentity) -> (r: String)
    ensures
        r@ == "SHOW CREATE TABLE "@ + quoted_table(ident@) + ";"@,
{
    let table = quote_table(ident);
    concat3("SHOW CREATE TABLE ", table.as_str(), ";")
}

/// The query for the partitions of a table.
pub fn query_partitions(ident: &TableIdentity) -> (r: String)
    ensures
        r@ == "SHOW PARTITIONS FROM "@ + quoted_table(ident@) + ";"@,
{
    let table = quote_table(ident);
    concat3("SHOW PARTITIONS FROM ", table.as_str(), ";")
}

} // verus!
