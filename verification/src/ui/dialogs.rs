use crate::text::concat3;
use vstd::prelude::*;

verus! {

/// What the operator wants after a database turned out to hold no job.
#[derive(Debug, Clone, Copy, PartialEq, Eq, Structural)]
pub enum NoJobsNextAction {
    ChooseAnotherDatabase,
    BackToMenu,
}

/// What the operator is told where a database holds no routine load job.
pub fn no_jobs_notice(database: &str) -> (r: Vec<String>)
    ensures
        r@.len() == 4,
        r@[0]@ == "No Routine Load jobs found in database '"@ + database@ + "'"@,
        r@[1]@ == "This could mean:"@,
        r@[2]@ == "  - The database name is incorrect"@,
        r@[3]@ == "  - No Routine Load jobs have been created"@,
{
    let mut lines: Vec<String> = Vec::new();
    lines.push(concat3("No Routine Load jobs found in database '", database, "'"));
    lines.push("This could mean:".to_owned());
    lines.push("  - The database name is incorrect".to_owned());
    lines.push("  - No Routine Load jobs have been created".to_owned());
    lines
}

/// What the operator is told where a database is not known.
pub fn unknown_db_notice(database: &str) -> (r: Vec<String>)
    ensures
        r@.len() == 2,
        r@[0]@ == "Unknown database '"@ + database@ + "'"@,
        r@[1]@ == "Please verify the database name or choose another one."@,
{
    let mut lines: Vec<String> = Vec::new();
    lines.push(concat3("Unknown database '", database, "'"));
    lines.push("Please verify the database name or choose another one.".to_owned());
    lines
}

/// The entries of the menu that is shown after a database turned out to hold no
/// job, or not to exist.
pub fn recovery_options() -> (r: Vec<String>)
    ensures
        r@.len() == 2,
        r@[0]@ == "Choose another database"@,
        r@[1]@ == "Back to Routine Load menu"@,
{
    let mut options: Vec<String> = Vec::new();
    options.push("Choose another database".to_owned());
    options.push("Back to Routine Load menu".to_owned());
    options
}

/// What the entry that the operator chose in the recovery menu stands for: the
/// first entry for another database, any other for the way back.
pub fn show_no_jobs_recovery_menu(selection: usize) -> (r: NoJobsNextAction)
    ensures
        r == if selection == 0 {
            NoJobsNextAction::ChooseAnotherDatabase
        } else {
            NoJobsNextAction::BackToMenu
        },
{
    if selection == 0 {
        NoJobsNextAction::ChooseAnotherDatabase
    } else {
        NoJobsNextAction::BackToMenu
    }
}

/// What the entry that the operator chose after an unknown database stands for.
pub fn show_unknown_db_recovery_menu(selection: usize) -> (r: NoJobsNextAction)
    ensures
        r == if selection == 0 {
            NoJobsNextAction::ChooseAnotherDatabase
        } else {
            NoJobsNextAction::BackToMenu
        },
{
    show_no_jobs_recovery_menu(selection)
}

} // verus!
