use crate::error::{CliError, ErrorView};
use crate::text::{
    concat, concat3, ends_with, has_prefix, has_suffix, join_path, path_join, starts_with, texts,
};
use vstd::prelude::*;

verus! {

/// What is said where the user has no home directory.
pub open spec fn no_home_dir() -> ErrorView {
    ErrorView::ConfigError("Could not determine the user's home directory"@)
}

/// The directory of the console under the user's home directory. It is a
/// failure where the user has none.
pub fn get_user_config_dir(home: Option<&str>) -> (r: Result<String, CliError>)
    ensures
        match home {
            Some(h) => r is Ok && r->Ok_0@ == path_join(path_join(h@, ".config"@), "cloud-cli"@),
            None => r is Err && r->Err_0@ == no_home_dir(),
        },
{
    match home {
        Some(h) => {
            let dir = join_path(h, ".config");
            Ok(join_path(dir.as_str(), "cloud-cli"))
        },
        None => Err(
            CliError::ConfigError("Could not determine the user's home directory".to_owned()),
        ),
    }
}

/// Whether a file is a log to read: its name begins with the prefix, and it is
/// no compressed archive.
pub open spec fn is_log_name(name: Seq<char>, prefix: Seq<char>) -> bool {
    has_prefix(name, prefix) && !has_suffix(name, ".gz"@) && !has_suffix(name, ".zip"@)
        && !has_suffix(name, ".tar"@) && !has_suffix(name, ".tar.gz"@)
}

/// Whether a file is a log to read.
pub fn is_log_file_name(name: &str, log_prefix: &str) -> (b: bool)
    ensures
        b == is_log_name(name@, log_prefix@),
{
    starts_with(name, log_prefix) && !ends_with(name, ".gz") && !ends_with(name, ".zip")
        && !ends_with(name, ".tar") && !ends_with(name, ".tar.gz")
}

/// A file of a directory.
#[derive(Debug)]
pub struct DirFile {
    /// The path of the file.
    pub path: String,
    /// The name of the file, without its directory.
    pub name: String,
    /// When the file was last changed, in seconds since the start of 1970;
    /// nothing where the system cannot tell.
    pub modified: Option<u64>,
}

/// What a `DirFile` holds, as plain values.
pub struct DirFileView {
    pub path: Seq<char>,
    pub name: Seq<char>,
    pub modified: Option<u64>,
}

impl View for DirFile {
    type V = DirFileView;

    open spec fn view(&self) -> DirFileView {
        DirFileView { path: self.path@, name: self.name@, modified: self.modified }
    }
}

/// A directory, as it was found.
#[derive(Debug)]
pub enum DirListing {
    /// There is no such path.
    Missing,
    /// The path is no directory.
    NotADirectory,
    /// The directory could not be read; the text is the system's message.
    Unreadable(String),
    /// The files of the directory.
    Files(Vec<DirFile>),
}

/// What a vector of files holds.
pub open spec fn file_views(v: Seq<DirFile>) -> Seq<DirFileView> {
    Seq::new(v.len(), |i: int| v[i]@)
}

/// What a `DirListing` holds, as plain values.
pub enum DirListingView {
    Missing,
    NotADirectory,
    Unreadable(Seq<char>),
    Files(Seq<DirFileView>),
}

impl View for DirListing {
    type V = DirListingView;

    open spec fn view(&self) -> DirListingView {
        match self {
            DirListing::Missing => DirListingView::Missing,
            DirListing::NotADirectory => DirListingView::NotADirectory,
            DirListing::Unreadable(e) => DirListingView::Unreadable(e@),
            DirListing::Files(v) => DirListingView::Files(file_views(v@)),
        }
    }
}

/// Whether a file was not changed after another: a file of unknown time counts
/// as older than any other.
pub open spec fn not_newer(a: Option<u64>, b: Option<u64>) -> bool {
    match (a, b) {
        (None, _) => true,
        (Some(_), None) => false,
        (Some(x), Some(y)) => x <= y,
    }
}

/// A list of files, newest first, with one more file put in: before the first
/// file that is not newer than it.
pub open spec fn with_file(sorted: Seq<DirFileView>, file: DirFileView) -> Seq<DirFileView>
    decreases sorted.len(),
{
    if sorted.len() == 0 {
        seq![file]
    } else if not_newer(sorted[0].modified, file.modified) {
        seq![file] + sorted
    } else {
        seq![sorted[0]] + with_file(sorted.drop_first(), file)
    }
}

/// The logs among the files of a directory, newest first; of two logs of one
/// time the later in the directory comes first.
pub open spec fn logs_newest_first(files: Seq<DirFileView>, prefix: Seq<char>) -> Seq<DirFileView>
    decreases files.len(),
{
    if files.len() == 0 {
        seq![]
    } else if is_log_name(files.last().name, prefix) {
        with_file(logs_newest_first(files.drop_last(), prefix), files.last())
    } else {
        logs_newest_first(files.drop_last(), prefix)
    }
}

/// The paths of a list of files.
pub open spec fn paths_of_files(files: Seq<DirFileView>) -> Seq<Seq<char>> {
    Seq::new(files.len(), |i: int| files[i].path)
}

/// What collecting the logs of a directory gives: the paths of its logs, newest
/// first, or what is wrong with the directory. A directory without a log is a
/// failure too.
pub open spec fn collected_logs(dir: Seq<char>, listing: DirListingView, prefix: Seq<char>)
    -> Result<Seq<Seq<char>>, ErrorView> {
    match listing {
        DirListingView::Missing => Err(
            ErrorView::ConfigError("Log directory does not exist: "@ + dir),
        ),
        DirListingView::NotADirectory => Err(
            ErrorView::ConfigError("Path is not a directory: "@ + dir),
        ),
        DirListingView::Unreadable(e) => Err(ErrorView::IoError(e)),
        DirListingView::Files(files) => {
            let logs = logs_newest_first(files, prefix);
            if logs.len() == 0 {
                Err(
                    ErrorView::ConfigError(
                        "No "@ + prefix + " files found in directory: "@ + dir,
                    ),
                )
            } else {
                Ok(paths_of_files(logs))
            }
        },
    }
}

/// Whether a file was not changed after another.
fn is_not_newer(a: Option<u64>, b: Option<u64>) -> (r: bool)
    ensures
        r == not_newer(a, b),
{
    match (a, b) {
        (None, _) => true,
        (Some(_), None) => false,
        (Some(x), Some(y)) => x <= y,
    }
}

/// Putting a file into a list leaves what stands before the place of the file.
proof fn lemma_with_file_at(sorted: Seq<DirFileView>, file: DirFileView, p: int)
    requires
        0 <= p <= sorted.len(),
        forall|k: int| 0 <= k < p ==> !not_newer(#[trigger] sorted[k].modified, file.modified),
        p < sorted.len() ==> not_newer(sorted[p].modified, file.modified),
    ensures
        with_file(sorted, file) == sorted.take(p) + seq![file] + sorted.skip(p),
    decreases sorted.len(),
{
    if sorted.len() == 0 {
        assert(sorted.take(p) + seq![file] + sorted.skip(p) =~= seq![file]);
    } else if p == 0 {
        assert(sorted.take(0) + seq![file] + sorted.skip(0) =~= seq![file] + sorted);
    } else {
        let rest = sorted.drop_first();
        assert forall|k: int| 0 <= k < p - 1 implies !not_newer(
            #[trigger] rest[k].modified,
            file.modified,
        ) by {
            assert(rest[k] == sorted[k + 1]);
        }
        lemma_with_file_at(rest, file, p - 1);
        assert(!not_newer(sorted[0].modified, file.modified));
        assert(seq![sorted[0]] + (rest.take(p - 1) + seq![file] + rest.skip(p - 1)) =~= sorted.take(
            p,
        ) + seq![file] + sorted.skip(p));
    }
}

/// Collects the logs of a directory whose names begin with `log_prefix`.
pub fn collect_log_files(dir: &str, listing: &DirListing, log_prefix: &str) -> (r: Result<
    Vec<String>,
    CliError,
>)
    ensures
        match r {
            Ok(paths) => collected_logs(dir@, listing@, log_prefix@) == Ok::<_, ErrorView>(
                texts(paths@),
            ),
            Err(e) => collected_logs(dir@, listing@, log_prefix@) == Err::<Seq<Seq<char>>, _>(e@),
        },
{
    let files = match listing {
        DirListing::Missing => {
            return Err(CliError::ConfigError(concat("Log directory does not exist: ", dir)));
        },
        DirListing::NotADirectory => {
            return Err(CliError::ConfigError(concat("Path is not a directory: ", dir)));
        },
        DirListing::Unreadable(e) => {
            return Err(CliError::IoError(e.clone()));
        },
        DirListing::Files(files) => files,
    };
    let ghost all = file_views(files@);
    let mut paths: Vec<String> = Vec::new();
    let mut times: Vec<Option<u64>> = Vec::new();
    let ghost mut sorted: Seq<DirFileView> = seq![];
    let mut i: usize = 0;
    assert(all.take(0) =~= Seq::<DirFileView>::empty());
    assert(texts(paths@) =~= paths_of_files(sorted));
    while i < files.len()
        invariant
            i <= files.len(),
            all == file_views(files@),
            sorted == logs_newest_first(all.take(i as int), log_prefix@),
            texts(paths@) == paths_of_files(sorted),
            times@.len() == sorted.len(),
            paths@.len() == times@.len(),
            forall|k: int| 0 <= k < sorted.len() ==> times@[k] == (#[trigger] sorted[k]).modified,
        decreases files.len() - i,
    {
        let ghost next = all.take(i + 1);
        assert(next.drop_last() == all.take(i as int));
        assert(next.last() == files@[i as int]@);
        if is_log_file_name(files[i].name.as_str(), log_prefix) {
            let ghost file = files@[i as int]@;
            let mut p: usize = 0;
            while p < times.len() && !is_not_newer(times[p], files[i].modified)
                invariant
                    p <= times.len(),
                    i < files.len(),
                    paths@.len() == times@.len(),
                    file == files@[i as int]@,
                    times@.len() == sorted.len(),
                    forall|k: int|
                        0 <= k < sorted.len() ==> times@[k] == (#[trigger] sorted[k]).modified,
                    forall|k: int|
                        0 <= k < p ==> !not_newer(#[trigger] sorted[k].modified, file.modified),
                decreases times.len() - p,
            {
                p += 1;
            }
            proof {
                lemma_with_file_at(sorted, file, p as int);
            }
            let ghost before = sorted;
            let ghost held = texts(paths@);
            paths.insert(p, files[i].path.clone());
            times.insert(p, files[i].modified);
            proof {
                sorted = with_file(before, file);
                assert(texts(paths@) =~= held.take(p as int) + seq![file.path] + held.skip(
                    p as int,
                ));
                assert(texts(paths@) =~= paths_of_files(sorted));
                assert forall|k: int| 0 <= k < sorted.len() implies times@[k] == (
                #[trigger] sorted[k]).modified by {
                    if k < p {
                        assert(sorted[k] == before[k]);
                    } else if k > p {
                        assert(sorted[k] == before[k - 1]);
                    }
                }
            }
        }
        i += 1;
    }
    assert(all.take(files.len() as int) == all);
    if paths.len() == 0 {
        let head = concat3("No ", log_prefix, " files found in directory: ");
        return Err(CliError::ConfigError(concat(head.as_str(), dir)));
    }
    Ok(paths)
}

/// Collects the logs of the coordination role in a directory.
pub fn collect_fe_logs(dir: &str, listing: &DirListing) -> (r: Result<Vec<String>, CliError>)
    ensures
        match r {
            Ok(paths) => collected_logs(dir@, listing@, "fe.log"@) == Ok::<_, ErrorView>(
                texts(paths@),
            ),
            Err(e) => collected_logs(dir@, listing@, "fe.log"@) == Err::<Seq<Seq<char>>, _>(e@),
        },
{
    collect_log_files(dir, listing, "fe.log")
}

/// Collects the logs of the storage role in a directory.
pub fn collect_be_logs(dir: &str, listing: &DirListing) -> (r: Result<Vec<String>, CliError>)
    ensures
        match r {
            Ok(paths) => collected_logs(dir@, listing@, "be.INFO"@) == Ok::<_, ErrorView>(
                texts(paths@),
            ),
            Err(e) => collected_logs(dir@, listing@, "be.INFO"@) == Err::<Seq<Seq<char>>, _>(e@),
        },
{
    collect_log_files(dir, listing, "be.INFO")
}

} // verus!
