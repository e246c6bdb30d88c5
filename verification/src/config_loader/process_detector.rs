use crate::config_loader::regex_utils::{
    capture, env_var_pattern, extract_env_var, first_pid, group_of, line_pid, opt_texts,
    pid_from_capture, regex_captures,
};
use crate::config_loader::config_parser::{
    parse_config_from_path, parsed_config, ConfigFile, ConfigFileView,
};
use crate::config_loader::{
    apply_be_ports, apply_fe_ports, with_be_ports, with_fe_ports, DorisConfig, DorisRecord,
    Environment,
};
use crate::error::{CliError, ErrorView};
use crate::text::{
    chars_of, concat, concat3, contains, decimal_text, has_substring, lines, lines_of, opt_str,
    opt_text, parent_path, path_parent, replace, replace_all, same_text, split_whitespace, texts,
    trim, trimmed, u64_to_string, words_of,
};
use vstd::prelude::*;

verus! {

/// One running instance of a role, as a detection pass found it.
#[derive(Debug)]
pub struct ProcessDetectionResult {
    pub pid: u32,
    pub command: String,
    pub environment: Environment,
    pub doris_home: String,
    pub java_home: String,
}

/// What a `ProcessDetectionResult` holds, as plain values.
pub struct ProcessSnapshot {
    pub pid: u32,
    pub command_line: Seq<char>,
    pub role: Environment,
    pub install_dir: Seq<char>,
    pub jdk_dir: Seq<char>,
}

impl View for ProcessDetectionResult {
    type V = ProcessSnapshot;

    open spec fn view(&self) -> ProcessSnapshot {
        ProcessSnapshot {
            pid: self.pid,
            command_line: self.command@,
            role: self.environment,
            install_dir: self.doris_home@,
            jdk_dir: self.java_home@,
        }
    }
}

impl Clone for ProcessDetectionResult {
    fn clone(&self) -> (r: ProcessDetectionResult)
        ensures
            r@ == self@,
    {
        ProcessDetectionResult {
            pid: self.pid,
            command: self.command.clone(),
            environment: self.environment,
            doris_home: self.doris_home.clone(),
            java_home: self.java_home.clone(),
        }
    }
}

/// What an optional detection result holds.
pub open spec fn opt_snapshot(o: Option<ProcessDetectionResult>) -> Option<ProcessSnapshot> {
    match o {
        Some(p) => Some(p@),
        None => None,
    }
}

/// A way of asking the system for the processes of one role.
#[derive(Debug, Clone, Copy, PartialEq, Eq, Structural)]
pub enum LocatorPattern {
    /// The process list, narrowed to the storage binary's name.
    BeListing,
    /// The Java process lister, narrowed to the coordination role's class name.
    FeJavaLister,
    /// The process list, narrowed to the coordination role's class name.
    FeClassName,
    /// The process list, narrowed to lines that name both `fe` and `java`.
    FeHeuristic,
}

impl LocatorPattern {
    /// The shell command that lists the candidates.
    pub open spec fn command_text(self) -> Seq<char> {
        match self {
            LocatorPattern::BeListing => "ps -ef | grep doris_be | grep -v grep"@,
            LocatorPattern::FeJavaLister => "jps | grep DorisFE"@,
            LocatorPattern::FeClassName => "ps -ef | grep DorisFE | grep -v grep"@,
            LocatorPattern::FeHeuristic => "ps -ef | grep -i fe | grep java | grep -v grep"@,
        }
    }

    /// The pattern whose first group is the process id in a line of the listing.
    pub open spec fn pid_pattern(self) -> Seq<char> {
        match self {
            LocatorPattern::FeJavaLister => "^\\s*(\\d+)"@,
            _ => "^\\S+\\s+(\\d+)"@,
        }
    }

    /// Whether the first column of a line names the process's owner.
    pub open spec fn has_owner_column(self) -> bool {
        !(self is FeJavaLister)
    }

    /// The role that the pattern looks for.
    pub open spec fn role(self) -> Environment {
        match self {
            LocatorPattern::BeListing => Environment::BE,
            _ => Environment::FE,
        }
    }

    /// The pattern to try where this one lists nothing.
    pub open spec fn successor(self) -> Option<LocatorPattern> {
        match self {
            LocatorPattern::FeJavaLister => Some(LocatorPattern::FeClassName),
            LocatorPattern::FeClassName => Some(LocatorPattern::FeHeuristic),
            _ => None,
        }
    }

    /// How many patterns come after this one.
    pub open spec fn remaining(self) -> nat {
        match self {
            LocatorPattern::FeJavaLister => 2,
            LocatorPattern::FeClassName => 1,
            _ => 0,
        }
    }

    /// The shell command that lists the candidates.
    pub fn command(&self) -> (r: String)
        ensures
            r@ == self.command_text(),
    {
        match self {
            LocatorPattern::BeListing => "ps -ef | grep doris_be | grep -v grep".to_owned(),
            LocatorPattern::FeJavaLister => "jps | grep DorisFE".to_owned(),
            LocatorPattern::FeClassName => "ps -ef | grep DorisFE | grep -v grep".to_owned(),
            LocatorPattern::FeHeuristic => "ps -ef | grep -i fe | grep java | grep -v grep"
                .to_owned(),
        }
    }

    /// The pattern whose first group is the process id in a line of the listing.
    pub fn pid_regex(&self) -> (r: String)
        ensures
            r@ == self.pid_pattern(),
    {
        match self {
            LocatorPattern::FeJavaLister => "^\\s*(\\d+)".to_owned(),
            _ => "^\\S+\\s+(\\d+)".to_owned(),
        }
    }

    /// Whether the first column of a line names the process's owner.
    pub fn owner_column(&self) -> (b: bool)
        ensures
            b == self.has_owner_column(),
    {
        match self {
            LocatorPattern::FeJavaLister => false,
            _ => true,
        }
    }

    /// The pattern to try where this one lists nothing.
    pub fn next(&self) -> (r: Option<LocatorPattern>)
        ensures
            r == self.successor(),
    {
        match self {
            LocatorPattern::FeJavaLister => Some(LocatorPattern::FeClassName),
            LocatorPattern::FeClassName => Some(LocatorPattern::FeHeuristic),
            _ => None,
        }
    }
}

/// The first pattern to try for a role; only the two single roles can be looked for.
pub open spec fn first_pattern_of(env: Environment) -> Option<LocatorPattern> {
    match env {
        Environment::BE => Some(LocatorPattern::BeListing),
        Environment::FE => Some(LocatorPattern::FeJavaLister),
        _ => None,
    }
}

/// The first pattern to try for a role.
pub fn first_pattern(env: Environment) -> (r: Option<LocatorPattern>)
    ensures
        r == first_pattern_of(env),
{
    match env {
        Environment::BE => Some(LocatorPattern::BeListing),
        Environment::FE => Some(LocatorPattern::FeJavaLister),
        _ => None,
    }
}

/// The owner named in the first column of a line.
pub open spec fn line_owner(line: Seq<char>) -> Option<Seq<char>> {
    let w = words_of(line);
    if w.len() > 0 {
        Some(w[0])
    } else {
        None
    }
}

/// The process id of the first of `lines` that holds one and belongs to `user`.
pub open spec fn first_pid_owned(pattern: Seq<char>, all: Seq<Seq<char>>, user: Seq<char>) -> Option<
    u32,
>
    decreases all.len(),
{
    if all.len() == 0 {
        None
    } else if line_owner(all[0]) == Some(user) && line_pid(pattern, all[0]) is Some {
        line_pid(pattern, all[0])
    } else {
        first_pid_owned(pattern, all.drop_first(), user)
    }
}

/// The process that a listing stands for. Of several lines, the first that holds a
/// process id and belongs to the current user wins; where no line belongs to that
/// user, the first line that holds a process id.
pub open spec fn chosen_pid(pattern: LocatorPattern, output: Seq<char>, user: Seq<char>) -> Option<
    u32,
> {
    let all = lines_of(output);
    let own = if pattern.has_owner_column() {
        first_pid_owned(pattern.pid_pattern(), all, user)
    } else {
        None
    };
    match own {
        Some(p) => Some(p),
        None => first_pid(pattern.pid_pattern(), all),
    }
}

/// The owner named in the first column of a line.
pub fn owner_of_line(line: &str) -> (r: Option<String>)
    ensures
        opt_text(r) == line_owner(line@),
{
    let w = split_whitespace(line);
    if w.len() > 0 {
        assert(texts(w@)[0] == w@[0]@);
        Some(w[0].clone())
    } else {
        None
    }
}

/// Picks the process that a listing stands for.
pub fn select_pid(pattern: LocatorPattern, output: &str, user: &str) -> (r: Option<u32>)
    ensures
        r == chosen_pid(pattern, output@, user@),
{
    let regex = pattern.pid_regex();
    let all = lines(output);
    let mut first: Option<u32> = None;
    let mut i: usize = 0;
    let ghost rows = texts(all@);
    let ghost pat = pattern.pid_pattern();
    assert(rows.skip(0) == rows);
    while i < all.len()
        invariant
            i <= all.len(),
            rows == texts(all@),
            rows == lines_of(output@),
            pat == pattern.pid_pattern(),
            regex@ == pat,
            first_pid_owned(pat, rows, user@) == first_pid_owned(pat, rows.skip(i as int), user@),
            match first {
                Some(p) => first_pid(pat, rows) == Some(p),
                None => first_pid(pat, rows) == first_pid(pat, rows.skip(i as int)),
            },
        decreases all.len() - i,
    {
        assert(rows.skip(i as int)[0] == all@[i as int]@);
        assert(rows.skip(i as int).drop_first() == rows.skip(i + 1));
        let c = capture(regex.as_str(), all[i].as_str(), 1);
        let p = pid_from_capture(&c);
        if p.is_some() {
            if first.is_none() {
                first = p;
            }
            if !pattern.owner_column() {
                return first;
            }
            let owner = owner_of_line(all[i].as_str());
            let mine = match owner {
                Some(o) => same_text(o.as_str(), user),
                None => false,
            };
            if mine {
                return p;
            }
        }
        i += 1;
    }
    assert(rows.skip(all.len() as int) =~= Seq::<Seq<char>>::empty());
    first
}

/// What a locator decides after one listing.
#[derive(Debug)]
pub enum LocatorStep {
    /// Nothing was listed: run this pattern next.
    Run(LocatorPattern),
    /// The role runs under this process id.
    Found(u32),
    /// The role does not run here, or its listing cannot be read.
    NotFound(CliError),
}

/// What a `LocatorStep` holds, as plain values.
pub enum LocatorStepView {
    Run(LocatorPattern),
    Found(u32),
    NotFound(ErrorView),
}

impl View for LocatorStep {
    type V = LocatorStepView;

    open spec fn view(&self) -> LocatorStepView {
        match self {
            LocatorStep::Run(p) => LocatorStepView::Run(*p),
            LocatorStep::Found(pid) => LocatorStepView::Found(*pid),
            LocatorStep::NotFound(e) => LocatorStepView::NotFound(e@),
        }
    }
}

/// Whether a listing produced no output: the command failed, or printed nothing
/// but white space.
pub open spec fn no_output(output: Option<Seq<char>>) -> bool {
    match output {
        Some(t) => trimmed(t).len() == 0,
        None => true,
    }
}

/// What is said where no process of a role runs.
pub open spec fn not_running_message(env: Environment) -> Seq<char> {
    match env {
        Environment::BE => "No BE processes found"@,
        _ => "No FE processes found"@,
    }
}

/// What is said where a listing holds no process id.
pub open spec fn unreadable_listing() -> ErrorView {
    ErrorView::ProcessNotFound("Invalid process info format"@)
}

/// The decision after the listing of `pattern` gave `output`: an empty listing
/// sends the locator on to the next pattern, and ends it where there is none; any
/// other listing ends it, with the process it stands for.
pub open spec fn step_of(pattern: LocatorPattern, output: Option<Seq<char>>, user: Seq<char>)
    -> LocatorStepView {
    if no_output(output) {
        match pattern.successor() {
            Some(n) => LocatorStepView::Run(n),
            None => LocatorStepView::NotFound(
                ErrorView::ProcessNotFound(not_running_message(pattern.role())),
            ),
        }
    } else {
        match chosen_pid(pattern, output->0, user) {
            Some(p) => LocatorStepView::Found(p),
            None => LocatorStepView::NotFound(unreadable_listing()),
        }
    }
}

/// Decides `no_output`.
pub fn is_blank_output(output: Option<&str>) -> (b: bool)
    ensures
        b == no_output(opt_str(output)),
{
    match output {
        Some(t) => {
            let s = trim(t);
            chars_of(s.as_str()).len() == 0
        },
        None => true,
    }
}

/// One step of the locator: what to do after the listing of `pattern` gave
/// `output` (`None` where the command could not be run).
pub fn locator_step(pattern: LocatorPattern, output: Option<&str>, user: &str) -> (r: LocatorStep)
    ensures
        r@ == step_of(pattern, opt_str(output), user@),
{
    if is_blank_output(output) {
        match pattern.next() {
            Some(n) => LocatorStep::Run(n),
            None => {
                let msg = match pattern {
                    LocatorPattern::BeListing => "No BE processes found".to_owned(),
                    _ => "No FE processes found".to_owned(),
                };
                LocatorStep::NotFound(CliError::ProcessNotFound(msg))
            },
        }
    } else {
        match output {
            Some(t) => match select_pid(pattern, t, user) {
                Some(p) => LocatorStep::Found(p),
                None => LocatorStep::NotFound(
                    CliError::ProcessNotFound("Invalid process info format".to_owned()),
                ),
            },
            None => LocatorStep::NotFound(
                CliError::ProcessNotFound("Invalid process info format".to_owned()),
            ),
        }
    }
}

/// The output of the listing number `k`; a listing that was not made counts as one
/// that could not be run.
pub open spec fn output_at(outputs: Seq<Option<Seq<char>>>, k: int) -> Option<Seq<char>> {
    if 0 <= k < outputs.len() {
        outputs[k]
    } else {
        None
    }
}

/// Where the locator ends when it starts at `pattern` with listing number `k`.
pub open spec fn located_from(
    pattern: LocatorPattern,
    outputs: Seq<Option<Seq<char>>>,
    k: int,
    user: Seq<char>,
) -> Result<u32, ErrorView>
    decreases pattern.remaining(),
{
    if no_output(output_at(outputs, k)) && pattern.successor() is Some {
        located_from(pattern.successor()->0, outputs, k + 1, user)
    } else {
        match step_of(pattern, output_at(outputs, k), user) {
            LocatorStepView::Found(p) => Ok(p),
            LocatorStepView::NotFound(e) => Err(e),
            LocatorStepView::Run(_) => Err(unreadable_listing()),
        }
    }
}

/// The process id of a role, from the listings of its patterns in order.
pub open spec fn located(env: Environment, outputs: Seq<Option<Seq<char>>>, user: Seq<char>)
    -> Result<u32, ErrorView> {
    match first_pattern_of(env) {
        Some(p) => located_from(p, outputs, 0, user),
        None => Err(ErrorView::ProcessNotFound("Invalid environment"@)),
    }
}

/// What a result holds, as plain values.
pub open spec fn pid_result(r: Result<u32, CliError>) -> Result<u32, ErrorView> {
    match r {
        Ok(p) => Ok(p),
        Err(e) => Err(e@),
    }
}

/// The process id of the first running instance of a role, from the listings of
/// the role's patterns in order. A pattern's listing is looked at only where every
/// pattern before it listed nothing.
pub fn get_pid_by_env(env: Environment, outputs: &Vec<Option<String>>, user: &str) -> (r: Result<
    u32,
    CliError,
>)
    ensures
        pid_result(r) == located(env, opt_texts(outputs@), user@),
{
    let mut pattern = match first_pattern(env) {
        Some(p) => p,
        None => {
            return Err(CliError::ProcessNotFound("Invalid environment".to_owned()));
        },
    };
    let mut k: usize = 0;
    loop
        invariant
            k <= 3,
            k + pattern.remaining() <= 2,
            located(env, opt_texts(outputs@), user@) == located_from(
                pattern,
                opt_texts(outputs@),
                k as int,
                user@,
            ),
        decreases pattern.remaining(),
    {
        let step = if k < outputs.len() {
            match &outputs[k] {
                Some(t) => locator_step(pattern, Some(t.as_str()), user),
                None => locator_step(pattern, None, user),
            }
        } else {
            locator_step(pattern, None, user)
        };
        match step {
            LocatorStep::Run(n) => {
                pattern = n;
                k += 1;
            },
            LocatorStep::Found(p) => {
                return Ok(p);
            },
            LocatorStep::NotFound(e) => {
                return Err(e);
            },
        }
    }
}

/// The order of fallback: the listing of a later pattern decides only where
/// every earlier pattern listed nothing, and the coordination role counts as not
/// running only where all three of its patterns listed nothing.
pub proof fn lemma_fallback_order(
    a: Option<Seq<char>>,
    b: Option<Seq<char>>,
    c: Option<Seq<char>>,
    user: Seq<char>,
)
    ensures
        !no_output(a) ==> located(Environment::FE, seq![a, b, c], user) == located_from(
            LocatorPattern::FeJavaLister,
            seq![a],
            0,
            user,
        ),
        no_output(a) ==> step_of(LocatorPattern::FeJavaLister, a, user) == LocatorStepView::Run(
            LocatorPattern::FeClassName,
        ),
        no_output(a) && !no_output(b) ==> located(Environment::FE, seq![a, b, c], user) == (
        match chosen_pid(LocatorPattern::FeClassName, b->0, user) {
            Some(p) => Ok::<u32, ErrorView>(p),
            None => Err(unreadable_listing()),
        }),
        no_output(b) ==> step_of(LocatorPattern::FeClassName, b, user) == LocatorStepView::Run(
            LocatorPattern::FeHeuristic,
        ),
        no_output(a) && no_output(b) && !no_output(c) ==> located(
            Environment::FE,
            seq![a, b, c],
            user,
        ) == (match chosen_pid(LocatorPattern::FeHeuristic, c->0, user) {
            Some(p) => Ok::<u32, ErrorView>(p),
            None => Err(unreadable_listing()),
        }),
        (no_output(a) && no_output(b) && no_output(c)) <==> located(
            Environment::FE,
            seq![a, b, c],
            user,
        ) == Err::<u32, ErrorView>(
            ErrorView::ProcessNotFound(not_running_message(Environment::FE)),
        ),
{
    reveal_with_fuel(located_from, 4);
    reveal_strlit("No FE processes found");
    reveal_strlit("Invalid process info format");
    assert("No FE processes found"@.len() != "Invalid process info format"@.len());
}

/// The install directory that is assumed where nothing tells it.
pub open spec fn default_install_dir() -> Seq<char> {
    "/opt/selectdb"@
}

/// The JDK directory that is assumed where nothing tells it.
pub open spec fn default_jdk_dir() -> Seq<char> {
    "/opt/jdk"@
}

/// The value of a variable in a process environment, where the environment could
/// be read and holds the variable.
pub open spec fn env_var(environ: Option<Seq<char>>, key: Seq<char>) -> Option<Seq<char>> {
    match environ {
        Some(e) => group_of(regex_captures(env_var_pattern(key), e), 1),
        None => None,
    }
}

/// The pattern of the command-line property that names the install directory.
pub open spec fn home_property_pattern() -> Seq<char> {
    "-DDORIS_HOME=(\\S+)"@
}

/// The pattern of the command-line property that names the logging configuration.
pub open spec fn logging_property_pattern() -> Seq<char> {
    "-Dlog4j2?\\.configurationFile=(?:file:)?(\\S+)"@
}

/// What marks the path of the storage role's binary.
pub open spec fn binary_marker() -> Seq<char> {
    "/lib/doris_be"@
}

/// The directory `n` levels above `path`.
pub open spec fn ancestor(path: Seq<char>, n: nat) -> Seq<char>
    decreases n,
{
    if n == 0 {
        path
    } else {
        ancestor(path_parent(path), (n - 1) as nat)
    }
}

/// A path as an install directory: the empty path is none.
pub open spec fn as_dir(path: Seq<char>) -> Option<Seq<char>> {
    if path.len() > 0 {
        Some(path)
    } else {
        None
    }
}

/// Whether a word of a command line is an absolute path to the storage binary.
pub open spec fn is_binary_path(word: Seq<char>) -> bool {
    word.len() > 0 && word[0] == '/' && has_substring(word, binary_marker())
}

/// The first word of a command line that is an absolute path to the storage binary.
pub open spec fn first_binary_path(words: Seq<Seq<char>>) -> Option<Seq<char>>
    decreases words.len(),
{
    if words.len() == 0 {
        None
    } else if is_binary_path(words[0]) {
        Some(words[0])
    } else {
        first_binary_path(words.drop_first())
    }
}

/// The install directory that a command line implies, first rule that applies:
/// the property that names it; two levels above the logging configuration file;
/// for the storage role, three levels above the path of its binary.
pub open spec fn install_dir_from_command(cmd: Seq<char>, env: Environment) -> Option<Seq<char>> {
    let by_property = group_of(regex_captures(home_property_pattern(), cmd), 1);
    let by_logging = match group_of(regex_captures(logging_property_pattern(), cmd), 1) {
        Some(f) => as_dir(ancestor(f, 2)),
        None => None,
    };
    let by_binary = if env == Environment::BE {
        match first_binary_path(words_of(cmd)) {
            Some(p) => as_dir(ancestor(p, 3)),
            None => None,
        }
    } else {
        None
    };
    if by_property is Some {
        by_property
    } else if by_logging is Some {
        by_logging
    } else {
        by_binary
    }
}

/// The install directory and the JDK directory of a running process. The
/// process's environment decides where it could be read and names the install
/// directory; else the command line; and the assumed directories stand in only
/// where both say nothing.
pub open spec fn paths_of(environ: Option<Seq<char>>, cmd: Seq<char>, env: Environment) -> (
    Seq<char>,
    Seq<char>,
) {
    let jdk = match env_var(environ, "JAVA_HOME"@) {
        Some(j) => j,
        None => default_jdk_dir(),
    };
    match env_var(environ, "DORIS_HOME"@) {
        Some(h) => (h, jdk),
        None => match install_dir_from_command(cmd, env) {
            Some(h) => (h, jdk),
            None => (default_install_dir(), default_jdk_dir()),
        },
    }
}

/// The directory `n` levels above `path`.
pub fn ancestor_path(path: &str, n: usize) -> (r: String)
    ensures
        r@ == ancestor(path@, n as nat),
{
    let mut cur = path.to_owned();
    let mut i: usize = 0;
    while i < n
        invariant
            i <= n,
            ancestor(path@, n as nat) == ancestor(cur@, (n - i) as nat),
        decreases n - i,
    {
        cur = parent_path(cur.as_str());
        i += 1;
    }
    cur
}

/// A path as an install directory.
pub fn dir_or_none(path: String) -> (r: Option<String>)
    ensures
        opt_text(r) == as_dir(path@),
{
    if chars_of(path.as_str()).len() > 0 {
        Some(path)
    } else {
        None
    }
}

/// The first word of a command line that is an absolute path to the storage binary.
pub fn find_binary_path(cmd: &str) -> (r: Option<String>)
    ensures
        opt_text(r) == first_binary_path(words_of(cmd@)),
{
    let words = split_whitespace(cmd);
    let ghost rows = texts(words@);
    let mut i: usize = 0;
    assert(rows.skip(0) == rows);
    while i < words.len()
        invariant
            i <= words.len(),
            rows == texts(words@),
            rows == words_of(cmd@),
            first_binary_path(rows) == first_binary_path(rows.skip(i as int)),
        decreases words.len() - i,
    {
        assert(rows.skip(i as int)[0] == words@[i as int]@);
        assert(rows.skip(i as int).drop_first() == rows.skip(i + 1));
        let w = chars_of(words[i].as_str());
        if w.len() > 0 && w[0] == '/' && contains(words[i].as_str(), "/lib/doris_be") {
            return Some(words[i].clone());
        }
        i += 1;
    }
    None
}

/// The install directory that a command line implies.
pub fn install_dir_of_command(cmd: &str, env: Environment) -> (r: Option<String>)
    ensures
        opt_text(r) == install_dir_from_command(cmd@, env),
{
    let by_property = capture("-DDORIS_HOME=(\\S+)", cmd, 1);
    if by_property.is_some() {
        return by_property;
    }
    let by_logging = match capture("-Dlog4j2?\\.configurationFile=(?:file:)?(\\S+)", cmd, 1) {
        Some(f) => dir_or_none(ancestor_path(f.as_str(), 2)),
        None => None,
    };
    if by_logging.is_some() {
        return by_logging;
    }
    match env {
        Environment::BE => match find_binary_path(cmd) {
            Some(p) => dir_or_none(ancestor_path(p.as_str(), 3)),
            None => None,
        },
        _ => None,
    }
}

/// The install directory and the JDK directory of a running process, from its
/// environment (`None` where it could not be read) and its command line.
pub fn get_paths_by_pid(environ: Option<&str>, command: &str, env: Environment) -> (r: (
    String,
    String,
))
    ensures
        (r.0@, r.1@) == paths_of(opt_str(environ), command@, env),
{
    let (home, java) = match environ {
        Some(e) => (extract_env_var(e, "DORIS_HOME"), extract_env_var(e, "JAVA_HOME")),
        None => (None, None),
    };
    let jdk = match java {
        Some(j) => j,
        None => "/opt/jdk".to_owned(),
    };
    match home {
        Some(h) => (h, jdk),
        None => match install_dir_of_command(command, env) {
            Some(h) => (h, jdk),
            None => ("/opt/selectdb".to_owned(), "/opt/jdk".to_owned()),
        },
    }
}

/// The shell command that prints the variables of a process's environment whose
/// lines match `grep_pattern`, one `KEY=VALUE` to a line.
pub open spec fn environ_command_text(pid: u32, grep_pattern: Seq<char>) -> Seq<char> {
    "cat /proc/"@ + decimal_text(pid as nat) + "/environ | tr '\\0' '\\n' | grep -E '"@
        + grep_pattern + "'"@
}

/// The shell command that prints a process's environment, narrowed to the lines
/// that match `grep_pattern`.
pub fn environ_command(pid: u32, grep_pattern: &str) -> (r: String)
    ensures
        r@ == environ_command_text(pid, grep_pattern@),
{
    let n = u64_to_string(pid as u64);
    let head = concat3("cat /proc/", n.as_str(), "/environ | tr '\\0' '\\n' | grep -E '");
    concat3(head.as_str(), grep_pattern, "'")
}

/// What is said where a process's environment cannot be read.
pub open spec fn environ_unavailable(pid: u32) -> ErrorView {
    ErrorView::ConfigError(
        "Cannot access process environment for PID "@ + decimal_text(pid as nat)
            + " - /proc filesystem not available"@,
    )
}

/// The environment of a process as it was read: `listing` is what the command of
/// `environ_command` printed, and `available` says whether the system offers a
/// process environment to read at all.
pub fn read_proc_environ_by_pid(pid: u32, available: bool, listing: Result<String, CliError>) -> (r:
    Result<String, CliError>)
    ensures
        available ==> r == listing,
        !available ==> r is Err && r->Err_0@ == environ_unavailable(pid),
{
    if available {
        listing
    } else {
        let n = u64_to_string(pid as u64);
        Err(
            CliError::ConfigError(
                concat3(
                    "Cannot access process environment for PID ",
                    n.as_str(),
                    " - /proc filesystem not available",
                ),
            ),
        )
    }
}

/// The first of the listings that printed something, trimmed.
pub open spec fn first_listed(outputs: Seq<Option<Seq<char>>>) -> Option<Seq<char>>
    decreases outputs.len(),
{
    if outputs.len() == 0 {
        None
    } else {
        match outputs[0] {
            Some(t) => if trimmed(t).len() > 0 {
                Some(trimmed(t))
            } else {
                first_listed(outputs.drop_first())
            },
            None => first_listed(outputs.drop_first()),
        }
    }
}

/// The command line of a process: what the system's record of it holds, with a
/// space for each separator; else what a process listing printed for it; else a
/// name made of the process id.
pub open spec fn command_of(pid: u32, record: Option<Seq<char>>, listings: Seq<Option<Seq<char>>>)
    -> Seq<char> {
    let from_record = match record {
        Some(c) => trimmed(replace_all(c, seq!['\0'], seq![' '])),
        None => seq![],
    };
    if from_record.len() > 0 {
        from_record
    } else {
        match first_listed(listings) {
            Some(t) => t,
            None => "unknown_process_"@ + decimal_text(pid as nat),
        }
    }
}

/// The command line of a process, from the system's record of it (`None` where
/// there is none) and from what the process listings printed for it, in the order
/// in which they were asked (`None` for one that failed).
pub fn get_process_command(pid: u32, record: Option<&str>, listings: &Vec<Option<String>>) -> (r:
    String)
    ensures
        r@ == command_of(pid, opt_str(record), opt_texts(listings@)),
{
    match record {
        Some(c) => {
            proof {
                reveal_strlit("\0");
                reveal_strlit(" ");
                assert("\0"@ =~= seq!['\0']);
                assert(" "@ =~= seq![' ']);
            }
            let spaced = replace(c, "\0", " ");
            let t = trim(spaced.as_str());
            if chars_of(t.as_str()).len() > 0 {
                return t;
            }
        },
        None => {},
    }
    let ghost rows = opt_texts(listings@);
    let mut i: usize = 0;
    assert(rows.skip(0) == rows);
    while i < listings.len()
        invariant
            i <= listings.len(),
            rows == opt_texts(listings@),
            first_listed(rows) == first_listed(rows.skip(i as int)),
            match opt_str(record) {
                Some(c) => trimmed(replace_all(c, seq!['\0'], seq![' '])).len() == 0,
                None => true,
            },
        decreases listings.len() - i,
    {
        assert(rows.skip(i as int)[0] == opt_text(listings@[i as int]));
        assert(rows.skip(i as int).drop_first() == rows.skip(i + 1));
        match &listings[i] {
            Some(o) => {
                let t = trim(o.as_str());
                if chars_of(t.as_str()).len() > 0 {
                    return t;
                }
            },
            None => {},
        }
        i += 1;
    }
    let n = u64_to_string(pid as u64);
    concat("unknown_process_", n.as_str())
}

/// What is said of a configuration file that is not there.
pub open spec fn missing_file(path: Seq<char>) -> ErrorView {
    ErrorView::ConfigError("Config file does not exist: "@ + path)
}

/// Accepts a configuration file that exists, and says which file is missing
/// where it does not.
pub fn verify_config_file(path: &str, exists: bool) -> (r: Result<(), CliError>)
    ensures
        exists ==> r is Ok,
        !exists ==> r is Err && r->Err_0@ == missing_file(path@),
{
    if !exists {
        return Err(CliError::ConfigError(concat("Config file does not exist: ", path)));
    }
    Ok(())
}

/// The snapshot of one role as a detection pass builds it.
pub open spec fn snapshot_of(
    env: Environment,
    pid: u32,
    command: Seq<char>,
    environ: Option<Seq<char>>,
) -> ProcessSnapshot {
    ProcessSnapshot {
        pid,
        command_line: command,
        role: env,
        install_dir: paths_of(environ, command, env).0,
        jdk_dir: paths_of(environ, command, env).1,
    }
}

/// Whether a snapshot is that of one role: a snapshot never stands for both
/// roles, nor for none.
pub open spec fn single_role(p: ProcessSnapshot) -> bool {
    p.role == Environment::BE || p.role == Environment::FE
}

/// Whether the two snapshots of a detection pass are those of their roles: the
/// one of the storage role, the other of the coordination role.
pub open spec fn roles_fit(be: Option<ProcessSnapshot>, fe: Option<ProcessSnapshot>) -> bool {
    &&& be is Some ==> be->0.role == Environment::BE
    &&& fe is Some ==> fe->0.role == Environment::FE
}

/// Decides `roles_fit`.
pub fn snapshots_fit(be: &Option<ProcessDetectionResult>, fe: &Option<ProcessDetectionResult>) -> (b:
    bool)
    ensures
        b == roles_fit(opt_snapshot(*be), opt_snapshot(*fe)),
{
    let be_fits = match be {
        Some(p) => p.environment == Environment::BE,
        None => true,
    };
    let fe_fits = match fe {
        Some(p) => p.environment == Environment::FE,
        None => true,
    };
    be_fits && fe_fits
}

/// Builds the snapshot of one role from what the locator found, the process's
/// command line and its environment. Where the locator found nothing, so does
/// this, for the same reason; and there is no snapshot of anything but a single
/// role.
pub fn detect_process_detailed(
    env: Environment,
    pid: Result<u32, CliError>,
    command: String,
    environ: Option<&str>,
) -> (r: Result<ProcessDetectionResult, CliError>)
    ensures
        match pid {
            Ok(p) => if env == Environment::BE || env == Environment::FE {
                r is Ok && r->Ok_0@ == snapshot_of(env, p, command@, opt_str(environ))
            } else {
                r is Err && r->Err_0@ == ErrorView::ProcessNotFound("Invalid environment"@)
            },
            Err(e) => r is Err && r->Err_0 == e,
        },
        r is Ok ==> single_role(r->Ok_0@) && r->Ok_0@.role == env,
{
    match pid {
        Ok(p) => {
            if env != Environment::BE && env != Environment::FE {
                return Err(CliError::ProcessNotFound("Invalid environment".to_owned()));
            }
            let (doris_home, java_home) = get_paths_by_pid(environ, command.as_str(), env);
            Ok(ProcessDetectionResult { pid: p, command, environment: env, doris_home, java_home })
        },
        Err(e) => Err(e),
    }
}

/// What is said where the install directory of a running role is not known.
pub open spec fn home_unknown(env: Environment) -> ErrorView {
    ErrorView::ConfigError(
        "DORIS_HOME not found in "@ + env.label_text() + " process environment"@,
    )
}

/// The install directory and the JDK directory of the running instance of a role.
/// The assumed install directory does not count as known.
pub fn get_paths(
    env: Environment,
    pid: Result<u32, CliError>,
    environ: Option<&str>,
    command: &str,
) -> (r: Result<(String, String), CliError>)
    ensures
        match pid {
            Ok(p) => {
                let found = paths_of(opt_str(environ), command@, env);
                if found.0 == default_install_dir() {
                    r is Err && r->Err_0@ == home_unknown(env)
                } else {
                    r is Ok && (r->Ok_0.0@, r->Ok_0.1@) == found
                }
            },
            Err(e) => r is Err && r->Err_0 == e,
        },
{
    match pid {
        Ok(_p) => {
            let (install_path, jdk_path) = get_paths_by_pid(environ, command, env);
            if same_text(install_path.as_str(), "/opt/selectdb") {
                let label = env.label();
                Err(
                    CliError::ConfigError(
                        concat3("DORIS_HOME not found in ", label.as_str(), " process environment"),
                    ),
                )
            } else {
                Ok((install_path, jdk_path))
            }
        },
        Err(e) => Err(e),
    }
}

/// What a vector of detection results holds.
pub open spec fn snapshots(v: Seq<ProcessDetectionResult>) -> Seq<ProcessSnapshot> {
    Seq::new(v.len(), |i: int| v[i]@)
}

/// The roles that run, storage role first.
pub open spec fn running(be: Option<ProcessSnapshot>, fe: Option<ProcessSnapshot>) -> Seq<
    ProcessSnapshot,
> {
    (match be {
        Some(p) => seq![p],
        None => seq![],
    }) + (match fe {
        Some(p) => seq![p],
        None => seq![],
    })
}

/// What is said where no role runs.
pub open spec fn nothing_runs() -> ErrorView {
    ErrorView::ProcessNotFound("No Doris processes found"@)
}

/// Every role that a detection pass found, storage role first; it is a failure
/// where it found none.
pub fn detect_all_processes(
    be: Option<ProcessDetectionResult>,
    fe: Option<ProcessDetectionResult>,
) -> (r: Result<Vec<ProcessDetectionResult>, CliError>)
    requires
        roles_fit(opt_snapshot(be), opt_snapshot(fe)),
    ensures
        match r {
            Ok(v) => snapshots(v@) == running(opt_snapshot(be), opt_snapshot(fe)) && v@.len() > 0,
            Err(e) => be is None && fe is None && e@ == nothing_runs(),
        },
        r is Ok ==> forall|i: int| 0 <= i < r->Ok_0@.len() ==> single_role(#[trigger] r->Ok_0@[i]@),
{
    let mut processes: Vec<ProcessDetectionResult> = Vec::new();
    match be {
        Some(p) => {
            processes.push(p);
        },
        None => {},
    }
    match fe {
        Some(p) => {
            processes.push(p);
        },
        None => {},
    }
    if processes.len() == 0 {
        Err(CliError::ProcessNotFound("No Doris processes found".to_owned()))
    } else {
        assert(snapshots(processes@) =~= running(opt_snapshot(be), opt_snapshot(fe)));
        assert forall|i: int| 0 <= i < processes@.len() implies single_role(
            #[trigger] processes@[i]@,
        ) by {
            assert(snapshots(processes@)[i] == processes@[i]@);
        }
        Ok(processes)
    }
}

/// The role that counts as the current one: the storage role where it runs, else
/// the coordination role.
pub open spec fn current_of(be: Option<ProcessSnapshot>, fe: Option<ProcessSnapshot>) -> Option<
    ProcessSnapshot,
> {
    match be {
        Some(p) => Some(p),
        None => fe,
    }
}

/// The role that counts as the current one; it is a failure where none runs.
pub fn detect_current_process(
    be: Option<ProcessDetectionResult>,
    fe: Option<ProcessDetectionResult>,
) -> (r: Result<ProcessDetectionResult, CliError>)
    requires
        roles_fit(opt_snapshot(be), opt_snapshot(fe)),
    ensures
        match r {
            Ok(p) => current_of(opt_snapshot(be), opt_snapshot(fe)) == Some(p@) && single_role(p@),
            Err(e) => be is None && fe is None && e@ == nothing_runs(),
        },
{
    match be {
        Some(p) => Ok(p),
        None => match fe {
            Some(p) => Ok(p),
            None => Err(CliError::ProcessNotFound("No Doris processes found".to_owned())),
        },
    }
}

/// The role of this host as a detection pass saw it.
pub open spec fn environment_of(be: Option<ProcessSnapshot>, fe: Option<ProcessSnapshot>)
    -> Environment {
    match current_of(be, fe) {
        Some(p) => p.role,
        None => Environment::Unknown,
    }
}

/// The role of this host: that of the current process, and unknown where none
/// runs. This never fails.
pub fn detect_environment(
    be: Option<ProcessDetectionResult>,
    fe: Option<ProcessDetectionResult>,
) -> (r: Result<Environment, CliError>)
    requires
        roles_fit(opt_snapshot(be), opt_snapshot(fe)),
    ensures
        r is Ok,
        r->Ok_0 == environment_of(opt_snapshot(be), opt_snapshot(fe)),
        r->Ok_0 != Environment::Mixed,
{
    match detect_current_process(be, fe) {
        Ok(p) => Ok(p.environment),
        Err(_) => Ok(Environment::Unknown),
    }
}

/// The record with the coordination role of a mixed host entered: its process,
/// and its ports where the record is not already that of the coordination role and
/// its configuration file can be parsed.
pub open spec fn with_fe_side(rec: DorisRecord, f: ProcessSnapshot, fe_file: ConfigFileView)
    -> DorisRecord {
    let noted = DorisRecord {
        fe_process_pid: Some(f.pid),
        fe_process_command: Some(f.command_line),
        fe_install_dir: Some(f.install_dir),
        ..rec
    };
    if rec.environment != Environment::FE {
        match parsed_config(Environment::FE, f.install_dir, default_jdk_dir(), fe_file) {
            Ok(parsed) => with_fe_ports(noted, parsed),
            Err(_) => noted,
        }
    } else {
        noted
    }
}

/// The record with the storage role of a mixed host entered.
pub open spec fn with_be_side(rec: DorisRecord, b: ProcessSnapshot, be_file: ConfigFileView)
    -> DorisRecord {
    let noted = DorisRecord {
        be_process_pid: Some(b.pid),
        be_process_command: Some(b.command_line),
        be_install_dir: Some(b.install_dir),
        ..rec
    };
    if rec.environment != Environment::BE {
        match parsed_config(Environment::BE, b.install_dir, default_jdk_dir(), be_file) {
            Ok(parsed) => with_be_ports(noted, parsed),
            Err(_) => noted,
        }
    } else {
        noted
    }
}

/// The record after a detection pass was searched for a mixed deployment: both
/// roles are entered where both run, and nothing changes where only one does.
pub open spec fn mixed_applied(
    rec: DorisRecord,
    be: Option<ProcessSnapshot>,
    fe: Option<ProcessSnapshot>,
    be_file: ConfigFileView,
    fe_file: ConfigFileView,
) -> DorisRecord {
    match (be, fe) {
        (Some(b), Some(f)) => with_be_side(with_fe_side(rec, f, fe_file), b, be_file),
        _ => rec,
    }
}

/// Searches a detection pass for a mixed deployment, and enters both roles in the
/// record where both run: `be` and `fe` are the snapshots of the two roles, and
/// the two files are their configuration files as found under their install
/// directories. The answer says whether both run; it is a failure where none does.
pub fn detect_mixed_deployment(
    config: &mut DorisConfig,
    be: &Option<ProcessDetectionResult>,
    fe: &Option<ProcessDetectionResult>,
    be_file: &ConfigFile,
    fe_file: &ConfigFile,
) -> (r: Result<bool, CliError>)
    requires
        roles_fit(opt_snapshot(*be), opt_snapshot(*fe)),
    ensures
        final(config)@ == mixed_applied(
            old(config)@,
            opt_snapshot(*be),
            opt_snapshot(*fe),
            be_file@,
            fe_file@,
        ),
        match r {
            Ok(mixed) => (be is Some || fe is Some) && mixed == (be is Some && fe is Some),
            Err(e) => be is None && fe is None && e@ == nothing_runs(),
        },
{
    if be.is_none() && fe.is_none() {
        return Err(CliError::ProcessNotFound("No Doris processes found".to_owned()));
    }
    let env = config.environment;
    match (be, fe) {
        (Some(b), Some(f)) => {
            config.fe_process_pid = Some(f.pid);
            config.fe_process_command = Some(f.command.clone());
            config.fe_install_dir = Some(f.doris_home.clone());
            if env != Environment::FE {
                match parse_config_from_path(Environment::FE, f.doris_home.as_str(), fe_file) {
                    Ok(parsed) => {
                        apply_fe_ports(config, &parsed);
                    },
                    Err(_) => {},
                }
            }
            config.be_process_pid = Some(b.pid);
            config.be_process_command = Some(b.command.clone());
            config.be_install_dir = Some(b.doris_home.clone());
            if env != Environment::BE {
                match parse_config_from_path(Environment::BE, b.doris_home.as_str(), be_file) {
                    Ok(parsed) => {
                        apply_be_ports(config, &parsed);
                    },
                    Err(_) => {},
                }
            }
            Ok(true)
        },
        _ => Ok(false),
    }
}

/// On a host whose record is that of the coordination role, finding both roles
/// enters the storage role beside it: the storage ports are those of its
/// configuration file, and nothing that belongs to the coordination role changes.
pub proof fn lemma_mixed_precedence(
    rec: DorisRecord,
    b: ProcessSnapshot,
    f: ProcessSnapshot,
    be_file: ConfigFileView,
    fe_file: ConfigFileView,
)
    requires
        rec.environment == Environment::FE,
    ensures
        ({
            let after = mixed_applied(rec, Some(b), Some(f), be_file, fe_file);
            &&& after.http_port == rec.http_port
            &&& after.rpc_port == rec.rpc_port
            &&& after.query_port == rec.query_port
            &&& after.edit_log_port == rec.edit_log_port
            &&& after.cloud_http_port == rec.cloud_http_port
            &&& after.meta_dir == rec.meta_dir
            &&& after.be_process_pid == Some(b.pid)
            &&& after.be_process_command == Some(b.command_line)
            &&& after.be_install_dir == Some(b.install_dir)
            &&& after.fe_process_pid == Some(f.pid)
            &&& match parsed_config(Environment::BE, b.install_dir, default_jdk_dir(), be_file) {
                Ok(parsed) => {
                    &&& after.be_port == parsed.be_port
                    &&& after.brpc_port == parsed.brpc_port
                    &&& after.heartbeat_service_port == parsed.heartbeat_service_port
                    &&& after.webserver_port == parsed.webserver_port
                },
                Err(_) => {
                    &&& after.be_port == rec.be_port
                    &&& after.brpc_port == rec.brpc_port
                    &&& after.heartbeat_service_port == rec.heartbeat_service_port
                    &&& after.webserver_port == rec.webserver_port
                },
            }
        }),
{
}

/// How running a shell command went.
#[derive(Debug)]
pub enum ShellOutcome {
    /// The shell could not be started; the text is the system's message.
    SpawnFailed(String),
    /// What the command wrote to its standard output is no text; the text is the
    /// decoder's message.
    NotText(String),
    /// What the command wrote to its standard output, whatever its exit status.
    Output(String),
}

/// What a `ShellOutcome` holds, as plain values.
pub enum ShellOutcomeView {
    SpawnFailed(Seq<char>),
    NotText(Seq<char>),
    Output(Seq<char>),
}

impl View for ShellOutcome {
    type V = ShellOutcomeView;

    open spec fn view(&self) -> ShellOutcomeView {
        match self {
            ShellOutcome::SpawnFailed(e) => ShellOutcomeView::SpawnFailed(e@),
            ShellOutcome::NotText(e) => ShellOutcomeView::NotText(e@),
            ShellOutcome::Output(t) => ShellOutcomeView::Output(t@),
        }
    }
}

/// What a shell command gave: its standard output without the white space
/// around it, or the failure. A command that ends with an exit status other
/// than zero has not failed by that alone.
pub open spec fn shell_result(outcome: ShellOutcomeView) -> Result<Seq<char>, ErrorView> {
    match outcome {
        ShellOutcomeView::SpawnFailed(e) => Err(
            ErrorView::ConfigError("Failed to execute command: "@ + e),
        ),
        ShellOutcomeView::NotText(e) => Err(
            ErrorView::ConfigError("Failed to parse command output: "@ + e),
        ),
        ShellOutcomeView::Output(t) => Ok(trimmed(t)),
    }
}

/// Judges how a shell command went.
pub fn execute_command(outcome: &ShellOutcome) -> (r: Result<String, CliError>)
    ensures
        match r {
            Ok(t) => shell_result(outcome@) == Ok::<_, ErrorView>(t@),
            Err(e) => shell_result(outcome@) == Err::<Seq<char>, _>(e@),
        },
{
    match outcome {
        ShellOutcome::SpawnFailed(e) => Err(
            CliError::ConfigError(concat("Failed to execute command: ", e.as_str())),
        ),
        ShellOutcome::NotText(e) => Err(
            CliError::ConfigError(concat("Failed to parse command output: ", e.as_str())),
        ),
        ShellOutcome::Output(t) => Ok(trim(t.as_str())),
    }
}

} // verus!
