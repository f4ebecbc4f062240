//! The operations a command line asks for, and the single filesystem action
//! each one performs: dispatch decides everything here — the fresh ID, every
//! path touched, and which stream each file is copied to — and leaves only
//! the raw filesystem work to the caller.

use vstd::prelude::*;
use crate::id::generate_id;
use crate::id::valid_id;
use crate::paths::path_join;
use crate::paths::record_path;
use crate::paths::status_path;
use crate::paths::stderr_path;
use crate::paths::stdout_path;
use crate::text::push_char;

verus! {

/// Subcommand to execute.
pub enum CliCommand {
    /// Delete a record.
    Delete { record_id: String },
    /// Expire all records.
    Expire,
    /// Print previously recorded output, both streams.
    Output { record_id: String },
    /// Record the status and output of a command.
    Record { args: Vec<String> },
    /// Print a previously recorded status.
    Status { record_id: String },
    /// Print previously recorded error output.
    Stderr { record_id: String },
    /// Print previously recorded output.
    Stdout { record_id: String },
}

/// A parsed command line: the subcommand, and an optional override for the
/// base path records are stored under.
pub struct Cli {
    pub command: CliCommand,
    pub base_path: Option<String>,
}

/// One stream copy: the file whose bytes are reproduced, and whether they go
/// to the caller's stderr rather than its stdout.
pub struct ReadStep {
    pub source: String,
    pub to_stderr: bool,
}

/// Everything the recorder decides before touching the filesystem: the fresh
/// ID, the directory and files to create, and the command to run with its
/// output redirected into those files.
pub struct RecordPlan {
    pub id: String,
    pub record_dir: String,
    pub status_file: String,
    pub stdout_file: String,
    pub stderr_file: String,
    pub program: String,
    pub args: Vec<String>,
}

/// A correct plan for recording a command under a base path: a well-formed
/// fresh ID, the record's directory and three files at their places under
/// the layout, and the command split into program and arguments.
pub open spec fn record_plan_ok(base: Seq<char>, command: Seq<String>, p: RecordPlan) -> bool {
    &&& valid_id(p.id@)
    &&& p.record_dir@ == path_join(base, p.id@)
    &&& p.status_file@ == path_join(path_join(base, p.id@), "status"@)
    &&& p.stdout_file@ == path_join(path_join(base, p.id@), "stdout"@)
    &&& p.stderr_file@ == path_join(path_join(base, p.id@), "stderr"@)
    &&& p.program@ == command[0]@
    &&& p.args@.len() + 1 == command.len()
    &&& forall|j: int| 0 <= j < p.args@.len() ==> p.args@[j]@ == command[j + 1]@
}

/// Lays out a new record for a command: generates a fresh ID and computes
/// the directory, the three file locations, and the program and arguments
/// to spawn. The caller performs the filesystem work the plan describes and
/// is owed the ID the plan names.
pub fn record(base_path: &str, command: &Vec<String>) -> (p: RecordPlan)
    requires
        command@.len() > 0,
    ensures
        record_plan_ok(base_path@, command@, p),
{
    let id = generate_id();
    let record_dir = record_path(base_path, id.as_str());
    let status_file = status_path(base_path, id.as_str());
    let stdout_file = stdout_path(base_path, id.as_str());
    let stderr_file = stderr_path(base_path, id.as_str());
    let program = command[0].clone();
    let mut args: Vec<String> = Vec::new();
    let mut i: usize = 1;
    while i < command.len()
        invariant
            1 <= i <= command@.len(),
            args@.len() == i - 1,
            forall|j: int| 0 <= j < args@.len() ==> args@[j]@ == command@[j + 1]@,
        decreases command@.len() - i,
    {
        args.push(command[i].clone());
        i = i + 1;
    }
    RecordPlan { id, record_dir, status_file, stdout_file, stderr_file, program, args }
}

/// Lays out a new record for a command and the ID line printed for it: the
/// generated ID followed by a newline.
pub fn create_record(base_path: &str, args: &Vec<String>) -> (r: (RecordPlan, String))
    requires
        args@.len() > 0,
    ensures
        record_plan_ok(base_path@, args@, r.0),
        r.1@ == r.0.id@.push('\n'),
{
    let plan = record(base_path, args);
    let mut line = plan.id.clone();
    push_char(&mut line, '\n');
    (plan, line)
}

/// The read that reproduces a record's stdout on the caller's stdout.
pub fn print_stdout(base_path: &str, record_id: &str) -> (s: ReadStep)
    ensures
        s.source@ == path_join(path_join(base_path@, record_id@), "stdout"@),
        s.to_stderr == false,
{
    ReadStep { source: stdout_path(base_path, record_id), to_stderr: false }
}

/// The read that reproduces a record's stderr on the caller's stderr.
pub fn print_stderr(base_path: &str, record_id: &str) -> (s: ReadStep)
    ensures
        s.source@ == path_join(path_join(base_path@, record_id@), "stderr"@),
        s.to_stderr == true,
{
    ReadStep { source: stderr_path(base_path, record_id), to_stderr: true }
}

/// Both reads of a record's output, in order: first the record's stdout to
/// the caller's stdout, then the record's stderr to the caller's stderr,
/// each stream reproduced independently and completely.
pub fn print_output(base_path: &str, record_id: &str) -> (steps: Vec<ReadStep>)
    ensures
        steps@.len() == 2,
        steps@[0].source@ == path_join(path_join(base_path@, record_id@), "stdout"@),
        steps@[0].to_stderr == false,
        steps@[1].source@ == path_join(path_join(base_path@, record_id@), "stderr"@),
        steps@[1].to_stderr == true,
{
    let mut steps: Vec<ReadStep> = Vec::new();
    steps.push(print_stdout(base_path, record_id));
    steps.push(print_stderr(base_path, record_id));
    steps
}

/// The single filesystem action a CLI invocation performs.
pub enum Action {
    /// Create the planned record directory and files, run the planned
    /// command with its output redirected into them, and store its exit
    /// code.
    Run { plan: RecordPlan },
    /// Print the trimmed content of the named status file, with a newline.
    ShowStatus { source: String },
    /// Copy each named file, in order, to the stream its step names.
    Copy { steps: Vec<ReadStep> },
    /// Remove the named record directory; if it does not exist, succeed
    /// without doing anything.
    Remove { dir: String },
    /// Remove every entry directly under the named base path; if the base
    /// path does not exist or is not a directory, succeed without doing
    /// anything.
    Expire { base: String },
}

/// The base path an invocation operates on: the command line's override when
/// one was given, otherwise the resolved default.
pub open spec fn resolved_base(cli: Cli, default_base: Seq<char>) -> Seq<char> {
    match cli.base_path {
        Some(p) => p@,
        None => default_base,
    }
}

/// The action a command line asks for, against the resolved base path.
pub open spec fn action_ok(cli: Cli, default_base: Seq<char>, a: Action) -> bool {
    let base = resolved_base(cli, default_base);
    match cli.command {
        CliCommand::Delete { record_id } => match a {
            Action::Remove { dir } => dir@ == path_join(base, record_id@),
            _ => false,
        },
        CliCommand::Expire => match a {
            Action::Expire { base: b } => b@ == base,
            _ => false,
        },
        CliCommand::Output { record_id } => match a {
            Action::Copy { steps } => {
                &&& steps@.len() == 2
                &&& steps@[0].source@ == path_join(path_join(base, record_id@), "stdout"@)
                &&& steps@[0].to_stderr == false
                &&& steps@[1].source@ == path_join(path_join(base, record_id@), "stderr"@)
                &&& steps@[1].to_stderr == true
            },
            _ => false,
        },
        CliCommand::Record { args } => match a {
            Action::Run { plan } => record_plan_ok(base, args@, plan),
            _ => false,
        },
        CliCommand::Status { record_id } => match a {
            Action::ShowStatus { source } => source@ == path_join(
                path_join(base, record_id@),
                "status"@,
            ),
            _ => false,
        },
        CliCommand::Stderr { record_id } => match a {
            Action::Copy { steps } => {
                &&& steps@.len() == 1
                &&& steps@[0].source@ == path_join(path_join(base, record_id@), "stderr"@)
                &&& steps@[0].to_stderr == true
            },
            _ => false,
        },
        CliCommand::Stdout { record_id } => match a {
            Action::Copy { steps } => {
                &&& steps@.len() == 1
                &&& steps@[0].source@ == path_join(path_join(base, record_id@), "stdout"@)
                &&& steps@[0].to_stderr == false
            },
            _ => false,
        },
    }
}

/// Decides the one action a command line performs: which paths are touched,
/// what is created or removed, and which stream each copied file goes to.
pub fn execute_cli(cli: &Cli, default_base: &str) -> (a: Action)
    requires
        cli.command matches CliCommand::Record { args } ==> args@.len() > 0,
    ensures
        action_ok(*cli, default_base@, a),
{
    let base_path: &str = match &cli.base_path {
        Some(p) => p.as_str(),
        None => default_base,
    };
    match &cli.command {
        CliCommand::Delete { record_id } => Action::Remove {
            dir: record_path(base_path, record_id.as_str()),
        },
        CliCommand::Expire => Action::Expire { base: base_path.to_owned() },
        CliCommand::Output { record_id } => Action::Copy {
            steps: print_output(base_path, record_id.as_str()),
        },
        CliCommand::Record { args } => Action::Run { plan: record(base_path, args) },
        CliCommand::Status { record_id } => Action::ShowStatus {
            source: status_path(base_path, record_id.as_str()),
        },
        CliCommand::Stderr { record_id } => {
            let mut steps: Vec<ReadStep> = Vec::new();
            steps.push(print_stderr(base_path, record_id.as_str()));
            Action::Copy { steps }
        },
        CliCommand::Stdout { record_id } => {
            let mut steps: Vec<ReadStep> = Vec::new();
            steps.push(print_stdout(base_path, record_id.as_str()));
            Action::Copy { steps }
        },
    }
}

} // verus!
