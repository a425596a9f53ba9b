//! Task runner logic: building the external tool's command line,
//! classifying spawn failures, aggregating the captured output streams
//! into a task result, and the canonical per-task notification order.
//!
//! The process itself is spawned and drained by an unverified shell, which
//! hands the captured lines and the exit status to `finish_task`.

use vstd::prelude::*;
use vstd::string::StringExecFns;

use crate::text::{chars_to_string, dec_str, u32_to_string};

verus! {

/// Result of one invocation of the external tool.  `success` reflects only
/// the process exit status; non-empty error output does not itself imply
/// failure.
#[derive(Debug, Clone)]
pub struct TaskResult {
    pub success: bool,
    pub output: String,
    pub error: Option<String>,
    pub duration_ms: u64,
}

/// One invocation of the external tool: command, arguments, and working
/// directory.  Immutable once constructed.
#[derive(Debug, Clone)]
pub struct Task {
    pub command: String,
    pub args: Vec<String>,
    pub working_dir: String,
}

/// Why the external tool failed to start.
#[derive(Debug, Clone, PartialEq, Eq)]
pub enum TaskError {
    /// The tool's binary could not be located.
    ToolNotInstalled,
    /// Any other spawn failure, carrying the operating system's message.
    SpawnFailed(String),
}

/// The views of a sequence of strings.
pub open spec fn seq_views(lines: Seq<String>) -> Seq<Seq<char>> {
    lines.map_values(|l: String| l@)
}

/// The fixed argument list handed to the external tool for a prompt, with
/// the optional step budget appended.
pub open spec fn spec_task_args(prompt: Seq<char>, max_turns: Option<u32>) -> Seq<Seq<char>> {
    let base = seq![
        "-p"@,
        prompt,
        "--output-format"@,
        "text"@,
        "--allowedTools"@,
        "Read,Write,Edit,Glob,Grep"@,
    ];
    match max_turns {
        None => base,
        Some(n) => base + seq!["--max-turns"@, dec_str(n as int)],
    }
}

/// Build the task that runs the external tool named `tool` on `prompt`
/// inside the workspace, passing the step budget as a command-line
/// argument.
pub fn tool_task(tool: &str, workspace_path: &str, prompt: &str, max_turns: Option<u32>) -> (t:
    Task)
    ensures
        t.command@ == tool@,
        t.working_dir@ == workspace_path@,
        seq_views(t.args@) == spec_task_args(prompt@, max_turns),
{
    let mut args: Vec<String> = Vec::new();
    args.push("-p".to_owned());
    args.push(prompt.to_owned());
    args.push("--output-format".to_owned());
    args.push("text".to_owned());
    args.push("--allowedTools".to_owned());
    args.push("Read,Write,Edit,Glob,Grep".to_owned());
    if let Some(turns) = max_turns {
        args.push("--max-turns".to_owned());
        args.push(u32_to_string(turns));
    }
    proof {
        assert(seq_views(args@) =~= spec_task_args(prompt@, max_turns));
    }
    Task { command: tool.to_owned(), args, working_dir: workspace_path.to_owned() }
}

/// Classify a spawn failure: a missing binary is reported distinctly from
/// every other operating-system failure, never as a generic message.
pub fn classify_spawn_error(binary_missing: bool, os_message: &str) -> (e: TaskError)
    ensures
        binary_missing ==> e == TaskError::ToolNotInstalled,
        !binary_missing ==> (e matches TaskError::SpawnFailed(m) && m@ == os_message@),
{
    if binary_missing {
        TaskError::ToolNotInstalled
    } else {
        TaskError::SpawnFailed(os_message.to_owned())
    }
}

/// The user-facing message for a spawn failure.
pub fn task_error_message(e: &TaskError) -> (r: String)
    ensures
        *e == TaskError::ToolNotInstalled ==> r@
            == "The agent tool is not installed. Install it and try again."@,
        e matches TaskError::SpawnFailed(m) ==> (r@ == "Failed to start the agent tool: "@ + m@),
{
    match e {
        TaskError::ToolNotInstalled => {
            "The agent tool is not installed. Install it and try again.".to_owned()
        },
        TaskError::SpawnFailed(m) => {
            let mut s = "Failed to start the agent tool: ".to_owned();
            s.append(m.as_str());
            s
        },
    }
}

/// A missing binary never reads as a generic spawn failure: the two
/// messages differ, whatever the operating system reported.
pub proof fn lemma_not_installed_message_distinct(os_message: Seq<char>)
    ensures
        "The agent tool is not installed. Install it and try again."@
            != "Failed to start the agent tool: "@ + os_message,
{
    reveal_strlit("The agent tool is not installed. Install it and try again.");
    reveal_strlit("Failed to start the agent tool: ");
    let a = "The agent tool is not installed. Install it and try again."@;
    let b = "Failed to start the agent tool: "@ + os_message;
    assert(a[0] == 'T');
    assert(b[0] == 'F');
}

/// The lines of one output stream joined by single newlines.
pub open spec fn join_from(lines: Seq<Seq<char>>, i: int) -> Seq<char>
    decreases lines.len() - i,
{
    if i < 0 || i >= lines.len() {
        Seq::empty()
    } else {
        seq!['\n'] + lines[i] + join_from(lines, i + 1)
    }
}

/// All lines joined by single newlines: empty for no lines.
pub open spec fn join_with_newlines(lines: Seq<Seq<char>>) -> Seq<char> {
    if lines.len() == 0 {
        Seq::empty()
    } else {
        lines[0] + join_from(lines, 1)
    }
}

/// Join captured lines with newlines, as the final output buffer.
pub fn join_lines(lines: &Vec<String>) -> (r: String)
    ensures
        r@ == join_with_newlines(seq_views(lines@)),
{
    let ghost views = seq_views(lines@);
    if lines.len() == 0 {
        return String::new();
    }
    let mut acc: String = lines[0].clone();
    let mut i: usize = 1;
    while i < lines.len()
        invariant
            views == seq_views(lines@),
            views.len() == lines@.len(),
            1 <= i <= lines@.len(),
            acc@ + join_from(views, i as int) == join_with_newlines(views),
        decreases lines@.len() - i,
    {
        let ghost prev = acc@;
        acc.append("\n");
        acc.append(lines[i].as_str());
        proof {
            reveal_strlit("\n");
            assert("\n"@ =~= seq!['\n']);
            assert(acc@ == prev + seq!['\n'] + views[i as int]);
            assert(join_from(views, i as int) == seq!['\n'] + views[i as int] + join_from(
                views,
                i as int + 1,
            ));
            assert(acc@ + join_from(views, i as int + 1) =~= prev + join_from(views, i as int));
        }
        i = i + 1;
    }
    acc
}

/// The error field owed for a stderr buffer: `None` exactly when the
/// joined buffer is empty.
pub open spec fn spec_task_error(stderr_lines: Seq<Seq<char>>) -> Option<Seq<char>> {
    let joined = join_with_newlines(stderr_lines);
    if joined.len() == 0 {
        None
    } else {
        Some(joined)
    }
}

/// Aggregate a finished process into a task result: `success` is exactly
/// the exit status, `output` is the joined stdout buffer, `error` is the
/// joined stderr buffer when non-empty, and `duration_ms` is the wall
/// clock from spawn to exit as measured by the caller.
pub fn finish_task(
    exit_success: bool,
    stdout_lines: &Vec<String>,
    stderr_lines: &Vec<String>,
    duration_ms: u64,
) -> (r: TaskResult)
    ensures
        r.success == exit_success,
        r.output@ == join_with_newlines(seq_views(stdout_lines@)),
        r.error is None <==> spec_task_error(seq_views(stderr_lines@)) is None,
        r.error is Some ==> r.error.unwrap()@ == spec_task_error(
            seq_views(stderr_lines@),
        ).unwrap(),
        r.duration_ms == duration_ms,
{
    let output = join_lines(stdout_lines);
    let stderr_joined = join_lines(stderr_lines);
    let error = if stderr_joined.as_str().is_empty() {
        None
    } else {
        Some(stderr_joined)
    };
    TaskResult { success: exit_success, output, error, duration_ms }
}

/// A successful exit with non-empty error output reports both at once:
/// success is independent of what was written to stderr.
pub proof fn lemma_success_independent_of_stderr(stderr_lines: Seq<Seq<char>>)
    requires
        join_with_newlines(stderr_lines).len() > 0,
    ensures
        spec_task_error(stderr_lines) is Some,
        spec_task_error(stderr_lines).unwrap() == join_with_newlines(stderr_lines),
{
}

} // verus!
