//! The dispatcher: resolves a command to the external operation that serves
//! it, and turns what that operation did into one uniform result.
//!
//! Running the operation is left to the caller: `begin` says what to launch
//! (or gives the result at once), and `normalize` takes what the launch
//! produced. The two together are one dispatch:
//! `Resolved -> Launching -> {Succeeded | FailedNonZero | FailedToLaunch}`.

use crate::command::{Command, Subcommand};
use vstd::prelude::*;

verus! {

/// The external operations that commands resolve to.
#[derive(Clone, Copy, Debug, PartialEq, Eq, Structural)]
pub enum Operation {
    /// Retrieves data from the fitness-tracking service.
    Fetch,
    /// Computes coaching feedback.
    Coaching,
}

/// The executable that runs every operation.
pub open spec fn interpreter() -> Seq<char> {
    "python3"@
}

/// The script that implements operation `op`.
pub open spec fn script_of(op: Operation) -> Seq<char> {
    match op {
        Operation::Fetch => "python_client/example.py"@,
        Operation::Coaching => "python_client/ai_example.py"@,
    }
}

/// How commands are resolved.
#[derive(Clone, Copy, Debug, PartialEq, Eq, Structural)]
pub struct ResolveOptions {
    /// Hand the kind of a `FetchData` or `Coaching` command to the operation
    /// as an extra argument. Off by default: the operations then run with no
    /// argument but their script, and the kind is only a hint for display.
    pub pass_kind: bool,
}

impl Default for ResolveOptions {
    /// The default options: the kind is not passed on.
    fn default() -> (r: ResolveOptions)
        ensures
            !r.pass_kind,
    {
        ResolveOptions { pass_kind: false }
    }
}

/// The operation that command `c` selects; `None` for an example of a kind
/// other than `data` and `ai`.
pub open spec fn operation_of(c: (Subcommand, Seq<char>)) -> Option<Operation> {
    match c.0 {
        Subcommand::FetchData => Some(Operation::Fetch),
        Subcommand::Coaching => Some(Operation::Coaching),
        Subcommand::Example => if c.1 == "data"@ {
            Some(Operation::Fetch)
        } else if c.1 == "ai"@ {
            Some(Operation::Coaching)
        } else {
            None
        },
    }
}

/// The program and arguments that command `c` is run with, if it resolves.
pub open spec fn resolve_spec(c: (Subcommand, Seq<char>), options: ResolveOptions) -> Option<
    (Seq<char>, Seq<Seq<char>>),
> {
    match operation_of(c) {
        None => None,
        Some(op) => if options.pass_kind && c.0 != Subcommand::Example {
            Some((interpreter(), seq![script_of(op), c.1]))
        } else {
            Some((interpreter(), seq![script_of(op)]))
        },
    }
}

/// A resolved external operation: the executable and its ordered arguments.
#[derive(Debug)]
pub struct InvocationTarget {
    pub program: String,
    pub args: Vec<String>,
}

impl View for InvocationTarget {
    type V = (Seq<char>, Seq<Seq<char>>);

    open spec fn view(&self) -> (Seq<char>, Seq<Seq<char>>) {
        (self.program@, self.args.deep_view())
    }
}

/// The executable that runs every operation.
fn interpreter_text() -> (r: &'static str)
    ensures
        r@ == interpreter(),
{
    "python3"
}

/// The script that implements operation `op`.
pub fn script_text(op: Operation) -> (r: &'static str)
    ensures
        r@ == script_of(op),
{
    match op {
        Operation::Fetch => "python_client/example.py",
        Operation::Coaching => "python_client/ai_example.py",
    }
}

/// Whether the text `t` is exactly `lit`.
fn is_text(t: &String, lit: &str) -> (r: bool)
    ensures
        r == (t@ == lit@),
{
    *t == lit.to_owned()
}

/// The operation that command `cmd` selects, if any.
pub fn operation_for(cmd: &Command) -> (r: Option<Operation>)
    ensures
        r == operation_of(cmd@),
{
    match cmd {
        Command::FetchData { .. } => Some(Operation::Fetch),
        Command::Coaching { .. } => Some(Operation::Coaching),
        Command::Example { kind } => if is_text(kind, "data") {
            Some(Operation::Fetch)
        } else if is_text(kind, "ai") {
            Some(Operation::Coaching)
        } else {
            None
        },
    }
}

/// Resolves `cmd` to the program and arguments that serve it; `None` where
/// the command names an unsupported example.
pub fn resolve(cmd: &Command, options: ResolveOptions) -> (r: Option<InvocationTarget>)
    ensures
        match r {
            Some(t) => resolve_spec(cmd@, options) == Some(t@),
            None => resolve_spec(cmd@, options) is None,
        },
{
    match operation_for(cmd) {
        None => None,
        Some(op) => {
            let mut args: Vec<String> = Vec::new();
            args.push(script_text(op).to_owned());
            let passes = options.pass_kind && cmd.subcommand() != Subcommand::Example;
            if passes {
                args.push(cmd.kind().clone());
            }
            let t = InvocationTarget { program: interpreter_text().to_owned(), args };
            proof {
                if passes {
                    assert(t.args.deep_view() =~= seq![script_of(op), cmd@.1]);
                } else {
                    assert(t.args.deep_view() =~= seq![script_of(op)]);
                }
            }
            Some(t)
        },
    }
}

/// What running an invocation target produced.
#[derive(Debug)]
pub enum InvocationOutcome {
    /// The operation started and ran to its end; `success` is whether its
    /// exit status reported success.
    Exited { success: bool, stdout: String, stderr: String },
    /// The operation could not be started; `cause` says why.
    LaunchFailed { cause: String },
}

/// The kinds of result that a dispatch reports.
#[derive(Clone, Copy, Debug, PartialEq, Eq, Structural)]
pub enum Verdict {
    /// The operation ran and succeeded; the text is its standard output.
    Success,
    /// The command names an unsupported example; the text is its kind.
    UnsupportedInput,
    /// The operation could not be started; the text is the cause.
    LaunchFailure,
    /// The operation ran and failed; the text is its standard error.
    OperationFailure,
}

/// The uniform result of one dispatch, as presented to the user.
#[derive(Debug)]
pub enum UserFacingResult {
    Success { output: String },
    UnsupportedInput { kind: String },
    LaunchFailure { cause: String },
    OperationFailure { diagnostic: String },
}

impl View for UserFacingResult {
    type V = (Verdict, Seq<char>);

    open spec fn view(&self) -> (Verdict, Seq<char>) {
        match self {
            UserFacingResult::Success { output } => (Verdict::Success, output@),
            UserFacingResult::UnsupportedInput { kind } => (Verdict::UnsupportedInput, kind@),
            UserFacingResult::LaunchFailure { cause } => (Verdict::LaunchFailure, cause@),
            UserFacingResult::OperationFailure { diagnostic } => (
                Verdict::OperationFailure,
                diagnostic@,
            ),
        }
    }
}

/// The process exit status that goes with verdict `v`: zero for success,
/// one for a failed or unstartable operation, two for unsupported input.
pub open spec fn exit_code_of(v: Verdict) -> int {
    match v {
        Verdict::Success => 0,
        Verdict::LaunchFailure => 1,
        Verdict::OperationFailure => 1,
        Verdict::UnsupportedInput => 2,
    }
}

impl UserFacingResult {
    /// The kind of this result.
    pub fn verdict(&self) -> (v: Verdict)
        ensures
            v == self@.0,
    {
        match self {
            UserFacingResult::Success { .. } => Verdict::Success,
            UserFacingResult::UnsupportedInput { .. } => Verdict::UnsupportedInput,
            UserFacingResult::LaunchFailure { .. } => Verdict::LaunchFailure,
            UserFacingResult::OperationFailure { .. } => Verdict::OperationFailure,
        }
    }

    /// The text this result carries: the output on success, else the diagnostic.
    pub fn text(&self) -> (t: &String)
        ensures
            t@ == self@.1,
    {
        match self {
            UserFacingResult::Success { output } => output,
            UserFacingResult::UnsupportedInput { kind } => kind,
            UserFacingResult::LaunchFailure { cause } => cause,
            UserFacingResult::OperationFailure { diagnostic } => diagnostic,
        }
    }

    /// Whether this result is a success.
    pub fn is_success(&self) -> (b: bool)
        ensures
            b == (self@.0 == Verdict::Success),
    {
        matches!(self, UserFacingResult::Success { .. })
    }

    /// The process exit status that reports this result.
    pub fn exit_code(&self) -> (c: i32)
        ensures
            c == exit_code_of(self@.0),
    {
        match self {
            UserFacingResult::Success { .. } => 0,
            UserFacingResult::UnsupportedInput { .. } => 2,
            UserFacingResult::LaunchFailure { .. } => 1,
            UserFacingResult::OperationFailure { .. } => 1,
        }
    }
}

/// The result that outcome `o` is reported as: standard output on success,
/// standard error on failure, the cause when nothing started.
pub open spec fn normalize_spec(o: InvocationOutcome) -> (Verdict, Seq<char>) {
    match o {
        InvocationOutcome::Exited { success, stdout, stderr } => if success {
            (Verdict::Success, stdout@)
        } else {
            (Verdict::OperationFailure, stderr@)
        },
        InvocationOutcome::LaunchFailed { cause } => (Verdict::LaunchFailure, cause@),
    }
}

/// The result of dispatching command `c` when running its target gives `o`.
/// An unsupported example is reported without anything being run, so `o`
/// plays no part there.
pub open spec fn dispatch_spec(
    c: (Subcommand, Seq<char>),
    options: ResolveOptions,
    o: InvocationOutcome,
) -> (Verdict, Seq<char>) {
    match resolve_spec(c, options) {
        None => (Verdict::UnsupportedInput, c.1),
        Some(_) => normalize_spec(o),
    }
}

/// The first step of a dispatch: what to launch, or the result at once.
#[derive(Debug)]
pub enum Step {
    /// Run this target and hand its outcome to `normalize`.
    Launch(InvocationTarget),
    /// Nothing is run; this is the result.
    Finish(UserFacingResult),
}

/// Starts the dispatch of `cmd`: the target to launch where the command
/// resolves, else an `UnsupportedInput` result that carries the kind, with
/// nothing to launch.
pub fn begin(cmd: &Command, options: ResolveOptions) -> (s: Step)
    ensures
        match resolve_spec(cmd@, options) {
            Some(t) => s matches Step::Launch(x) && x@ == t,
            None => s matches Step::Finish(r) && r@ == (Verdict::UnsupportedInput, cmd@.1),
        },
{
    match resolve(cmd, options) {
        Some(t) => Step::Launch(t),
        None => Step::Finish(UserFacingResult::UnsupportedInput { kind: cmd.kind().clone() }),
    }
}

/// Ends a dispatch: turns what running the target produced into the result,
/// passing the chosen stream on verbatim and discarding the other.
pub fn normalize(outcome: InvocationOutcome) -> (r: UserFacingResult)
    ensures
        r@ == normalize_spec(outcome),
{
    match outcome {
        InvocationOutcome::Exited { success, stdout, stderr } => if success {
            UserFacingResult::Success { output: stdout }
        } else {
            UserFacingResult::OperationFailure { diagnostic: stderr }
        },
        InvocationOutcome::LaunchFailed { cause } => UserFacingResult::LaunchFailure { cause },
    }
}

/// With the default options, the `data` example runs what any `FetchData`
/// command runs and the `ai` example what any `Coaching` command runs; an
/// example of any other kind resolves to nothing and is reported as
/// unsupported input carrying that kind, whatever a launch would have given.
pub proof fn lemma_examples_alias_operations(
    kind: Seq<char>,
    other: Seq<char>,
    options: ResolveOptions,
    o: InvocationOutcome,
)
    requires
        !options.pass_kind,
    ensures
        resolve_spec((Subcommand::Example, "data"@), options) == resolve_spec(
            (Subcommand::FetchData, kind),
            options,
        ),
        resolve_spec((Subcommand::Example, "ai"@), options) == resolve_spec(
            (Subcommand::Coaching, kind),
            options,
        ),
        other != "data"@ && other != "ai"@ ==> {
            &&& resolve_spec((Subcommand::Example, other), options) is None
            &&& dispatch_spec((Subcommand::Example, other), options, o) == (
                Verdict::UnsupportedInput,
                other,
            )
        },
{
    reveal_strlit("data");
    reveal_strlit("ai");
    assert("ai"@.len() != "data"@.len());
}

/// Whether two outcomes show the same behaviour: the same status and the same
/// text on both streams, or the same cause of a failed launch.
pub open spec fn same_behaviour(a: InvocationOutcome, b: InvocationOutcome) -> bool {
    match (a, b) {
        (
            InvocationOutcome::Exited { success: s1, stdout: out1, stderr: err1 },
            InvocationOutcome::Exited { success: s2, stdout: out2, stderr: err2 },
        ) => s1 == s2 && out1@ == out2@ && err1@ == err2@,
        (InvocationOutcome::LaunchFailed { cause: c1 }, InvocationOutcome::LaunchFailed {
            cause: c2,
        }) => c1@ == c2@,
        _ => false,
    }
}

/// Dispatching the same command twice, with the same options, against an
/// operation that behaves the same both times, gives identical results.
pub proof fn lemma_dispatch_idempotent(
    c: (Subcommand, Seq<char>),
    options: ResolveOptions,
    first: InvocationOutcome,
    second: InvocationOutcome,
)
    requires
        same_behaviour(first, second),
    ensures
        dispatch_spec(c, options, first) == dispatch_spec(c, options, second),
{
}

} // verus!
