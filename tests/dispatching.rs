use garmin_coach::command::{parse, Command};
use garmin_coach::dispatch::{
    begin, normalize, resolve, script_text, InvocationOutcome, InvocationTarget, Operation,
    ResolveOptions, Step, UserFacingResult, Verdict,
};

fn command(v: &[&str]) -> Command {
    let t: Vec<String> = v.iter().map(|s| s.to_string()).collect();
    parse(&t).unwrap()
}

fn target(c: &Command, options: ResolveOptions) -> InvocationTarget {
    resolve(c, options).expect("command should resolve")
}

fn shape(t: &InvocationTarget) -> (String, Vec<String>) {
    (t.program.clone(), t.args.clone())
}

fn exited(success: bool, stdout: &str, stderr: &str) -> InvocationOutcome {
    InvocationOutcome::Exited { success, stdout: stdout.to_string(), stderr: stderr.to_string() }
}

/// Runs one dispatch of `c`, with `run` standing in for the external operation.
fn dispatch_with(
    c: &Command,
    options: ResolveOptions,
    launches: &mut usize,
    run: &dyn Fn(&InvocationTarget) -> InvocationOutcome,
) -> UserFacingResult {
    match begin(c, options) {
        Step::Launch(t) => {
            *launches += 1;
            normalize(run(&t))
        }
        Step::Finish(r) => r,
    }
}

#[test]
fn fetch_and_coaching_resolve_to_their_scripts() {
    let o = ResolveOptions::default();
    assert_eq!(
        shape(&target(&command(&["fetch-data", "-d", "health"]), o)),
        ("python3".to_string(), vec!["python_client/example.py".to_string()])
    );
    assert_eq!(
        shape(&target(&command(&["coaching"]), o)),
        ("python3".to_string(), vec!["python_client/ai_example.py".to_string()])
    );
    assert_eq!(script_text(Operation::Fetch), "python_client/example.py");
    assert_eq!(script_text(Operation::Coaching), "python_client/ai_example.py");
}

#[test]
fn data_example_resolves_like_fetch_data() {
    let o = ResolveOptions::default();
    let example = shape(&target(&command(&["example", "-e", "data"]), o));
    let fetch = shape(&target(&command(&["fetch-data"]), o));
    assert_eq!(example, fetch);
}

#[test]
fn ai_example_resolves_like_coaching() {
    let o = ResolveOptions::default();
    let example = shape(&target(&command(&["example", "-e", "ai"]), o));
    let coaching = shape(&target(&command(&["coaching", "-c", "plan"]), o));
    assert_eq!(example, coaching);
}

#[test]
fn bogus_example_is_unsupported_and_launches_nothing() {
    let c = command(&["example", "--example-type", "bogus"]);
    assert!(resolve(&c, ResolveOptions::default()).is_none());
    let mut launches = 0usize;
    let r = dispatch_with(&c, ResolveOptions::default(), &mut launches, &|_| {
        panic!("nothing should be launched")
    });
    assert_eq!(launches, 0);
    assert_eq!(r.verdict(), Verdict::UnsupportedInput);
    assert_eq!(r.text(), "bogus");
    assert_eq!(r.exit_code(), 2);
}

#[test]
fn passing_the_kind_adds_it_as_an_argument() {
    let o = ResolveOptions { pass_kind: true };
    assert_eq!(
        shape(&target(&command(&["fetch-data", "-d", "stats"]), o)),
        ("python3".to_string(), vec!["python_client/example.py".to_string(), "stats".to_string()])
    );
    assert_eq!(
        shape(&target(&command(&["coaching"]), o)),
        ("python3".to_string(), vec!["python_client/ai_example.py".to_string(), "activity".to_string()])
    );
    assert_eq!(
        shape(&target(&command(&["example", "-e", "ai"]), o)),
        ("python3".to_string(), vec!["python_client/ai_example.py".to_string()])
    );
}

#[test]
fn success_reports_stdout_and_ignores_stderr() {
    let mut launches = 0usize;
    let r = dispatch_with(&command(&["fetch-data"]), ResolveOptions::default(), &mut launches, &|_| {
        exited(true, "OK", "warning: noise")
    });
    assert_eq!(launches, 1);
    assert!(matches!(&r, UserFacingResult::Success { output } if output == "OK"));
    assert!(r.is_success());
    assert_eq!(r.exit_code(), 0);
}

#[test]
fn nonzero_exit_reports_stderr_and_discards_stdout() {
    let mut launches = 0usize;
    let r = dispatch_with(&command(&["coaching"]), ResolveOptions::default(), &mut launches, &|_| {
        exited(false, "partial output", "boom")
    });
    assert_eq!(launches, 1);
    assert!(matches!(&r, UserFacingResult::OperationFailure { diagnostic } if diagnostic == "boom"));
    assert!(!r.is_success());
    assert_eq!(r.exit_code(), 1);
}

#[test]
fn missing_executable_reports_launch_failure_with_cause() {
    let mut launches = 0usize;
    let r = dispatch_with(&command(&["example", "-e", "ai"]), ResolveOptions::default(), &mut launches, &|_| {
        InvocationOutcome::LaunchFailed { cause: "No such file or directory (os error 2)".to_string() }
    });
    assert_eq!(launches, 1);
    assert_eq!(r.verdict(), Verdict::LaunchFailure);
    assert_eq!(r.text(), "No such file or directory (os error 2)");
    assert_eq!(r.exit_code(), 1);
}

#[test]
fn normalize_passes_streams_verbatim() {
    let r = normalize(exited(true, "line one\n  line two\n", ""));
    assert_eq!(r.text(), "line one\n  line two\n");
    let r = normalize(exited(false, "", ""));
    assert_eq!(r.verdict(), Verdict::OperationFailure);
    assert_eq!(r.text(), "");
}

#[test]
fn dispatching_twice_gives_identical_results() {
    let c = command(&["coaching", "-c", "health"]);
    let stub = |_: &InvocationTarget| exited(false, "", "boom");
    let mut launches = 0usize;
    let first = dispatch_with(&c, ResolveOptions::default(), &mut launches, &stub);
    let second = dispatch_with(&c, ResolveOptions::default(), &mut launches, &stub);
    assert_eq!(launches, 2);
    assert_eq!(format!("{:?}", first), format!("{:?}", second));
    assert_eq!((first.verdict(), first.text()), (second.verdict(), second.text()));

    let ok = |_: &InvocationTarget| exited(true, "OK", "");
    let first = dispatch_with(&c, ResolveOptions::default(), &mut launches, &ok);
    let second = dispatch_with(&c, ResolveOptions::default(), &mut launches, &ok);
    assert_eq!(format!("{:?}", first), format!("{:?}", second));
}

#[test]
fn launch_targets_match_the_stub_seen() {
    let seen = std::cell::RefCell::new(Vec::new());
    let mut launches = 0usize;
    let r = dispatch_with(&command(&["example"]), ResolveOptions::default(), &mut launches, &|t| {
        seen.borrow_mut().push(shape(t));
        exited(true, "done", "")
    });
    assert_eq!(r.text(), "done");
    assert_eq!(
        seen.into_inner(),
        vec![("python3".to_string(), vec!["python_client/example.py".to_string()])]
    );
}
