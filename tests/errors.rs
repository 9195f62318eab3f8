use cargo_errors::{
    chain, error, human, int_to_text, internal_error, process_error, BoxError, BoxedError,
    CargoError, CargoResult, ChainError, CliError, ConcreteCargoError, FromError, ProcessExit,
    ProcessOutput,
};

fn descriptions(e: &BoxedError) -> Vec<String> {
    let mut out = vec![e.description()];
    let mut cur: Option<&ConcreteCargoError> = e.cause();
    while let Some(c) = cur {
        out.push(c.description());
        cur = c.cause();
    }
    out
}

#[test]
fn process_failure_never_executed() {
    let p = process_error("could not execute `cargo build`", "cargo build", None, None);
    assert_eq!(
        p.description(),
        "could not execute `cargo build` (status=never executed)"
    );
    assert!(!p.is_human());
    assert!(p.detail().is_none());
    assert!(p.cause().is_none());
    assert_eq!(p.command, "cargo build");
}

#[test]
fn process_failure_with_status_and_signal() {
    let status = ProcessExit::ExitStatus(101);
    let p = process_error("build failed", "cargo build", Some(&status), None);
    assert_eq!(p.description(), "build failed (status=101)");
    let signal = ProcessExit::ExitSignal(-9);
    let output = ProcessOutput { status: signal, output: vec![1, 2], error: vec![3] };
    let p = process_error("killed", "cargo test", Some(&signal), Some(&output));
    assert_eq!(p.description(), "killed (status=-9)");
    let kept = p.output.as_ref().unwrap();
    assert_eq!(kept.status, signal);
    assert_eq!(kept.output, vec![1, 2]);
    assert_eq!(kept.error, vec![3]);
}

#[test]
fn integer_rendering() {
    assert_eq!(int_to_text(0), "0");
    assert_eq!(int_to_text(7), "7");
    assert_eq!(int_to_text(1234567), "1234567");
    assert_eq!(int_to_text(-42), "-42");
    assert_eq!(int_to_text(i32::MAX), "2147483647");
    assert_eq!(int_to_text(i32::MIN), "-2147483648");
}

#[test]
fn cli_keeps_human_message() {
    let cli = CliError::from_boxed(human("missing Cargo.toml"), 1);
    assert_eq!(cli.error.description(), "missing Cargo.toml");
    assert_eq!(cli.exit_code, 1);
    assert!(cli.error.is_human());
    assert!(cli.error.cause().is_none());
}

#[test]
fn cli_wraps_internal_error() {
    let cli = CliError::from_boxed(error("parse failure: line 4"), 101);
    assert_eq!(cli.error.description(), "An unknown error occurred");
    assert_eq!(cli.exit_code, 101);
    assert!(cli.error.is_human());
    let cause = cli.error.cause().unwrap();
    assert_eq!(cause.description(), "parse failure: line 4");
    assert!(!cause.is_human());
}

#[test]
fn cli_from_text_and_from_error() {
    let cli = CliError::new("no such package", 3);
    assert_eq!(cli.error.description(), "no such package");
    assert!(cli.error.is_human());
    assert_eq!(cli.exit_code, 3);

    let p = process_error("could not run", "rustc", None, None);
    let cli = CliError::from_error(p, 2);
    assert_eq!(cli.exit_code, 2);
    assert_eq!(
        descriptions(&cli.error),
        vec!["An unknown error occurred", "could not run (status=never executed)"]
    );
}

#[test]
fn chain_puts_update_over_original() {
    let original = internal_error("disk full", "while writing target/");
    let update = internal_error("could not compile", "outer detail");
    let r = chain(original, update);
    assert_eq!(r.description(), "could not compile");
    assert_eq!(r.detail().as_deref(), Some("outer detail"));
    assert!(!r.is_human());
    let cause = r.cause().unwrap();
    assert_eq!(cause.description(), "disk full");
    assert_eq!(cause.detail().as_deref(), Some("while writing target/"));
}

#[test]
fn chain_replaces_the_cause_of_update() {
    let update = chain(error("hidden"), human("outer"));
    let r = chain(error("inner"), update);
    assert_eq!(descriptions(&r), vec!["outer", "inner"]);
    assert!(r.is_human());
}

#[test]
fn box_error_twice_changes_nothing() {
    let r: Result<u8, _> = Err(process_error("failed", "ls", None, None));
    let once: CargoResult<u8> = r.box_error();
    let first = descriptions(once.as_ref().err().unwrap());
    let twice = once.box_error();
    let e = twice.err().unwrap();
    assert_eq!(descriptions(&e), first);
    assert_eq!(e.description(), "failed (status=never executed)");
    assert!(!e.is_human());
    assert!(e.detail().is_none());
    assert!(e.cause().is_none());

    let ok: Result<u8, BoxedError> = Ok(9);
    assert_eq!(ok.box_error().box_error().ok(), Some(9));
}

#[test]
fn chain_error_on_success_never_calls_back() {
    let r: Result<u32, BoxedError> = Ok(5);
    let out = r.chain_error(|| -> BoxedError { panic!("must not be called") });
    assert_eq!(out.ok(), Some(5));
}

#[test]
fn chain_error_on_failure_wraps() {
    let r: Result<u32, BoxedError> = Err(error("inner"));
    let out = r.chain_error(|| human("outer"));
    let e = out.err().unwrap();
    assert_eq!(descriptions(&e), vec!["outer", "inner"]);
    assert!(e.is_human());
}

#[test]
fn constructors_set_flags() {
    let e = error("a");
    assert!(!e.is_human());
    assert!(e.detail().is_none());
    let h = human("b");
    assert!(h.is_human());
    assert!(h.cause().is_none());
    let i = internal_error("c", "d");
    assert!(!i.is_human());
    assert_eq!(i.detail().as_deref(), Some("d"));
}

#[test]
fn concrete_copies_whole_chain() {
    let r = chain(chain(error("one"), error("two")), human("three"));
    let copy = r.concrete();
    assert_eq!(copy.description(), "three");
    let c = copy.cause().unwrap();
    assert_eq!(c.description(), "two");
    assert_eq!(c.cause().unwrap().description(), "one");
    assert!(c.cause().unwrap().cause().is_none());
}

#[test]
fn to_error_boxes_or_keeps() {
    let p = process_error("oops", "make", None, None);
    let b: BoxedError = p.to_error();
    assert_eq!(b.description(), "oops (status=never executed)");
    let p = process_error("oops", "make", None, None);
    let same: cargo_errors::ProcessError = p.to_error();
    assert_eq!(same.msg, "oops");
}

#[test]
fn io_error_adapter() {
    let io = std::io::Error::new(std::io::ErrorKind::Other, "boom");
    let b: BoxedError = FromError::from_error(io);
    assert_eq!(b.description(), "boom");
    assert!(!b.is_human());
    assert!(b.detail().is_none());
    assert!(b.cause().is_none());
}

#[test]
fn toml_error_adapter() {
    let parsed: Result<toml::Table, toml::de::Error> = toml::from_str("a = ");
    let te = parsed.err().unwrap();
    let text = te.to_string();
    let b: BoxedError = FromError::from_error(te);
    assert_eq!(b.description(), text);
    assert!(!text.is_empty());
    assert!(!b.is_human());
    assert!(b.cause().is_none());
}
