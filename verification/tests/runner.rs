use specdown::commands::run::RunCommand;
use specdown::exit_codes::ExitCode;
use specdown::parser;
use specdown::results::test_result::{Detail, ScriptResult, TestResult};
use specdown::runner::executor::{Executor, Launcher, Output, Shell, ShellCommand};
use specdown::runner::file::FileWriter;
use specdown::runner::state::State;
use specdown::runner::{
    run_action, run_actions, run_actions_with, script, verify, Error, RunEvent,
};
use specdown::types::{Action, FilePath, ScriptName, Source, Stream};
use std::cell::RefCell;

/// An executor that prints what `echo` would print for the words after it,
/// and ends with the code after `exit`.
struct Echo {
    runs: RefCell<Vec<String>>,
}

impl Echo {
    fn new() -> Echo {
        Echo { runs: RefCell::new(vec![]) }
    }
}

impl Executor for Echo {
    fn run(&self, code: &str) -> Result<Output, Error> {
        self.runs.borrow_mut().push(code.to_string());
        let mut stdout = String::new();
        let mut stderr = String::new();
        let mut exit_code = 0;
        for line in code.lines() {
            if let Some(text) = line.strip_prefix("echo ") {
                stdout.push_str(text);
                stdout.push('\n');
            } else if let Some(text) = line.strip_prefix("warn ") {
                stderr.push_str(text);
                stderr.push('\n');
            } else if let Some(code) = line.strip_prefix("exit ") {
                exit_code = code.parse().unwrap();
            }
        }
        Ok(Output { stdout, stderr, exit_code })
    }
}

/// An executor that cannot start anything.
struct Broken;

impl Executor for Broken {
    fn run(&self, _code: &str) -> Result<Output, Error> {
        Err(Error::CommandFailed { command: "none".to_string(), message: "not found".to_string() })
    }
}

/// A writer that keeps what it is given, and fails for paths that start
/// with `/forbidden`.
struct Files {
    written: RefCell<Vec<(String, String)>>,
}

impl Files {
    fn new() -> Files {
        Files { written: RefCell::new(vec![]) }
    }
}

impl FileWriter for Files {
    fn write(&self, path: &str, content: &str) -> Result<(), String> {
        if path.starts_with("/forbidden") {
            return Err("permission denied".to_string());
        }
        self.written.borrow_mut().push((path.to_string(), content.to_string()));
        Ok(())
    }
}

fn script(name: &str, code: &str, expected_exit_code: Option<u32>) -> Action {
    Action::Script {
        name: ScriptName(name.to_string()),
        code: code.to_string(),
        expected_exit_code: expected_exit_code.map(specdown::types::ExitCode),
    }
}

fn check(name: &str, stream: Stream, expected_value: &str) -> Action {
    Action::Verify {
        source: Source { name: ScriptName(name.to_string()), stream },
        expected_value: expected_value.to_string(),
    }
}

fn passed(event: &RunEvent) -> Option<bool> {
    match event {
        RunEvent::TestCompleted(result) => Some(result.passed),
        _ => None,
    }
}

#[test]
fn script_then_matching_verify_succeeds() {
    let markdown = "# Hello\n\n```shell,script(name=\"s\")\necho hello\n```\n\n```text,verify(script_name=\"s\", stream=stdout)\nhello\n```\n";
    let actions = parser::parse(markdown).unwrap();
    assert_eq!(
        actions,
        vec![script("s", "echo hello\n", None), check("s", Stream::StdOut, "hello\n")]
    );
    let events = run_actions_with("hello.md", &actions, &Echo::new(), &Files::new());
    assert_eq!(events.len(), 4);
    assert_eq!(events[0], RunEvent::SpecFileStarted("hello.md".to_string()));
    assert_eq!(passed(&events[1]), Some(true));
    assert_eq!(passed(&events[2]), Some(true));
    assert_eq!(events[3], RunEvent::SpecFileCompleted { success: true });
    assert_eq!(RunCommand::events_to_exitcode(&events), ExitCode::Success);
}

#[test]
fn script_then_differing_verify_fails_the_test() {
    let markdown = "```shell,script(name=\"s\")\necho hello\n```\n\n```text,verify(script_name=\"s\", stream=stdout)\nworld\n```\n";
    let actions = parser::parse(markdown).unwrap();
    let events = run_actions_with("hello.md", &actions, &Echo::new(), &Files::new());
    assert_eq!(events.len(), 4);
    assert_eq!(passed(&events[1]), Some(true));
    assert_eq!(passed(&events[2]), Some(false));
    assert_eq!(events[3], RunEvent::SpecFileCompleted { success: false });
    assert_eq!(RunCommand::events_to_exitcode(&events), ExitCode::TestFailed);
}

#[test]
fn verify_of_a_script_that_has_not_run_is_an_error() {
    let actions = vec![check("missing", Stream::StdOut, "hello\n")];
    let events = run_actions_with("hello.md", &actions, &Echo::new(), &Files::new());
    assert_eq!(
        events,
        vec![
            RunEvent::SpecFileStarted("hello.md".to_string()),
            RunEvent::ErrorOccurred(Error::ScriptNotFound { name: "missing".to_string() }),
            RunEvent::SpecFileCompleted { success: false },
        ]
    );
    assert_eq!(RunCommand::events_to_exitcode(&events), ExitCode::ErrorOccurred);
}

#[test]
fn an_error_ends_the_run_and_keeps_the_events_before_it() {
    let executor = Echo::new();
    let actions = vec![
        script("a", "echo one\n", None),
        check("b", Stream::StdOut, "two\n"),
        script("b", "echo two\n", None),
    ];
    let events = run_actions_with("hello.md", &actions, &executor, &Files::new());
    assert_eq!(events.len(), 4);
    assert_eq!(passed(&events[1]), Some(true));
    assert_eq!(
        events[2],
        RunEvent::ErrorOccurred(Error::ScriptNotFound { name: "b".to_string() })
    );
    assert_eq!(events[3], RunEvent::SpecFileCompleted { success: false });
    assert_eq!(*executor.runs.borrow(), vec!["echo one\n".to_string()]);
}

#[test]
fn a_failing_test_does_not_end_the_run() {
    let executor = Echo::new();
    let actions = vec![
        script("a", "exit 3\n", None),
        script("b", "echo two\n", None),
        check("b", Stream::StdOut, "two\n"),
    ];
    let events = run_actions_with("hello.md", &actions, &executor, &Files::new());
    assert_eq!(events.len(), 5);
    assert_eq!(passed(&events[1]), Some(false));
    assert_eq!(passed(&events[2]), Some(true));
    assert_eq!(passed(&events[3]), Some(true));
    assert_eq!(events[4], RunEvent::SpecFileCompleted { success: false });
    assert_eq!(executor.runs.borrow().len(), 2);
    assert_eq!(RunCommand::events_to_exitcode(&events), ExitCode::TestFailed);
}

#[test]
fn a_script_passes_with_the_expected_exit_code() {
    let name = ScriptName("s".to_string());
    let expected = Some(specdown::types::ExitCode(2));
    let result = script::run(&name, "warn oops\nexit 2\n", &expected, &Echo::new()).unwrap();
    assert_eq!(
        result,
        TestResult {
            description: "script s".to_string(),
            passed: true,
            detail: Detail::Script {
                result: ScriptResult {
                    name: ScriptName("s".to_string()),
                    stdout: "".to_string(),
                    stderr: "oops\n".to_string(),
                    exit_code: 2,
                },
                expected_exit_code: expected,
            },
        }
    );
    let failed = script::run(&name, "exit 2\n", &None, &Echo::new()).unwrap();
    assert!(!failed.passed);
    let negative = script::concluded(
        &name,
        &Some(specdown::types::ExitCode(4294967295)),
        Ok(Output { stdout: String::new(), stderr: String::new(), exit_code: -1 }),
    )
    .unwrap();
    assert!(!negative.passed);
}

#[test]
fn a_script_that_cannot_be_started_is_an_error() {
    let actions = vec![script("a", "echo one\n", None), script("b", "echo two\n", None)];
    let events = run_actions_with("hello.md", &actions, &Broken, &Files::new());
    assert_eq!(
        events,
        vec![
            RunEvent::SpecFileStarted("hello.md".to_string()),
            RunEvent::ErrorOccurred(Error::CommandFailed {
                command: "none".to_string(),
                message: "not found".to_string()
            }),
            RunEvent::SpecFileCompleted { success: false },
        ]
    );
    assert_eq!(RunCommand::events_to_exitcode(&events), ExitCode::ErrorOccurred);
}

#[test]
fn the_later_script_of_a_name_is_the_one_compared() {
    let actions = vec![
        script("s", "echo first\n", None),
        script("s", "echo second\nwarn third\n", None),
        check("s", Stream::StdOut, "second\n"),
        check("s", Stream::StdErr, "third\n"),
        check("s", Stream::Output, "second\nthird\n"),
    ];
    let events = run_actions_with("hello.md", &actions, &Echo::new(), &Files::new());
    assert_eq!(events.len(), 7);
    for event in &events[1..6] {
        assert_eq!(passed(event), Some(true));
    }
    assert_eq!(events[6], RunEvent::SpecFileCompleted { success: true });
}

#[test]
fn a_file_is_written_without_a_test() {
    let files = Files::new();
    let actions = vec![Action::CreateFile {
        path: FilePath("a.txt".to_string()),
        content: "content\n".to_string(),
    }];
    let events = run_actions_with("hello.md", &actions, &Echo::new(), &files);
    assert_eq!(
        events,
        vec![
            RunEvent::SpecFileStarted("hello.md".to_string()),
            RunEvent::SpecFileCompleted { success: true },
        ]
    );
    assert_eq!(*files.written.borrow(), vec![("a.txt".to_string(), "content\n".to_string())]);
}

#[test]
fn a_file_that_cannot_be_written_is_an_error() {
    let executor = Echo::new();
    let actions = vec![
        Action::CreateFile {
            path: FilePath("/forbidden/a.txt".to_string()),
            content: "content\n".to_string(),
        },
        script("a", "echo one\n", None),
    ];
    let events = run_actions_with("hello.md", &actions, &executor, &Files::new());
    assert_eq!(
        events,
        vec![
            RunEvent::SpecFileStarted("hello.md".to_string()),
            RunEvent::ErrorOccurred(Error::FileWriteFailed {
                path: "/forbidden/a.txt".to_string(),
                message: "permission denied".to_string()
            }),
            RunEvent::SpecFileCompleted { success: false },
        ]
    );
    assert!(executor.runs.borrow().is_empty());
    assert_eq!(RunCommand::events_to_exitcode(&events), ExitCode::ErrorOccurred);
}

#[test]
fn run_action_gives_no_test_for_a_file() {
    let state = State::new();
    let action = Action::CreateFile {
        path: FilePath("a.txt".to_string()),
        content: "content\n".to_string(),
    };
    assert_eq!(run_action(&action, &state, &Echo::new(), &Files::new()), Ok(None));
}

#[test]
fn verify_compares_exactly() {
    assert!(verify::verify("hello\n", "hello\n"));
    assert!(!verify::verify("hello", "hello\n"));
    assert!(!verify::verify("hello\n", " hello\n"));
    assert!(verify::verify("", ""));
}

#[test]
fn verify_run_reports_what_was_compared() {
    let mut state = State::new();
    let ran = script::run(&ScriptName("s".to_string()), "echo hi\n", &None, &Echo::new()).unwrap();
    state.add_result(&ran);
    assert!(state.is_success());
    let source = Source { name: ScriptName("s".to_string()), stream: Stream::StdOut };
    let result = verify::run(&source, "ho\n", &state).unwrap();
    assert_eq!(
        result,
        TestResult {
            description: "verify stdout of s".to_string(),
            passed: false,
            detail: Detail::Verify {
                source: Source { name: ScriptName("s".to_string()), stream: Stream::StdOut },
                expected: "ho\n".to_string(),
                actual: "hi\n".to_string(),
            },
        }
    );
    state.add_result(&result);
    assert!(!state.is_success());
    let missing = Source { name: ScriptName("t".to_string()), stream: Stream::StdOut };
    assert_eq!(
        verify::run(&missing, "ho\n", &state),
        Err(Error::ScriptNotFound { name: "t".to_string() })
    );
}

/// A launcher that keeps what it was asked to start.
struct Recorder {
    started: RefCell<Vec<(String, Vec<String>)>>,
    fails: bool,
}

impl Launcher for Recorder {
    fn launch(&self, program: &str, arguments: &Vec<String>) -> Result<Output, String> {
        self.started.borrow_mut().push((program.to_string(), arguments.clone()));
        if self.fails {
            Err("no such file".to_string())
        } else {
            Ok(Output { stdout: "out".to_string(), stderr: "err".to_string(), exit_code: 7 })
        }
    }
}

#[test]
fn the_shell_gets_the_script_as_its_last_argument() {
    let recorder = Recorder { started: RefCell::new(vec![]), fails: false };
    let shell = Shell::new("bash  -e\t-c ", &recorder).unwrap();
    let output = shell.run("echo hello").unwrap();
    assert_eq!(
        output,
        Output { stdout: "out".to_string(), stderr: "err".to_string(), exit_code: 7 }
    );
    assert_eq!(
        *recorder.started.borrow(),
        vec![(
            "bash".to_string(),
            vec!["-e".to_string(), "-c".to_string(), "echo hello".to_string()]
        )]
    );
}

#[test]
fn a_shell_command_without_a_word_is_refused() {
    assert_eq!(
        ShellCommand::new(" \t "),
        Err(Error::BadShellCommand { command: " \t ".to_string() })
    );
    assert_eq!(ShellCommand::new(""), Err(Error::BadShellCommand { command: "".to_string() }));
    assert_eq!(
        ShellCommand::new("bash -c"),
        Ok(ShellCommand { program: "bash".to_string(), arguments: vec!["-c".to_string()] })
    );
    let recorder = Recorder { started: RefCell::new(vec![]), fails: false };
    assert_eq!(
        Shell::new("", &recorder).err(),
        Some(Error::BadShellCommand { command: "".to_string() })
    );
    assert_eq!(
        Shell::new(" \n", &recorder).err(),
        Some(Error::BadShellCommand { command: " \n".to_string() })
    );
}

#[test]
fn a_shell_that_cannot_be_started_is_an_error() {
    let recorder = Recorder { started: RefCell::new(vec![]), fails: true };
    let shell = Shell::new("nothing -c", &recorder).unwrap();
    assert_eq!(
        shell.run("echo hello"),
        Err(Error::CommandFailed {
            command: "nothing -c".to_string(),
            message: "no such file".to_string()
        })
    );
}

#[test]
fn a_bad_shell_command_ends_the_run_before_any_action() {
    let recorder = Recorder { started: RefCell::new(vec![]), fails: false };
    let files = Files::new();
    let actions = vec![
        Action::CreateFile { path: FilePath("a.txt".to_string()), content: "x".to_string() },
        script("a", "echo one\n", None),
        script("b", "echo two\n", None),
    ];
    let events = run_actions("hello.md", &actions, " ", &recorder, &files);
    assert_eq!(
        events,
        vec![
            RunEvent::SpecFileStarted("hello.md".to_string()),
            RunEvent::ErrorOccurred(Error::BadShellCommand { command: " ".to_string() }),
            RunEvent::SpecFileCompleted { success: false },
        ]
    );
    assert!(files.written.borrow().is_empty());
    assert!(recorder.started.borrow().is_empty());
    assert_eq!(RunCommand::events_to_exitcode(&events), ExitCode::ErrorOccurred);

    let events = run_actions("hello.md", &[], "", &recorder, &files);
    assert_eq!(
        events,
        vec![
            RunEvent::SpecFileStarted("hello.md".to_string()),
            RunEvent::ErrorOccurred(Error::BadShellCommand { command: "".to_string() }),
            RunEvent::SpecFileCompleted { success: false },
        ]
    );
}

#[test]
fn actions_run_under_the_shell_command() {
    let recorder = Recorder { started: RefCell::new(vec![]), fails: false };
    let files = Files::new();
    let actions = vec![
        Action::CreateFile { path: FilePath("a.txt".to_string()), content: "x".to_string() },
        script("a", "echo one\n", Some(7)),
        check("a", Stream::Output, "outerr"),
    ];
    let events = run_actions("hello.md", &actions, "sh -c", &recorder, &files);
    assert_eq!(events.len(), 4);
    assert_eq!(passed(&events[1]), Some(true));
    assert_eq!(passed(&events[2]), Some(true));
    assert_eq!(events[3], RunEvent::SpecFileCompleted { success: true });
    assert_eq!(files.written.borrow().len(), 1);
    assert_eq!(
        *recorder.started.borrow(),
        vec![("sh".to_string(), vec!["-c".to_string(), "echo one\n".to_string()])]
    );
}
