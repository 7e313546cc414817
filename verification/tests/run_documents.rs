use specdown::commands::run::{Document, DocumentReader, Next, RunCommand, NAME};
use specdown::exit_codes::ExitCode;
use specdown::results::printer::{PrintItem, Printer, Reporter};
use specdown::results::test_result::{Detail, TestResult};
use specdown::parser::error::Error as AnnotationError;
use specdown::parser::DocumentError;
use specdown::runner::executor::{Launcher, Output};
use specdown::runner::file::FileWriter;
use specdown::runner::{Error, RunEvent};
use specdown::types::{ScriptName, Source, Stream};
use std::cell::RefCell;

/// Documents kept in memory, with a count of how often each was read.
struct Shelf {
    documents: Vec<(String, String)>,
    reads: RefCell<Vec<String>>,
}

impl Shelf {
    fn new(documents: &[(&str, &str)]) -> Shelf {
        Shelf {
            documents: documents
                .iter()
                .map(|(path, text)| (path.to_string(), text.to_string()))
                .collect(),
            reads: RefCell::new(vec![]),
        }
    }
}

impl DocumentReader for Shelf {
    fn read(&self, path: &str) -> Result<String, String> {
        self.reads.borrow_mut().push(path.to_string());
        match self.documents.iter().find(|(known, _)| known == path) {
            Some((_, text)) => Ok(text.clone()),
            None => Err("no such file".to_string()),
        }
    }
}

/// A launcher that prints the last argument and keeps what it started.
struct Printing {
    started: RefCell<Vec<(String, Vec<String>)>>,
}

impl Launcher for Printing {
    fn launch(&self, program: &str, arguments: &Vec<String>) -> Result<Output, String> {
        self.started.borrow_mut().push((program.to_string(), arguments.clone()));
        Ok(Output {
            stdout: arguments.last().cloned().unwrap_or_default(),
            stderr: String::new(),
            exit_code: 0,
        })
    }
}

fn shell() -> Printing {
    Printing { started: RefCell::new(vec![]) }
}

struct NoFiles;

impl FileWriter for NoFiles {
    fn write(&self, _path: &str, _content: &str) -> Result<(), String> {
        Err("read-only".to_string())
    }
}

struct Collector {
    items: Vec<String>,
}

impl Printer for Collector {
    fn print(&mut self, item: &PrintItem) {
        self.items.push(match item {
            PrintItem::RunEvent(RunEvent::SpecFileStarted(path)) => format!("start {}", path),
            PrintItem::RunEvent(RunEvent::TestCompleted(result)) => {
                format!("{}: {}", result.description, result.passed)
            }
            PrintItem::RunEvent(RunEvent::SpecFileCompleted { success }) => {
                format!("end {}", success)
            }
            PrintItem::RunEvent(RunEvent::ErrorOccurred(_)) => "error".to_string(),
            PrintItem::RunError(_) => "run error".to_string(),
        });
    }
}

const PASSING: &str = "```shell,script(name=\"s\")\nhello\n```\n\n```text,verify(script_name=\"s\", stream=stdout)\nhello\n```\n";
const FAILING: &str = "```shell,script(name=\"s\")\nhello\n```\n\n```text,verify(script_name=\"s\", stream=stdout)\nworld\n```\n";
const MALFORMED: &str = "```shell,script(name=\"s\"\nhello\n```\n";
const MISSING: &str = "```text,verify(script_name=\"missing\", stream=stdout)\nhello\n```\n";

fn command(spec_files: &[&str]) -> RunCommand {
    RunCommand {
        spec_files: spec_files.iter().map(|path| path.to_string()).collect(),
        spec_dir: "/docs".to_string(),
        shell_cmd: "bash -c".to_string(),
        running_dir: None,
    }
}

#[test]
fn the_operation_is_called_run() {
    assert_eq!(NAME, "run");
}

#[test]
fn a_passing_document_succeeds() {
    let (exit_code, items) =
        command(&[]).run_spec_file("a.md", Ok(PASSING.to_string()), &shell(), &NoFiles);
    assert_eq!(exit_code, ExitCode::Success);
    assert_eq!(items.len(), 4);
    assert_eq!(items[0], PrintItem::RunEvent(RunEvent::SpecFileStarted("a.md".to_string())));
    assert_eq!(
        items[2],
        PrintItem::RunEvent(RunEvent::TestCompleted(TestResult {
            description: "verify stdout of s".to_string(),
            passed: true,
            detail: Detail::Verify {
                source: Source { name: ScriptName("s".to_string()), stream: Stream::StdOut },
                expected: "hello\n".to_string(),
                actual: "hello\n".to_string(),
            },
        }))
    );
    assert_eq!(items[3], PrintItem::RunEvent(RunEvent::SpecFileCompleted { success: true }));
}

#[test]
fn a_failing_document_is_a_failed_test() {
    let (exit_code, items) =
        command(&[]).run_spec_file("a.md", Ok(FAILING.to_string()), &shell(), &NoFiles);
    assert_eq!(exit_code, ExitCode::TestFailed);
    assert_eq!(items.len(), 4);
    assert_eq!(items[3], PrintItem::RunEvent(RunEvent::SpecFileCompleted { success: false }));
}

#[test]
fn a_malformed_document_is_a_failed_test_and_runs_nothing() {
    let launcher = shell();
    let (exit_code, items) =
        command(&[]).run_spec_file("a.md", Ok(MALFORMED.to_string()), &launcher, &NoFiles);
    assert_eq!(exit_code, ExitCode::TestFailed);
    assert_eq!(
        items,
        vec![
            PrintItem::RunEvent(RunEvent::SpecFileStarted("a.md".to_string())),
            PrintItem::RunEvent(RunEvent::ErrorOccurred(Error::RunFailed {
                message: "The parser failed: expected ',' or ')' after the argument".to_string()
            })),
        ]
    );
    assert!(launcher.started.borrow().is_empty());
}

#[test]
fn a_document_that_names_a_missing_script_is_an_error() {
    let (exit_code, items) =
        command(&[]).run_spec_file("a.md", Ok(MISSING.to_string()), &shell(), &NoFiles);
    assert_eq!(exit_code, ExitCode::ErrorOccurred);
    assert_eq!(
        items,
        vec![
            PrintItem::RunEvent(RunEvent::SpecFileStarted("a.md".to_string())),
            PrintItem::RunEvent(RunEvent::ErrorOccurred(Error::ScriptNotFound {
                name: "missing".to_string()
            })),
            PrintItem::RunEvent(RunEvent::SpecFileCompleted { success: false }),
        ]
    );
}

#[test]
fn a_document_that_cannot_be_read_is_an_error() {
    let (exit_code, items) =
        command(&[]).run_spec_file("a.md", Err("no such file".to_string()), &shell(), &NoFiles);
    assert_eq!(exit_code, ExitCode::ErrorOccurred);
    assert_eq!(
        items,
        vec![
            PrintItem::RunEvent(RunEvent::SpecFileStarted("a.md".to_string())),
            PrintItem::RunEvent(RunEvent::ErrorOccurred(Error::SpecFileUnreadable {
                path: "a.md".to_string(),
                message: "no such file".to_string()
            })),
        ]
    );
}

#[test]
fn print_items_report_a_run_or_its_error() {
    let events = vec![
        RunEvent::SpecFileStarted("a.md".to_string()),
        RunEvent::SpecFileCompleted { success: true },
    ];
    assert_eq!(
        RunCommand::create_print_items("a.md", &Ok(events)),
        vec![
            PrintItem::RunEvent(RunEvent::SpecFileStarted("a.md".to_string())),
            PrintItem::RunEvent(RunEvent::SpecFileCompleted { success: true }),
        ]
    );
    let error = Error::RunFailed { message: "broken".to_string() };
    assert_eq!(
        RunCommand::create_print_items("a.md", &Err((ExitCode::TestFailed, error))),
        vec![
            PrintItem::RunEvent(RunEvent::SpecFileStarted("a.md".to_string())),
            PrintItem::RunError(Error::RunFailed { message: "broken".to_string() }),
        ]
    );
    assert_eq!(RunCommand::create_print_items("a.md", &Ok(vec![])), vec![]);
}

#[test]
fn the_first_error_decides_the_exit_code() {
    let failed = RunEvent::SpecFileCompleted { success: false };
    let passed = RunEvent::SpecFileCompleted { success: true };
    let parse_error = RunEvent::ErrorOccurred(Error::RunFailed { message: "m".to_string() });
    let run_error = RunEvent::ErrorOccurred(Error::ScriptNotFound { name: "s".to_string() });
    let code = |events: &[&RunEvent]| {
        let events: Vec<RunEvent> = events.iter().map(|event| (*event).clone()).collect();
        RunCommand::events_to_exitcode(&events)
    };
    assert_eq!(code(&[]), ExitCode::Success);
    assert_eq!(code(&[&passed]), ExitCode::Success);
    assert_eq!(code(&[&passed, &failed]), ExitCode::TestFailed);
    assert_eq!(code(&[&failed, &passed]), ExitCode::TestFailed);
    assert_eq!(code(&[&parse_error]), ExitCode::TestFailed);
    assert_eq!(code(&[&run_error]), ExitCode::ErrorOccurred);
    assert_eq!(code(&[&failed, &run_error]), ExitCode::ErrorOccurred);
    assert_eq!(code(&[&run_error, &failed]), ExitCode::ErrorOccurred);
    assert_eq!(code(&[&parse_error, &run_error]), ExitCode::TestFailed);
    assert_eq!(code(&[&run_error, &parse_error]), ExitCode::ErrorOccurred);
    assert_eq!(code(&[&passed, &parse_error, &run_error, &failed]), ExitCode::TestFailed);
}

#[test]
fn a_document_that_did_not_succeed_is_the_last() {
    let run = command(&["a.md", "b.md", "c.md"]);
    assert_eq!(run.next(0, ExitCode::Success), Next::Run(0));
    assert_eq!(run.next(1, ExitCode::Success), Next::Run(1));
    assert_eq!(run.next(2, ExitCode::Success), Next::Run(2));
    assert_eq!(run.next(3, ExitCode::Success), Next::Exit(ExitCode::Success));
    assert_eq!(run.next(1, ExitCode::TestFailed), Next::Exit(ExitCode::TestFailed));
    assert_eq!(run.next(1, ExitCode::ErrorOccurred), Next::Exit(ExitCode::ErrorOccurred));
    assert_eq!(run.next(3, ExitCode::TestFailed), Next::Exit(ExitCode::TestFailed));
    assert_eq!(command(&[]).next(0, ExitCode::Success), Next::Exit(ExitCode::Success));
}

#[test]
fn documents_after_a_failing_one_are_never_opened() {
    let shelf = Shelf::new(&[("/docs/a.md", FAILING), ("/docs/b.md", PASSING), ("/c.md", PASSING)]);
    let launcher = shell();
    let mut printer = Reporter::new(Collector { items: vec![] });
    let exit_code = command(&["a.md", "b.md", "/c.md"]).execute(
        &shelf,
        &launcher,
        &NoFiles,
        &mut printer,
    );
    assert_eq!(exit_code, ExitCode::TestFailed);
    assert_eq!(*shelf.reads.borrow(), vec!["/docs/a.md".to_string()]);
    assert_eq!(
        *launcher.started.borrow(),
        vec![("bash".to_string(), vec!["-c".to_string(), "hello\n".to_string()])]
    );
    assert_eq!(
        printer.printer().items,
        vec!["start a.md", "script s: true", "verify stdout of s: false", "end false"]
    );
}

#[test]
fn all_documents_are_run_while_they_succeed() {
    let shelf = Shelf::new(&[("/docs/a.md", PASSING), ("/docs/b.md", PASSING), ("/c.md", MISSING)]);
    let launcher = shell();
    let mut printer = Reporter::new(Collector { items: vec![] });
    let run = command(&["a.md", "b.md", "/c.md", "d.md"]);
    let exit_code = run.execute(&shelf, &launcher, &NoFiles, &mut printer);
    assert_eq!(exit_code, ExitCode::ErrorOccurred);
    assert_eq!(
        *shelf.reads.borrow(),
        vec!["/docs/a.md".to_string(), "/docs/b.md".to_string(), "/c.md".to_string()]
    );
    assert_eq!(launcher.started.borrow().len(), 2);
    assert_eq!(printer.printer().items.len(), 11);

    let shelf = Shelf::new(&[("/docs/a.md", PASSING), ("/docs/b.md", PASSING)]);
    let launcher = shell();
    let mut printer = Reporter::new(Collector { items: vec![] });
    let exit_code = command(&["a.md", "b.md"]).execute(
        &shelf,
        &launcher,
        &NoFiles,
        &mut printer,
    );
    assert_eq!(exit_code, ExitCode::Success);
    assert_eq!(shelf.reads.borrow().len(), 2);

    let shelf = Shelf::new(&[]);
    let launcher = shell();
    let mut printer = Reporter::new(Collector { items: vec![] });
    let exit_code = command(&["a.md", "b.md"]).execute(
        &shelf,
        &launcher,
        &NoFiles,
        &mut printer,
    );
    assert_eq!(exit_code, ExitCode::ErrorOccurred);
    assert_eq!(*shelf.reads.borrow(), vec!["/docs/a.md".to_string()]);
    assert_eq!(printer.printer().items, vec!["start a.md", "error"]);
}

#[test]
fn a_command_without_documents_succeeds() {
    let shelf = Shelf::new(&[]);
    let launcher = shell();
    let mut printer = Reporter::new(Collector { items: vec![] });
    let exit_code =
        command(&[]).execute(&shelf, &launcher, &NoFiles, &mut printer);
    assert_eq!(exit_code, ExitCode::Success);
    assert!(shelf.reads.borrow().is_empty());
    assert!(printer.printer().items.is_empty());
}

#[test]
fn a_document_is_read_before_it_is_run() {
    assert_eq!(
        RunCommand::read_document(Err("gone".to_string())),
        Document::Unreadable("gone".to_string())
    );
    assert_eq!(
        RunCommand::read_document(Ok(MALFORMED.to_string())),
        Document::Malformed(DocumentError::CodeBlock(AnnotationError::ParserFailed(
            "expected ',' or ')' after the argument".to_string()
        )))
    );
    assert_eq!(RunCommand::read_document(Ok("text\n".to_string())), Document::Actions(vec![]));
    let (exit_code, items) =
        RunCommand::run_document("a.md", Document::Actions(vec![]), "bash -c", &shell(), &NoFiles);
    assert_eq!(exit_code, ExitCode::Success);
    assert_eq!(
        items,
        vec![
            PrintItem::RunEvent(RunEvent::SpecFileStarted("a.md".to_string())),
            PrintItem::RunEvent(RunEvent::SpecFileCompleted { success: true }),
        ]
    );
    let (exit_code, items) = RunCommand::run_document(
        "a.md",
        Document::Malformed(DocumentError::CodeBlock(AnnotationError::UnknownFunction(
            "f".to_string(),
        ))),
        "bash -c",
        &shell(),
        &NoFiles,
    );
    assert_eq!(exit_code, ExitCode::TestFailed);
    assert_eq!(
        items[1],
        PrintItem::RunEvent(RunEvent::ErrorOccurred(Error::RunFailed {
            message: "Unknown function: f".to_string()
        }))
    );
}

#[test]
fn the_printer_is_handed_each_item_in_order() {
    let items = vec![
        PrintItem::RunEvent(RunEvent::SpecFileStarted("a.md".to_string())),
        PrintItem::RunEvent(RunEvent::ErrorOccurred(Error::RunFailed {
            message: "broken".to_string(),
        })),
        PrintItem::RunError(Error::RunFailed { message: "broken".to_string() }),
        PrintItem::RunEvent(RunEvent::SpecFileCompleted { success: false }),
    ];
    let mut printer = Reporter::new(Collector { items: vec!["before".to_string()] });
    RunCommand::print_items(&items, &mut printer);
    assert_eq!(
        printer.printer().items,
        vec!["before", "start a.md", "error", "run error", "end false"]
    );
    RunCommand::print_items(&vec![], &mut printer);
    assert_eq!(printer.printer().items.len(), 5);
    printer.report(&items[0]);
    assert_eq!(
        printer.into_printer().items,
        vec!["before", "start a.md", "error", "run error", "end false", "start a.md"]
    );
}

#[test]
fn a_bad_shell_command_ends_the_first_document_with_an_error() {
    let shelf = Shelf::new(&[("/docs/a.md", PASSING), ("/docs/b.md", PASSING)]);
    let launcher = shell();
    let mut printer = Reporter::new(Collector { items: vec![] });
    let run = RunCommand {
        spec_files: vec!["a.md".to_string(), "b.md".to_string()],
        spec_dir: "/docs".to_string(),
        shell_cmd: "  ".to_string(),
        running_dir: None,
    };
    let exit_code = run.execute(&shelf, &launcher, &NoFiles, &mut printer);
    assert_eq!(exit_code, ExitCode::ErrorOccurred);
    assert_eq!(*shelf.reads.borrow(), vec!["/docs/a.md".to_string()]);
    assert!(launcher.started.borrow().is_empty());
    assert_eq!(printer.printer().items, vec!["start a.md", "error", "end false"]);
}
