//! The `run` operation: run specification documents one after another
//! and decide the exit code.

use crate::exit_codes::ExitCode;
use crate::parser;
use crate::parser::{document_actions, DocumentError, DocumentErrorView};
use crate::results::printer::{PrintItem, PrintItemView, Printer, Reporter};
use crate::runner::error::ErrorView;
use crate::runner::executor::Launcher;
use crate::runner::file::FileWriter;
use crate::runner::{run_actions, shell_events, Error, Reply, RunEvent, RunEventView};
use crate::text::views;
use crate::types::{Action, ActionView};
use vstd::prelude::*;
use vstd::seq_lib::lemma_flatten_concat;
use vstd::string::*;

verus! {

/// The name of the operation on the command line.
pub const NAME: &'static str = "run";

/// The class of exit code that an error ends a run with: a document that
/// could not be parsed counts as a failed test, anything else as an error
/// of the run itself.
pub open spec fn error_class(error: ErrorView) -> ExitCode {
    if error is RunFailed {
        ExitCode::TestFailed
    } else {
        ExitCode::ErrorOccurred
    }
}

/// Whether the event at position `i` is the first error among `events`.
pub open spec fn is_first_error(events: Seq<RunEventView>, i: int) -> bool {
    &&& 0 <= i < events.len()
    &&& events[i] is ErrorOccurred
    &&& forall|j: int| 0 <= j < i ==> !(#[trigger] events[j] is ErrorOccurred)
}

/// Whether some document among `events` completed without success.
pub open spec fn has_failed_document(events: Seq<RunEventView>) -> bool {
    exists|i: int|
        0 <= i < events.len() && #[trigger] events[i] == (RunEventView::SpecFileCompleted {
            success: false,
        })
}

/// The exit code that a sequence of events amounts to. The first error
/// decides alone. Without an error the code is `TestFailed` when some
/// document completed without success, whatever the order of the events,
/// and `Success` otherwise.
pub open spec fn exit_code_of(events: Seq<RunEventView>) -> ExitCode {
    if exists|i: int| is_first_error(events, i) {
        let first = choose|i: int| is_first_error(events, i);
        error_class(events[first]->ErrorOccurred_0)
    } else if has_failed_document(events) {
        ExitCode::TestFailed
    } else {
        ExitCode::Success
    }
}

/// Whether a path starts at the root of the file system. Paths are written
/// with `/` between their parts.
pub open spec fn has_root(path: Seq<char>) -> bool {
    path.len() > 0 && path[0] == '/'
}

/// The path `path` as seen from the directory `base`: `path` itself where
/// it has a root, and otherwise `base` and `path` with one `/` between
/// them, which `base` may bring along.
pub open spec fn join(base: Seq<char>, path: Seq<char>) -> Seq<char> {
    if has_root(path) {
        path
    } else if base.len() == 0 || base.last() == '/' {
        base + path
    } else {
        base + seq!['/'] + path
    }
}

/// A document as far as it could be read.
#[derive(Debug, PartialEq)]
pub enum Document {
    /// The document could not be read, for this reason.
    Unreadable(String),
    /// The document could not be turned into actions.
    Malformed(DocumentError),
    /// The actions of the document, in order.
    Actions(Vec<Action>),
}

/// What a `Document` stands for in specifications.
pub enum DocumentView {
    Unreadable(Seq<char>),
    Malformed(DocumentErrorView),
    Actions(Seq<ActionView>),
}

impl View for Document {
    type V = DocumentView;

    open spec fn view(&self) -> DocumentView {
        match self {
            Document::Unreadable(message) => DocumentView::Unreadable(message@),
            Document::Malformed(error) => DocumentView::Malformed(error@),
            Document::Actions(actions) => DocumentView::Actions(views(actions@)),
        }
    }
}

/// The document that reading came to: unreadable where reading failed,
/// and otherwise the actions of the text, or the reason why it has none.
pub open spec fn document_of(contents: Result<Seq<char>, Seq<char>>) -> DocumentView {
    match contents {
        Err(message) => DocumentView::Unreadable(message),
        Ok(markdown) => match document_actions(markdown) {
            Err(error) => DocumentView::Malformed(error),
            Ok(actions) => DocumentView::Actions(actions),
        },
    }
}

/// The events of one document under the shell command `command`, given
/// what the shell and the file writer answered. A document that could not
/// be read, or could not be turned into actions, starts and ends with its
/// error, and none of its actions is run.
pub open spec fn document_events(
    spec_file: Seq<char>,
    document: DocumentView,
    command: Seq<char>,
    replies: Seq<Reply>,
) -> Seq<RunEventView> {
    match document {
        DocumentView::Unreadable(message) => seq![
            RunEventView::SpecFileStarted(spec_file),
            RunEventView::ErrorOccurred(ErrorView::SpecFileUnreadable { path: spec_file, message }),
        ],
        DocumentView::Malformed(error) => seq![
            RunEventView::SpecFileStarted(spec_file),
            RunEventView::ErrorOccurred(ErrorView::RunFailed { message: parser::message(error) }),
        ],
        DocumentView::Actions(actions) => shell_events(spec_file, actions, command, replies),
    }
}

/// The number of actions that a document runs.
pub open spec fn actions_to_run(document: DocumentView) -> nat {
    match document {
        DocumentView::Actions(actions) => actions.len(),
        _ => 0,
    }
}

/// Whether the run of a document under the shell command `command`, with
/// one pair of answers for each of its actions, ends with `exit_code` and
/// is reported by `items`.
pub open spec fn is_run_of(
    spec_file: Seq<char>,
    document: DocumentView,
    command: Seq<char>,
    replies: Seq<Reply>,
    exit_code: ExitCode,
    items: Seq<PrintItemView>,
) -> bool {
    &&& replies.len() == actions_to_run(document)
    &&& exit_code == exit_code_of(document_events(spec_file, document, command, replies))
    &&& items == print_items_of(
        spec_file,
        Ok(document_events(spec_file, document, command, replies)),
    )
}

/// The items that report a run: its events, or, for a run that did not
/// take place, the start of the document and the error.
pub open spec fn print_items_of(
    spec_file: Seq<char>,
    events: Result<Seq<RunEventView>, (ExitCode, ErrorView)>,
) -> Seq<PrintItemView> {
    match events {
        Ok(events) => events.map_values(|event: RunEventView| PrintItemView::RunEvent(event)),
        Err((_, error)) => seq![
            PrintItemView::RunEvent(RunEventView::SpecFileStarted(spec_file)),
            PrintItemView::RunError(error),
        ],
    }
}

/// What a run or an error stands for in specifications.
pub open spec fn run_view(events: Result<Vec<RunEvent>, (ExitCode, Error)>) -> Result<
    Seq<RunEventView>,
    (ExitCode, ErrorView),
> {
    match events {
        Ok(events) => Ok(views(events@)),
        Err((exit_code, error)) => Err((exit_code, error@)),
    }
}

/// What reading a document came to, with the views of the texts.
pub open spec fn contents_view(contents: Result<String, String>) -> Result<Seq<char>, Seq<char>> {
    match contents {
        Ok(markdown) => Ok(markdown@),
        Err(message) => Err(message@),
    }
}

/// What comes after a document: the next one to run, or the end.
#[derive(Debug, Clone, Copy, PartialEq, Eq, Structural)]
pub enum Next {
    /// Read and run the document at this position among the documents.
    Run(usize),
    /// Run no further document, and end with this exit code.
    Exit(ExitCode),
}

/// What comes next when `completed` of `documents` documents have been
/// run and the last of them ended with `last`. A document that did not
/// succeed is the last one; otherwise the next document is run, if there
/// is one.
pub open spec fn next_step(documents: nat, completed: nat, last: ExitCode) -> Next {
    if last != ExitCode::Success {
        Next::Exit(last)
    } else if completed < documents {
        Next::Run(completed as usize)
    } else {
        Next::Exit(ExitCode::Success)
    }
}

/// Reads documents from where they are kept.
pub trait DocumentReader {
    /// The text of the document at `path`, or the reason why it could not
    /// be read.
    fn read(&self, path: &str) -> Result<String, String>;
}

/// Whether a run of some of `documents` documents, one after another from
/// the first on, which ended with the exit codes `exit_codes`, ends as a
/// whole with `exit_code`. Every document before the last one run
/// succeeded. Where the last one run did not succeed, its exit code is
/// the outcome; otherwise all documents were run, and the outcome is
/// success.
pub open spec fn is_outcome(documents: nat, exit_codes: Seq<ExitCode>, exit_code: ExitCode) -> bool {
    &&& exit_codes.len() <= documents
    &&& forall|i: int| 0 <= i < exit_codes.len() - 1 ==> #[trigger] exit_codes[i] == ExitCode::Success
    &&& if exit_codes.len() > 0 && exit_codes.last() != ExitCode::Success {
        exit_code == exit_codes.last()
    } else {
        exit_codes.len() == documents && exit_code == ExitCode::Success
    }
}

/// Whether running the documents `spec_files` one after another under the
/// shell command `command` ends with `exit_code`, where `contents` is what
/// reading each document that was run came to, `replies` what the shell
/// and the file writer answered in each, `exit_codes` how each ended and
/// `items` what reports each. The documents that were run are the first
/// ones, one for each exit code; each but the last succeeded, and the
/// documents after a document that did not succeed were not run.
pub open spec fn is_execution(
    spec_files: Seq<Seq<char>>,
    command: Seq<char>,
    contents: Seq<Result<Seq<char>, Seq<char>>>,
    replies: Seq<Seq<Reply>>,
    exit_codes: Seq<ExitCode>,
    items: Seq<Seq<PrintItemView>>,
    exit_code: ExitCode,
) -> bool {
    &&& contents.len() == exit_codes.len()
    &&& replies.len() == exit_codes.len()
    &&& items.len() == exit_codes.len()
    &&& is_outcome(spec_files.len(), exit_codes, exit_code)
    &&& forall|i: int|
        0 <= i < exit_codes.len() ==> is_run_of(
            spec_files[i],
            document_of(contents[i]),
            command,
            replies[i],
            #[trigger] exit_codes[i],
            items[i],
        )
}

/// The settings of one invocation of the `run` operation.
#[derive(Debug, PartialEq, Eq)]
pub struct RunCommand {
    /// The documents to run, in order.
    pub spec_files: Vec<String>,
    /// The directory that relative document paths start from.
    pub spec_dir: String,
    /// The command that script bodies are handed to.
    pub shell_cmd: String,
    /// The directory in which scripts run and files are created.
    pub running_dir: Option<String>,
}

impl RunCommand {
    /// The path of a document as seen from the directory that the command
    /// was started in.
    pub fn to_absolute(&self, path: &str) -> (absolute: String)
        ensures
            absolute@ == join(self.spec_dir@, path@),
    {
        let base = self.spec_dir.as_str();
        let base_len = base.unicode_len();
        if path.unicode_len() > 0 && path.get_char(0) == '/' {
            String::from_str(path)
        } else if base_len == 0 || base.get_char(base_len - 1) == '/' {
            String::from_str(base).concat(path)
        } else {
            proof {
                reveal_strlit("/");
                assert("/"@ == seq!['/']);
            }
            String::from_str(base).concat("/").concat(path)
        }
    }

    /// Runs the documents one after another, their scripts under the shell
    /// command of the settings, and reports each to the printer. The
    /// first document that does not succeed is the last one to be read and
    /// run, and its exit code is handed back; where all succeed, the exit
    /// code is `Success`. The printer is handed the items of the documents
    /// that were run, in their order, and nothing else.
    pub fn execute<R: DocumentReader, L: Launcher, W: FileWriter, P: Printer>(
        &self,
        reader: &R,
        launcher: &L,
        writer: &W,
        printer: &mut Reporter<P>,
    ) -> (exit_code: ExitCode)
        ensures
            exists|
                contents: Seq<Result<Seq<char>, Seq<char>>>,
                replies: Seq<Seq<Reply>>,
                exit_codes: Seq<ExitCode>,
                items: Seq<Seq<PrintItemView>>,
            |
                #[trigger] is_execution(
                    views(self.spec_files@),
                    self.shell_cmd@,
                    contents,
                    replies,
                    exit_codes,
                    items,
                    exit_code,
                ) && final(printer).reported() == old(printer).reported() + items.flatten(),
    {
        let ghost spec_files = views(self.spec_files@);
        let ghost mut contents: Seq<Result<Seq<char>, Seq<char>>> = Seq::empty();
        let ghost mut replies: Seq<Seq<Reply>> = Seq::empty();
        let ghost mut exit_codes: Seq<ExitCode> = Seq::empty();
        let ghost mut items: Seq<Seq<PrintItemView>> = Seq::empty();
        let mut completed: usize = 0;
        let mut last = ExitCode::Success;
        assert(old(printer).reported() + items.flatten() == old(printer).reported());
        loop
            invariant
                spec_files == views(self.spec_files@),
                completed <= self.spec_files.len(),
                exit_codes.len() == completed,
                contents.len() == completed,
                replies.len() == completed,
                items.len() == completed,
                forall|i: int|
                    0 <= i < exit_codes.len() - 1 ==> #[trigger] exit_codes[i]
                        == ExitCode::Success,
                completed > 0 ==> exit_codes.last() == last,
                completed == 0 ==> last == ExitCode::Success,
                forall|i: int|
                    0 <= i < exit_codes.len() ==> is_run_of(
                        spec_files[i],
                        document_of(contents[i]),
                        self.shell_cmd@,
                        replies[i],
                        #[trigger] exit_codes[i],
                        items[i],
                    ),
                printer.reported() == old(printer).reported() + items.flatten(),
            decreases self.spec_files.len() - completed,
        {
            match self.next(completed, last) {
                Next::Exit(exit_code) => {
                    assert(is_execution(
                        spec_files,
                        self.shell_cmd@,
                        contents,
                        replies,
                        exit_codes,
                        items,
                        exit_code,
                    ));
                    return exit_code;
                },
                Next::Run(i) => {
                    let spec_file = self.spec_files[i].as_str();
                    let path = self.to_absolute(spec_file);
                    let read = reader.read(path.as_str());
                    let ghost seen = contents_view(read);
                    let (exit_code, report) = self.run_spec_file(spec_file, read, launcher, writer);
                    RunCommand::print_items(&report, printer);
                    proof {
                        let answers = choose|answers: Seq<Reply>| #[trigger]
                            is_run_of(
                                spec_file@,
                                document_of(seen),
                                self.shell_cmd@,
                                answers,
                                exit_code,
                                views(report@),
                            );
                        let ran = seq![views(report@)];
                        ran.lemma_flatten_one_element();
                        lemma_flatten_concat(items, ran);
                        assert(items.push(views(report@)) == items + ran);
                        assert((old(printer).reported() + items.flatten()) + views(report@) == old(
                            printer,
                        ).reported() + (items.flatten() + views(report@)));
                        contents = contents.push(seen);
                        replies = replies.push(answers);
                        exit_codes = exit_codes.push(exit_code);
                        items = items.push(views(report@));
                        assert(spec_files[i as int] == spec_file@);
                    }
                    last = exit_code;
                    completed += 1;
                },
            }
        }
    }

    /// What comes next when the first `completed` documents have been run
    /// and the last of them ended with `last`; `last` is `Success` where
    /// none has been run yet.
    pub fn next(&self, completed: usize, last: ExitCode) -> (next: Next)
        ensures
            next == next_step(self.spec_files@.len(), completed as nat, last),
    {
        match last {
            ExitCode::Success => {
                if completed < self.spec_files.len() {
                    Next::Run(completed)
                } else {
                    Next::Exit(ExitCode::Success)
                }
            },
            _ => Next::Exit(last),
        }
    }

    /// Runs the document `spec_file`, of which `contents` is what reading
    /// it came to, under the shell command of the settings, and hands back
    /// its exit code and what to report. The events are those of a run in
    /// which the shell and the writer gave some answers, one pair for each
    /// action.
    pub fn run_spec_file<L: Launcher, W: FileWriter>(
        &self,
        spec_file: &str,
        contents: Result<String, String>,
        launcher: &L,
        writer: &W,
    ) -> (result: (ExitCode, Vec<PrintItem>))
        ensures
            exists|replies: Seq<Reply>| #[trigger]
                is_run_of(
                    spec_file@,
                    document_of(contents_view(contents)),
                    self.shell_cmd@,
                    replies,
                    result.0,
                    views(result.1@),
                ),
    {
        let document = RunCommand::read_document(contents);
        RunCommand::run_document(spec_file, document, self.shell_cmd.as_str(), launcher, writer)
    }

    /// The document that reading came to.
    pub fn read_document(contents: Result<String, String>) -> (document: Document)
        ensures
            document@ == document_of(contents_view(contents)),
    {
        match contents {
            Err(message) => Document::Unreadable(message),
            Ok(markdown) => match parser::parse(markdown.as_str()) {
                Err(error) => Document::Malformed(error),
                Ok(actions) => Document::Actions(actions),
            },
        }
    }

    /// Runs `document`, the document at `spec_file`, under the shell
    /// command `shell_command`, and hands back its exit code and what to
    /// report. A document that could not be read is an error, one that
    /// could not be turned into actions is a failure of the run, and
    /// nothing is run for either. The events of any other document are
    /// those of a run in which the shell and the writer gave some answers,
    /// one pair for each action.
    pub fn run_document<L: Launcher, W: FileWriter>(
        spec_file: &str,
        document: Document,
        shell_command: &str,
        launcher: &L,
        writer: &W,
    ) -> (result: (ExitCode, Vec<PrintItem>))
        ensures
            exists|replies: Seq<Reply>| #[trigger]
                is_run_of(
                    spec_file@,
                    document@,
                    shell_command@,
                    replies,
                    result.0,
                    views(result.1@),
                ),
    {
        let ghost seen = document@;
        let ghost command = shell_command@;
        let ghost mut replies: Seq<Reply> = Seq::empty();
        let events: Vec<RunEvent> = match document {
            Document::Unreadable(message) => {
                let start = RunEvent::SpecFileStarted(String::from_str(spec_file));
                let error = RunEvent::ErrorOccurred(
                    Error::SpecFileUnreadable { path: String::from_str(spec_file), message },
                );
                let events = vec![start, error];
                assert(views(events@) == document_events(spec_file@, seen, command, replies));
                events
            },
            Document::Malformed(error) => {
                let start = RunEvent::SpecFileStarted(String::from_str(spec_file));
                let error = RunEvent::ErrorOccurred(
                    Error::RunFailed { message: error.to_string() },
                );
                let events = vec![start, error];
                assert(views(events@) == document_events(spec_file@, seen, command, replies));
                events
            },
            Document::Actions(actions) => {
                let events = run_actions(
                    spec_file,
                    actions.as_slice(),
                    shell_command,
                    launcher,
                    writer,
                );
                proof {
                    replies = choose|replies: Seq<Reply>|
                        replies.len() == actions@.len() && views(events@)
                            == #[trigger] shell_events(
                            spec_file@,
                            views(actions@),
                            command,
                            replies,
                        );
                }
                events
            },
        };
        assert(replies.len() == actions_to_run(seen));
        assert(views(events@) == document_events(spec_file@, seen, command, replies));
        let exit_code = RunCommand::events_to_exitcode(events.as_slice());
        let run: Result<Vec<RunEvent>, (ExitCode, Error)> = Ok(events);
        let items = RunCommand::create_print_items(spec_file, &run);
        let result = (exit_code, items);
        assert(is_run_of(spec_file@, seen, command, replies, result.0, views(result.1@)));
        result
    }

    /// The items that report a run of the document `spec_file`.
    pub fn create_print_items(
        spec_file: &str,
        events: &Result<Vec<RunEvent>, (ExitCode, Error)>,
    ) -> (items: Vec<PrintItem>)
        ensures
            views(items@) == print_items_of(spec_file@, run_view(*events)),
    {
        match events {
            Ok(run_events) => {
                let ghost wanted = print_items_of(spec_file@, run_view(*events));
                let mut items: Vec<PrintItem> = Vec::new();
                let mut i: usize = 0;
                assert(views(items@) == wanted.take(0));
                while i < run_events.len()
                    invariant
                        0 <= i <= run_events.len(),
                        wanted == views(run_events@).map_values(
                            |event: RunEventView| PrintItemView::RunEvent(event),
                        ),
                        views(items@) == wanted.take(i as int),
                    decreases run_events.len() - i,
                {
                    let ghost before = views(items@);
                    let item = PrintItem::RunEvent(run_events[i].clone());
                    items.push(item);
                    assert(views(items@) == before.push(item@));
                    assert(wanted.take(i + 1) == wanted.take(i as int).push(wanted[i as int]));
                    i += 1;
                }
                assert(wanted.take(i as int) == wanted);
                items
            },
            Err((_, error)) => {
                let start = PrintItem::RunEvent(
                    RunEvent::SpecFileStarted(String::from_str(spec_file)),
                );
                let failure = PrintItem::RunError(error.clone());
                let items = vec![start, failure];
                assert(views(items@) == print_items_of(spec_file@, run_view(*events)));
                items
            },
        }
    }

    /// Hands each item to the printer, in order: the printer has then been
    /// handed what it had been handed before, and after that the items,
    /// each once, first to last.
    pub fn print_items<P: Printer>(items: &Vec<PrintItem>, printer: &mut Reporter<P>)
        ensures
            final(printer).reported() == old(printer).reported() + views(items@),
    {
        let ghost all = views(items@);
        let mut i: usize = 0;
        assert(old(printer).reported() + all.take(0) == old(printer).reported());
        while i < items.len()
            invariant
                0 <= i <= items.len(),
                all == views(items@),
                printer.reported() == old(printer).reported() + all.take(i as int),
            decreases items.len() - i,
        {
            printer.report(&items[i]);
            assert(all.take(i + 1) == all.take(i as int).push(items[i as int]@));
            assert((old(printer).reported() + all.take(i as int)).push(items[i as int]@) == old(
                printer,
            ).reported() + all.take(i + 1));
            i += 1;
        }
        assert(all.take(i as int) == all);
    }

    /// Folds the events of a run into an exit code.
    pub fn events_to_exitcode(events: &[RunEvent]) -> (exit_code: ExitCode)
        ensures
            exit_code == exit_code_of(views(events@)),
    {
        let ghost all = views(events@);
        let mut exit_code = ExitCode::Success;
        let mut i: usize = 0;
        while i < events.len()
            invariant
                0 <= i <= events.len(),
                all == views(events@),
                forall|j: int| 0 <= j < i ==> !(#[trigger] all[j] is ErrorOccurred),
                exit_code == ExitCode::Success || exit_code == ExitCode::TestFailed,
                exit_code == ExitCode::TestFailed <==> has_failed_document(all.take(i as int)),
            decreases events.len() - i,
        {
            assert(all[i as int] == events[i as int]@);
            match &events[i] {
                RunEvent::SpecFileCompleted { success: false } => {
                    exit_code = ExitCode::TestFailed;
                    assert(all.take(i + 1)[i as int] == all[i as int]);
                },
                RunEvent::ErrorOccurred(error) => {
                    assert(is_first_error(all, i as int));
                    return match error {
                        Error::RunFailed { .. } => ExitCode::TestFailed,
                        _ => ExitCode::ErrorOccurred,
                    };
                },
                _ => {
                    assert(has_failed_document(all.take(i + 1)) ==> has_failed_document(
                        all.take(i as int),
                    )) by {
                        if has_failed_document(all.take(i + 1)) {
                            let k = choose|k: int|
                                0 <= k < all.take(i + 1).len() && #[trigger] all.take(i + 1)[k]
                                    == (RunEventView::SpecFileCompleted { success: false });
                            assert(all.take(i as int)[k] == all.take(i + 1)[k]);
                        }
                    }
                },
            }
            proof {
                if has_failed_document(all.take(i as int)) {
                    let k = choose|k: int|
                        0 <= k < all.take(i as int).len() && #[trigger] all.take(i as int)[k]
                            == (RunEventView::SpecFileCompleted { success: false });
                    assert(all.take(i + 1)[k] == all.take(i as int)[k]);
                }
            }
            i += 1;
        }
        assert(all.take(i as int) == all);
        exit_code
    }
}

} // verus!
