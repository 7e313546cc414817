//! Running a script's body under a shell command.
//!
//! The shell command is a line such as `bash -c`: the words of the line
//! are the program and its first arguments, and the script's body is
//! handed over as the last argument.

use crate::runner::error::{Error, ErrorView};
use crate::text::{result_view, substring, to_chars, views};
use vstd::prelude::*;
use vstd::string::*;

verus! {

/// What a script left behind when it ended.
#[derive(Debug, PartialEq, Eq)]
pub struct Output {
    pub stdout: String,
    pub stderr: String,
    pub exit_code: i32,
}

/// What an `Output` stands for in specifications.
pub struct OutputView {
    pub stdout: Seq<char>,
    pub stderr: Seq<char>,
    pub exit_code: i32,
}

impl View for Output {
    type V = OutputView;

    open spec fn view(&self) -> OutputView {
        OutputView { stdout: self.stdout@, stderr: self.stderr@, exit_code: self.exit_code }
    }
}

/// Runs the body of a script to its end.
pub trait Executor {
    /// Runs `code` and hands back what it printed and how it ended, or the
    /// reason why it could not be run.
    fn run(&self, code: &str) -> Result<Output, Error>;
}

/// Starts a program and waits for it.
pub trait Launcher {
    /// Runs `program` with `arguments` and hands back what it printed and
    /// how it ended, or the reason why it could not be started.
    fn launch(&self, program: &str, arguments: &Vec<String>) -> Result<Output, String>;
}

pub open spec fn is_space(c: char) -> bool {
    c == ' ' || c == '\t' || c == '\n' || c == '\r'
}

/// Where the spaces end that begin at `i`.
pub open spec fn spaces_end(s: Seq<char>, i: int) -> int
    decreases s.len() - i,
{
    if 0 <= i < s.len() && is_space(s[i]) {
        spaces_end(s, i + 1)
    } else {
        i
    }
}

/// Where the word ends that begins at `i`.
pub open spec fn word_end(s: Seq<char>, i: int) -> int
    decreases s.len() - i,
{
    if 0 <= i < s.len() && !is_space(s[i]) {
        word_end(s, i + 1)
    } else {
        i
    }
}

/// The end of a run of characters lies between its start and the end of
/// the text.
pub proof fn lemma_word_ends_in_range(s: Seq<char>, i: int)
    requires
        0 <= i <= s.len(),
    ensures
        i <= spaces_end(s, i) <= s.len(),
        i <= word_end(s, i) <= s.len(),
        spaces_end(s, i) < s.len() ==> !is_space(s[spaces_end(s, i)]),
    decreases s.len() - i,
{
    if i < s.len() {
        lemma_word_ends_in_range(s, i + 1);
    }
}

/// The words of `s` from `i` on: the longest runs of characters that are
/// no spaces.
pub open spec fn words_from(s: Seq<char>, i: int) -> Seq<Seq<char>>
    decreases s.len() - i,
{
    if 0 <= i <= s.len() {
        let start = spaces_end(s, i);
        if start >= s.len() {
            Seq::empty()
        } else {
            let end = word_end(s, start);
            proof {
                lemma_word_ends_in_range(s, i);
                lemma_word_ends_in_range(s, start + 1);
            }
            seq![s.subrange(start, end)] + words_from(s, end)
        }
    } else {
        Seq::empty()
    }
}

/// The words of a shell command.
pub open spec fn words(command: Seq<char>) -> Seq<Seq<char>> {
    words_from(command, 0)
}

/// Whether `w` is a word: it has a character, and none of them is a
/// space.
pub open spec fn is_word(w: Seq<char>) -> bool {
    &&& w.len() > 0
    &&& forall|k: int| 0 <= k < w.len() ==> !is_space(#[trigger] w[k])
}

/// No character up to the end of a word is a space.
pub proof fn lemma_word_has_no_space(s: Seq<char>, i: int)
    requires
        0 <= i <= s.len(),
    ensures
        forall|k: int| i <= k < word_end(s, i) ==> !is_space(#[trigger] s[k]),
    decreases s.len() - i,
{
    if i < s.len() && !is_space(s[i]) {
        lemma_word_has_no_space(s, i + 1);
    }
}

/// Each of the words of a command is a word.
pub proof fn lemma_words_are_words(s: Seq<char>, i: int)
    requires
        0 <= i <= s.len(),
    ensures
        forall|k: int| 0 <= k < words_from(s, i).len() ==> is_word(#[trigger] words_from(s, i)[k]),
    decreases s.len() - i,
{
    let start = spaces_end(s, i);
    lemma_word_ends_in_range(s, i);
    if start < s.len() {
        let end = word_end(s, start);
        lemma_word_ends_in_range(s, start + 1);
        lemma_word_has_no_space(s, start);
        lemma_words_are_words(s, end);
        let first = s.subrange(start, end);
        assert forall|k: int| 0 <= k < first.len() implies !is_space(#[trigger] first[k]) by {
            assert(first[k] == s[start + k]);
        }
        assert(is_word(first));
        assert forall|k: int| 0 <= k < words_from(s, i).len() implies is_word(
            #[trigger] words_from(s, i)[k],
        ) by {
            if k > 0 {
                assert(words_from(s, i)[k] == words_from(s, end)[k - 1]);
            }
        }
    }
}

fn space(c: char) -> (yes: bool)
    ensures
        yes == is_space(c),
{
    c == ' ' || c == '\t' || c == '\n' || c == '\r'
}

/// A shell command split into the program and its first arguments.
#[derive(Debug, PartialEq, Eq)]
pub struct ShellCommand {
    pub program: String,
    pub arguments: Vec<String>,
}

impl ShellCommand {
    /// Splits `command` into its words. The first word is the program, the
    /// others are its arguments. A command without a word is refused.
    pub fn new(command: &str) -> (result: Result<ShellCommand, Error>)
        ensures
            match result {
                Ok(shell) => words(command@).len() > 0 && shell.program@ == words(command@)[0]
                    && views(shell.arguments@) == words(command@).skip(1),
                Err(error) => words(command@).len() == 0 && error@ == (ErrorView::BadShellCommand {
                    command: command@,
                }),
            },
    {
        let chars = to_chars(command);
        let mut found: Vec<String> = Vec::new();
        let mut i: usize = 0;
        assert(views(found@) == Seq::<Seq<char>>::empty());
        loop
            invariant
                chars@ == command@,
                0 <= i <= chars.len(),
                words(command@) == views(found@) + words_from(command@, i as int),
            ensures
                words(command@) == views(found@),
            decreases chars.len() - i,
        {
            let mut start = i;
            while start < chars.len() && space(chars[start])
                invariant
                    i <= start <= chars.len(),
                    spaces_end(chars@, i as int) == spaces_end(chars@, start as int),
                decreases chars.len() - start,
            {
                start += 1;
            }
            if start >= chars.len() {
                assert(words_from(command@, i as int) == Seq::<Seq<char>>::empty());
                assert(views(found@) + Seq::<Seq<char>>::empty() == views(found@));
                break ;
            }
            let mut end = start;
            while end < chars.len() && !space(chars[end])
                invariant
                    start <= end <= chars.len(),
                    word_end(chars@, start as int) == word_end(chars@, end as int),
                decreases chars.len() - end,
            {
                end += 1;
            }
            proof {
                lemma_word_ends_in_range(chars@, start + 1);
            }
            let ghost before = views(found@);
            let word = substring(command, start, end);
            found.push(word);
            assert(views(found@) == before.push(word@));
            assert(before + (seq![word@] + words_from(command@, end as int)) == before.push(word@)
                + words_from(command@, end as int));
            i = end;
        }
        if found.len() == 0 {
            return Err(Error::BadShellCommand { command: String::from_str(command) });
        }
        let program = found.remove(0);
        assert(views(found@) == words(command@).skip(1));
        Ok(ShellCommand { program, arguments: found })
    }

    /// The arguments that the program gets for a script whose body is
    /// `code`: those of the command, then `code`.
    pub fn arguments_for(&self, code: &str) -> (arguments: Vec<String>)
        ensures
            views(arguments@) == views(self.arguments@).push(code@),
    {
        let mut arguments: Vec<String> = Vec::new();
        let mut i: usize = 0;
        assert(views(arguments@) == views(self.arguments@).take(0));
        while i < self.arguments.len()
            invariant
                0 <= i <= self.arguments.len(),
                views(arguments@) == views(self.arguments@).take(i as int),
            decreases self.arguments.len() - i,
        {
            let ghost before = views(arguments@);
            let argument = self.arguments[i].clone();
            arguments.push(argument);
            assert(views(arguments@) == before.push(argument@));
            assert(views(self.arguments@).take(i + 1) == views(self.arguments@).take(
                i as int,
            ).push(self.arguments@[i as int]@));
            i += 1;
        }
        assert(views(self.arguments@).take(i as int) == views(self.arguments@));
        let ghost before = views(arguments@);
        let last = String::from_str(code);
        arguments.push(last);
        assert(views(arguments@) == before.push(last@));
        arguments
    }
}

/// What running a script under `command` comes to, given what starting the
/// program came to.
pub open spec fn launch_outcome(command: Seq<char>, launched: Result<OutputView, Seq<char>>) -> Result<
    OutputView,
    ErrorView,
> {
    match launched {
        Ok(output) => Ok(output),
        Err(message) => Err(ErrorView::CommandFailed { command, message }),
    }
}

/// What running a script under `command` comes to, given what starting the
/// program came to: a program that could not be started is an error of
/// the command.
pub fn launched(command: &str, outcome: Result<Output, String>) -> (result: Result<Output, Error>)
    ensures
        result_view(result) == launch_outcome(command@, result_view(outcome)),
{
    match outcome {
        Ok(output) => Ok(output),
        Err(message) => Err(Error::CommandFailed { command: String::from_str(command), message }),
    }
}

/// An executor that hands scripts to a shell command.
pub struct Shell<'a, L> {
    /// The shell command as it was given, such as `bash -c`.
    pub command: String,
    /// The program of the command and its first arguments.
    pub split: ShellCommand,
    /// What starts the shell.
    pub launcher: &'a L,
}

impl<'a, L: Launcher> Shell<'a, L> {
    /// An executor that runs scripts under `command`, started by
    /// `launcher`. The command is split once, here: a command without a
    /// word is refused, and no executor is made.
    pub fn new(command: &str, launcher: &'a L) -> (result: Result<Shell<'a, L>, Error>)
        ensures
            match result {
                Ok(shell) => {
                    &&& words(command@).len() > 0
                    &&& shell.command@ == command@
                    &&& shell.split.program@ == words(command@)[0]
                    &&& views(shell.split.arguments@) == words(command@).skip(1)
                    &&& shell.launcher == launcher
                },
                Err(error) => words(command@).len() == 0 && error@ == (ErrorView::BadShellCommand {
                    command: command@,
                }),
            },
    {
        match ShellCommand::new(command) {
            Ok(split) => Ok(Shell { command: String::from_str(command), split, launcher }),
            Err(error) => Err(error),
        }
    }
}

impl<'a, L: Launcher> Executor for Shell<'a, L> {
    /// Runs `code` under the shell command: starts the program with the
    /// arguments of the command and then `code`. The outcome is that of
    /// starting the program.
    fn run(&self, code: &str) -> (result: Result<Output, Error>)
        ensures
            exists|outcome: Result<OutputView, Seq<char>>|
                result_view(result) == #[trigger] launch_outcome(self.command@, outcome),
    {
        let arguments = self.split.arguments_for(code);
        let outcome = self.launcher.launch(self.split.program.as_str(), &arguments);
        let ghost seen = result_view(outcome);
        let result = launched(self.command.as_str(), outcome);
        assert(result_view(result) == launch_outcome(self.command@, seen));
        result
    }
}

} // verus!
