//! What a run remembers from one action to the next: the results of the
//! scripts that ran, by name, and whether all went well so far.

use crate::assoc::{assoc_map, lemma_assoc_absent, lemma_assoc_last, lemma_assoc_push};
use crate::results::test_result::{
    Detail, DetailView, ScriptResult, ScriptResultView, TestResult, TestResultView,
};
use crate::text::str_eq;
use crate::types::{Source, SourceView, Stream};
use vstd::prelude::*;
use vstd::string::*;

verus! {

/// What a `State` stands for in specifications.
pub struct StateView {
    /// The result of the last script that ran under each name.
    pub scripts: Map<Seq<char>, ScriptResultView>,
    /// Whether every test so far passed and no error occurred.
    pub success: bool,
}

/// What a stream of a script's result holds. The combined output is
/// standard output followed by standard error.
pub open spec fn stream_text(result: ScriptResultView, stream: Stream) -> Seq<char> {
    match stream {
        Stream::StdOut => result.stdout,
        Stream::StdErr => result.stderr,
        Stream::Output => result.stdout + result.stderr,
    }
}

impl StateView {
    /// The state at the start of a run.
    pub open spec fn empty() -> StateView {
        StateView { scripts: Map::empty(), success: true }
    }

    /// The state after a test: a script's result takes the place of any
    /// earlier one of the same name, and a test that did not pass ends the
    /// success.
    pub open spec fn record(self, result: TestResultView) -> StateView {
        StateView {
            scripts: match result.detail {
                DetailView::Script { result: script, .. } => self.scripts.insert(
                    script.name,
                    script,
                ),
                DetailView::Verify { .. } => self.scripts,
            },
            success: self.success && result.passed,
        }
    }

    /// The state after an error.
    pub open spec fn failed(self) -> StateView {
        StateView { scripts: self.scripts, success: false }
    }

    /// What the stream `source` holds, if its script has run.
    pub open spec fn output(self, source: SourceView) -> Option<Seq<char>> {
        if self.scripts.contains_key(source.name) {
            Some(stream_text(self.scripts[source.name], source.stream))
        } else {
            None
        }
    }
}

/// The state of one run of one document.
#[derive(Debug)]
pub struct State {
    results: Vec<ScriptResult>,
    success: bool,
}

/// The name and view of each result, in order.
pub open spec fn result_entries(results: Seq<ScriptResult>) -> Seq<(Seq<char>, ScriptResultView)> {
    results.map_values(|result: ScriptResult| (result.name@, result@))
}

impl View for State {
    type V = StateView;

    closed spec fn view(&self) -> StateView {
        StateView { scripts: assoc_map(result_entries(self.results@)), success: self.success }
    }
}

impl State {
    /// The state at the start of a run: no script has run, and nothing has
    /// failed.
    pub fn new() -> (state: State)
        ensures
            state@ == StateView::empty(),
    {
        let state = State { results: Vec::new(), success: true };
        assert(result_entries(state.results@) == Seq::<(Seq<char>, ScriptResultView)>::empty());
        state
    }

    /// Takes note of a test.
    pub fn add_result(&mut self, result: &TestResult)
        ensures
            final(self)@ == old(self)@.record(result@),
    {
        if let Detail::Script { result: script, .. } = &result.detail {
            proof {
                lemma_assoc_push(result_entries(self.results@), script.name@, script@);
                assert(result_entries(self.results@.push(*script)) == result_entries(
                    self.results@,
                ).push((script.name@, script@)));
            }
            let copy = script.clone();
            self.results.push(copy);
        }
        if !result.passed {
            self.success = false;
        }
    }

    /// Takes note of an error.
    pub fn fail(&mut self)
        ensures
            final(self)@ == old(self)@.failed(),
    {
        self.success = false;
    }

    /// What the stream `source` holds, if its script has run.
    pub fn get_script_output(&self, source: &Source) -> (text: Option<String>)
        ensures
            match text {
                Some(text) => self@.output(source@) == Some(text@),
                None => self@.output(source@) is None,
            },
    {
        let ghost entries = result_entries(self.results@);
        let mut i: usize = self.results.len();
        while i > 0
            invariant
                0 <= i <= self.results.len(),
                entries == result_entries(self.results@),
                forall|j: int| i <= j < entries.len() ==> (#[trigger] entries[j]).0 != source.name@,
            decreases i,
        {
            i -= 1;
            let result = &self.results[i];
            assert(entries[i as int] == (result.name@, result@));
            if str_eq(result.name.0.as_str(), source.name.0.as_str()) {
                proof {
                    lemma_assoc_last(entries, source.name@, i as int);
                }
                let text = match source.stream {
                    Stream::StdOut => result.stdout.clone(),
                    Stream::StdErr => result.stderr.clone(),
                    Stream::Output => result.stdout.clone().concat(result.stderr.as_str()),
                };
                return Some(text);
            }
        }
        proof {
            lemma_assoc_absent(entries, source.name@);
        }
        None
    }

    /// Whether every test so far passed and no error occurred.
    pub fn is_success(&self) -> (success: bool)
        ensures
            success == self@.success,
    {
        self.success
    }
}

} // verus!
