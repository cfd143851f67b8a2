//! The pull direction: each secret is fetched and written to its file.
//!
//! A run goes through its mappings in order. For each it hands out the
//! command that fetches the secret, takes the command's end, hands out the
//! file to write, and takes the outcome of the write. The first failure ends
//! the run: the error takes the run's place, so nothing can follow it, and
//! what was written before stays.

use vstd::prelude::*;
use crate::client::{
    fetch_command, fetch_invocation, fetch_result, fetch_yields, CommandOutcome, CommandOutcomeView,
    Invocation,
};
use crate::error::{RunError, RunErrorView};
use crate::mapping::{mapping_views, MappingView, SecretMapping};
use crate::run::Cursor;

verus! {

/// A file to write: `contents` becomes all that the file at `path` holds.
#[derive(Debug, PartialEq, Eq)]
pub struct FileWrite {
    pub path: String,
    pub contents: String,
}

/// What a [`FileWrite`] stands for.
pub struct FileWriteView {
    pub path: Seq<char>,
    pub contents: Seq<char>,
}

impl View for FileWrite {
    type V = FileWriteView;

    open spec fn view(&self) -> FileWriteView {
        FileWriteView { path: self.path@, contents: self.contents@ }
    }
}

/// What follows the end of the fetch for a mapping: the file to write,
/// which is the mapping's and holds the fetched value as it came, or the
/// error, which names the mapping's path.
pub open spec fn sync_fetched(
    mapping: MappingView,
    outcome: CommandOutcomeView,
    next: Result<FileWriteView, RunErrorView>,
) -> bool {
    match next {
        Ok(write) => {
            &&& write.path == mapping.path
            &&& fetch_yields(outcome, Ok(write.contents))
        },
        Err(error) => {
            &&& error matches RunErrorView::Fetch { path, cause }
            &&& path == mapping.path
            &&& fetch_yields(outcome, Err(cause))
        },
    }
}

/// What a sync run stands for: its mappings in the order in which they are
/// worked on and, for each mapping that is done, how its fetch ended and
/// which file was written.
pub struct SyncView {
    pub mappings: Seq<MappingView>,
    pub answers: Seq<CommandOutcomeView>,
    pub writes: Seq<FileWriteView>,
}

impl SyncView {
    /// The run that has all of `mappings` before it.
    pub open spec fn start(mappings: Seq<MappingView>) -> SyncView {
        SyncView { mappings, answers: Seq::empty(), writes: Seq::empty() }
    }

    /// How many mappings are done.
    pub open spec fn position(self) -> nat {
        self.writes.len()
    }

    /// Some mapping is not done yet.
    pub open spec fn in_progress(self) -> bool {
        self.position() < self.mappings.len()
    }

    /// Every mapping is done.
    pub open spec fn finished(self) -> bool {
        self.position() == self.mappings.len()
    }

    /// The mapping that is worked on.
    pub open spec fn current(self) -> MappingView
        recommends
            self.in_progress(),
    {
        self.mappings[self.position() as int]
    }

    /// The run with the current mapping done: its fetch ended as `answer`,
    /// and `write` was written.
    pub open spec fn forward(self, answer: CommandOutcomeView, write: FileWriteView) -> SyncView {
        SyncView {
            mappings: self.mappings,
            answers: self.answers.push(answer),
            writes: self.writes.push(write),
        }
    }

    /// The file written for the mapping at `place` is that mapping's, and
    /// holds what the fetch for that mapping yielded.
    pub open spec fn faithful_at(self, place: int) -> bool {
        sync_fetched(self.mappings[place], self.answers[place], Ok(self.writes[place]))
    }

    /// The mappings that are done are the first ones, in order, and each
    /// has its file written faithfully.
    pub open spec fn well_formed(self) -> bool {
        &&& self.answers.len() == self.writes.len()
        &&& self.writes.len() <= self.mappings.len()
        &&& forall|place: int| 0 <= place < self.writes.len() ==> #[trigger] self.faithful_at(place)
    }
}

/// What follows the write of the current mapping's file: the run with that
/// mapping done and the line that confirms it, or the error.
pub open spec fn sync_written(
    run: SyncView,
    answer: CommandOutcomeView,
    write: FileWriteView,
    result: Result<(), Seq<char>>,
) -> Result<(SyncView, Seq<char>), RunErrorView> {
    match result {
        Ok(_) => Ok((run.forward(answer, write), "Wrote "@ + run.current().path)),
        Err(reason) => Err(RunErrorView::Write { path: run.current().path, reason }),
    }
}

/// What the outcome of a write stands for.
pub open spec fn written_view(result: Result<(), String>) -> Result<(), Seq<char>> {
    match result {
        Ok(_) => Ok(()),
        Err(reason) => Err(reason@),
    }
}

/// The mappings of a sync run, the place of the one that is worked on, and
/// the record of what was done.
struct SyncState {
    cursor: Cursor,
    answers: Ghost<Seq<CommandOutcomeView>>,
    writes: Ghost<Seq<FileWriteView>>,
}

impl View for SyncState {
    type V = SyncView;

    closed spec fn view(&self) -> SyncView {
        SyncView { mappings: self.cursor@.mappings, answers: self.answers@, writes: self.writes@ }
    }
}

impl SyncState {
    #[verifier::type_invariant]
    spec fn consistent(&self) -> bool {
        self@.well_formed() && self.cursor@.position == self@.position()
    }
}

/// A sync run between two mappings.
pub struct SyncRun {
    state: SyncState,
}

/// A sync run that waits for the end of the command that fetches the
/// current mapping's secret.
pub struct PendingFetch {
    state: SyncState,
}

/// A sync run that waits for the current mapping's file to be written.
pub struct PendingWrite {
    state: SyncState,
    answer: Ghost<CommandOutcomeView>,
    write: Ghost<FileWriteView>,
}

/// What a sync run does next.
pub enum SyncStep {
    /// Start this command and hand its end to [`PendingFetch::exited`].
    Fetch(PendingFetch, Invocation),
    /// Every mapping is done.
    Finished,
}

impl View for SyncRun {
    type V = SyncView;

    closed spec fn view(&self) -> SyncView {
        self.state@
    }
}

impl View for PendingFetch {
    type V = SyncView;

    closed spec fn view(&self) -> SyncView {
        self.state@
    }
}

impl View for PendingWrite {
    type V = SyncView;

    closed spec fn view(&self) -> SyncView {
        self.state@
    }
}

impl SyncRun {
    /// A run that has all of `mappings` before it.
    pub fn new(mappings: Vec<SecretMapping>) -> (run: SyncRun)
        ensures
            run@ == SyncView::start(mapping_views(mappings@)),
            run@.well_formed(),
    {
        SyncRun {
            state: SyncState {
                cursor: Cursor::new(mappings),
                answers: Ghost(Seq::empty()),
                writes: Ghost(Seq::empty()),
            },
        }
    }

    /// The next step: the fetch for the current mapping, authorised by
    /// `token`, or the end of the run where no mapping is left.
    pub fn advance(self, token: &str) -> (step: SyncStep)
        ensures
            self@.well_formed(),
            match step {
                SyncStep::Fetch(pending, invocation) => {
                    &&& self@.in_progress()
                    &&& self@.current().well_formed()
                    &&& pending@ == self@
                    &&& invocation@ == fetch_command(self@.current().id, token@)
                },
                SyncStep::Finished => self@.finished(),
            },
    {
        proof {
            use_type_invariant(&self.state);
        }
        if self.state.cursor.at_end() {
            SyncStep::Finished
        } else {
            let invocation = fetch_invocation(self.state.cursor.current().id(), token);
            SyncStep::Fetch(PendingFetch { state: self.state }, invocation)
        }
    }
}

impl PendingFetch {
    #[verifier::type_invariant]
    spec fn at_mapping(&self) -> bool {
        self.state@.in_progress()
    }

    /// Takes the end of the fetch. A fetched value is to be written to the
    /// current mapping's file as it is; a failed fetch ends the run.
    pub fn exited(self, outcome: CommandOutcome) -> (next: Result<(PendingWrite, FileWrite), RunError>)
        ensures
            self@.well_formed(),
            self@.in_progress(),
            match next {
                Ok((pending, write)) => {
                    &&& sync_fetched(self@.current(), outcome@, Ok(write@))
                    &&& pending@ == self@
                    &&& pending.answer() == outcome@
                    &&& pending.write() == write@
                },
                Err(error) => sync_fetched(self@.current(), outcome@, Err(error@)),
            },
    {
        proof {
            use_type_invariant(&self);
            use_type_invariant(&self.state);
        }
        let ghost answer = outcome@;
        let path = self.state.cursor.current().path().to_owned();
        match fetch_result(outcome) {
            Ok(contents) => {
                let write = FileWrite { path, contents };
                Ok((PendingWrite { state: self.state, answer: Ghost(answer), write: Ghost(write@) }, write))
            },
            Err(cause) => Err(RunError::Fetch { path, cause }),
        }
    }
}

impl PendingWrite {
    #[verifier::type_invariant]
    spec fn at_mapping(&self) -> bool {
        &&& self.state@.in_progress()
        &&& sync_fetched(self.state@.current(), self.answer@, Ok(self.write@))
    }

    /// How the fetch for the current mapping ended.
    pub closed spec fn answer(&self) -> CommandOutcomeView {
        self.answer@
    }

    /// The file that is being written.
    pub closed spec fn write(&self) -> FileWriteView {
        self.write@
    }

    /// Takes the outcome of the write: `Ok`, or what the system said
    /// against it. After a write the run goes on behind the current mapping
    /// and confirms the file; a failed write ends the run.
    pub fn written(self, result: Result<(), String>) -> (next: Result<(SyncRun, String), RunError>)
        ensures
            self@.well_formed(),
            self@.in_progress(),
            sync_fetched(self@.current(), self.answer(), Ok(self.write())),
            match next {
                Ok((run, line)) => {
                    &&& run@.well_formed()
                    &&& sync_written(self@, self.answer(), self.write(), written_view(result)) == Ok::<
                        (SyncView, Seq<char>),
                        RunErrorView,
                    >((run@, line@))
                },
                Err(error) => sync_written(self@, self.answer(), self.write(), written_view(result))
                    == Err::<(SyncView, Seq<char>), RunErrorView>(error@),
            },
    {
        proof {
            use_type_invariant(&self);
            use_type_invariant(&self.state);
        }
        match result {
            Ok(_) => {
                let mut line = "Wrote ".to_owned();
                line.append(self.state.cursor.current().path());
                let ghost before = self.state@;
                let ghost after = before.forward(self.answer@, self.write@);
                proof {
                    assert forall|place: int| 0 <= place < after.writes.len() implies #[trigger]
                        after.faithful_at(place) by {
                        if place < before.writes.len() {
                            assert(before.faithful_at(place));
                        }
                    }
                }
                let state = SyncState {
                    cursor: self.state.cursor.forward(),
                    answers: Ghost(after.answers),
                    writes: Ghost(after.writes),
                };
                Ok((SyncRun { state }, line))
            },
            Err(reason) => {
                let path = self.state.cursor.current().path().to_owned();
                Err(RunError::Write { path, reason })
            },
        }
    }
}

} // verus!
