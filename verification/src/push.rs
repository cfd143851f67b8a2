//! The push direction: each file is read and its contents become the
//! secret's value.
//!
//! A run goes through its mappings in order. For each it names the file to
//! read, takes what was read, hands out the command that updates the secret,
//! and takes the command's end. The first failure ends the run: the error
//! takes the run's place, so nothing can follow it, and what was updated
//! before stays.

use vstd::prelude::*;
use crate::client::{
    update_command, update_invocation, update_result, update_yields, CommandOutcome,
    CommandOutcomeView, Invocation, InvocationView,
};
use crate::error::{RunError, RunErrorView};
use crate::mapping::{mapping_views, MappingView, SecretMapping};
use crate::run::Cursor;

verus! {

/// What follows the read of a mapping's file: the command that sets the
/// mapping's secret to what the file holds, as it is, or the error, which
/// names the mapping's path.
pub open spec fn push_read(
    mapping: MappingView,
    result: Result<Seq<char>, Seq<char>>,
    token: Seq<char>,
) -> Result<InvocationView, RunErrorView> {
    match result {
        Ok(contents) => Ok(update_command(mapping.id, contents, token)),
        Err(reason) => Err(RunErrorView::Read { path: mapping.path, reason }),
    }
}

/// What the outcome of a read stands for.
pub open spec fn read_view(result: Result<String, String>) -> Result<Seq<char>, Seq<char>> {
    match result {
        Ok(contents) => Ok(contents@),
        Err(reason) => Err(reason@),
    }
}

/// What a push run stands for: its mappings in the order in which they are
/// worked on and, for each mapping that is done, what was read from its
/// file, the command that was started with it, and how that command ended.
pub struct PushView {
    pub mappings: Seq<MappingView>,
    pub reads: Seq<Seq<char>>,
    pub updates: Seq<InvocationView>,
    pub answers: Seq<CommandOutcomeView>,
}

impl PushView {
    /// The run that has all of `mappings` before it.
    pub open spec fn start(mappings: Seq<MappingView>) -> PushView {
        PushView { mappings, reads: Seq::empty(), updates: Seq::empty(), answers: Seq::empty() }
    }

    /// How many mappings are done.
    pub open spec fn position(self) -> nat {
        self.updates.len()
    }

    /// Some mapping is not done yet.
    pub open spec fn in_progress(self) -> bool {
        self.position() < self.mappings.len()
    }

    /// Every mapping is done.
    pub open spec fn finished(self) -> bool {
        self.position() == self.mappings.len()
    }

    /// The mapping that is worked on.
    pub open spec fn current(self) -> MappingView
        recommends
            self.in_progress(),
    {
        self.mappings[self.position() as int]
    }

    /// The run with the current mapping done: `contents` was read from its
    /// file, `update` was started with it and ended as `answer`.
    pub open spec fn forward(
        self,
        contents: Seq<char>,
        update: InvocationView,
        answer: CommandOutcomeView,
    ) -> PushView {
        PushView {
            mappings: self.mappings,
            reads: self.reads.push(contents),
            updates: self.updates.push(update),
            answers: self.answers.push(answer),
        }
    }

    /// The command started for the mapping at `place` set that mapping's
    /// secret to what was read from that mapping's file, and it succeeded.
    pub open spec fn faithful_at(self, place: int) -> bool {
        &&& self.updates[place] == update_command(
            self.mappings[place].id,
            self.reads[place],
            self.updates[place].token,
        )
        &&& update_yields(self.answers[place], self.mappings[place].id) is Ok
    }

    /// The mappings that are done are the first ones, in order, and each
    /// has its secret updated faithfully.
    pub open spec fn well_formed(self) -> bool {
        &&& self.reads.len() == self.updates.len()
        &&& self.answers.len() == self.updates.len()
        &&& self.updates.len() <= self.mappings.len()
        &&& forall|place: int| 0 <= place < self.updates.len() ==> #[trigger] self.faithful_at(place)
    }
}

/// What follows the end of the update for the current mapping: the run with
/// that mapping done and the line that confirms it, or the error, which
/// names the mapping's path.
pub open spec fn push_updated(
    run: PushView,
    contents: Seq<char>,
    update: InvocationView,
    outcome: CommandOutcomeView,
) -> Result<(PushView, Seq<char>), RunErrorView> {
    match update_yields(outcome, run.current().id) {
        Ok(_) => Ok((run.forward(contents, update, outcome), "Pushed "@ + run.current().path)),
        Err(cause) => Err(RunErrorView::Push { path: run.current().path, cause }),
    }
}

/// The mappings of a push run, the place of the one that is worked on, and
/// the record of what was done.
struct PushState {
    cursor: Cursor,
    reads: Ghost<Seq<Seq<char>>>,
    updates: Ghost<Seq<InvocationView>>,
    answers: Ghost<Seq<CommandOutcomeView>>,
}

impl View for PushState {
    type V = PushView;

    closed spec fn view(&self) -> PushView {
        PushView {
            mappings: self.cursor@.mappings,
            reads: self.reads@,
            updates: self.updates@,
            answers: self.answers@,
        }
    }
}

impl PushState {
    #[verifier::type_invariant]
    spec fn consistent(&self) -> bool {
        self@.well_formed() && self.cursor@.position == self@.position()
    }
}

/// A push run between two mappings.
pub struct PushRun {
    state: PushState,
}

/// A push run that waits for the current mapping's file to be read.
pub struct PendingRead {
    state: PushState,
}

/// A push run that waits for the end of the command that updates the
/// current mapping's secret.
pub struct PendingUpdate {
    state: PushState,
    contents: Ghost<Seq<char>>,
    update: Ghost<InvocationView>,
}

/// What a push run does next.
pub enum PushStep {
    /// Read the whole file at this path as text and hand the outcome to
    /// [`PendingRead::read`].
    Read(PendingRead, String),
    /// Every mapping is done.
    Finished,
}

impl View for PushRun {
    type V = PushView;

    closed spec fn view(&self) -> PushView {
        self.state@
    }
}

impl View for PendingRead {
    type V = PushView;

    closed spec fn view(&self) -> PushView {
        self.state@
    }
}

impl View for PendingUpdate {
    type V = PushView;

    closed spec fn view(&self) -> PushView {
        self.state@
    }
}

impl PushRun {
    /// A run that has all of `mappings` before it.
    pub fn new(mappings: Vec<SecretMapping>) -> (run: PushRun)
        ensures
            run@ == PushView::start(mapping_views(mappings@)),
            run@.well_formed(),
    {
        PushRun {
            state: PushState {
                cursor: Cursor::new(mappings),
                reads: Ghost(Seq::empty()),
                updates: Ghost(Seq::empty()),
                answers: Ghost(Seq::empty()),
            },
        }
    }

    /// The next step: the read of the current mapping's file, or the end of
    /// the run where no mapping is left.
    pub fn advance(self) -> (step: PushStep)
        ensures
            self@.well_formed(),
            match step {
                PushStep::Read(pending, path) => {
                    &&& self@.in_progress()
                    &&& self@.current().well_formed()
                    &&& pending@ == self@
                    &&& path@ == self@.current().path
                },
                PushStep::Finished => self@.finished(),
            },
    {
        proof {
            use_type_invariant(&self.state);
        }
        if self.state.cursor.at_end() {
            PushStep::Finished
        } else {
            let path = self.state.cursor.current().path().to_owned();
            PushStep::Read(PendingRead { state: self.state }, path)
        }
    }
}

impl PendingRead {
    #[verifier::type_invariant]
    spec fn at_mapping(&self) -> bool {
        self.state@.in_progress()
    }

    /// Takes the outcome of the read: the file's contents, or what the
    /// system said against it. The contents go into the update command as
    /// they are, authorised by `token`; a failed read ends the run.
    pub fn read(self, result: Result<String, String>, token: &str) -> (next: Result<
        (PendingUpdate, Invocation),
        RunError,
    >)
        ensures
            self@.well_formed(),
            self@.in_progress(),
            match next {
                Ok((pending, invocation)) => {
                    &&& push_read(self@.current(), read_view(result), token@) == Ok::<
                        InvocationView,
                        RunErrorView,
                    >(invocation@)
                    &&& pending@ == self@
                    &&& result matches Ok(contents) && pending.contents() == contents@
                    &&& pending.update() == invocation@
                },
                Err(error) => push_read(self@.current(), read_view(result), token@) == Err::<
                    InvocationView,
                    RunErrorView,
                >(error@),
            },
    {
        proof {
            use_type_invariant(&self);
            use_type_invariant(&self.state);
        }
        match result {
            Ok(contents) => {
                let invocation = update_invocation(
                    self.state.cursor.current().id(),
                    contents.as_str(),
                    token,
                );
                let pending = PendingUpdate {
                    state: self.state,
                    contents: Ghost(contents@),
                    update: Ghost(invocation@),
                };
                Ok((pending, invocation))
            },
            Err(reason) => {
                let path = self.state.cursor.current().path().to_owned();
                Err(RunError::Read { path, reason })
            },
        }
    }
}

impl PendingUpdate {
    #[verifier::type_invariant]
    spec fn at_mapping(&self) -> bool {
        &&& self.state@.in_progress()
        &&& self.update@ == update_command(
            self.state@.current().id,
            self.contents@,
            self.update@.token,
        )
    }

    /// What was read from the current mapping's file.
    pub closed spec fn contents(&self) -> Seq<char> {
        self.contents@
    }

    /// The command that was handed out for the current mapping.
    pub closed spec fn update(&self) -> InvocationView {
        self.update@
    }

    /// Takes the end of the update. After an update the run goes on behind
    /// the current mapping and confirms the file; a failed update ends the
    /// run.
    pub fn exited(self, outcome: CommandOutcome) -> (next: Result<(PushRun, String), RunError>)
        ensures
            self@.well_formed(),
            self@.in_progress(),
            self.update() == update_command(self@.current().id, self.contents(), self.update().token),
            match next {
                Ok((run, line)) => {
                    &&& run@.well_formed()
                    &&& push_updated(self@, self.contents(), self.update(), outcome@) == Ok::<
                        (PushView, Seq<char>),
                        RunErrorView,
                    >((run@, line@))
                },
                Err(error) => push_updated(self@, self.contents(), self.update(), outcome@) == Err::<
                    (PushView, Seq<char>),
                    RunErrorView,
                >(error@),
            },
    {
        proof {
            use_type_invariant(&self);
            use_type_invariant(&self.state);
        }
        let ghost answer = outcome@;
        match update_result(outcome, self.state.cursor.current().id()) {
            Ok(_) => {
                let mut line = "Pushed ".to_owned();
                line.append(self.state.cursor.current().path());
                let ghost before = self.state@;
                let ghost after = before.forward(self.contents@, self.update@, answer);
                proof {
                    assert forall|place: int| 0 <= place < after.updates.len() implies #[trigger]
                        after.faithful_at(place) by {
                        if place < before.updates.len() {
                            assert(before.faithful_at(place));
                        }
                    }
                }
                let state = PushState {
                    cursor: self.state.cursor.forward(),
                    reads: Ghost(after.reads),
                    updates: Ghost(after.updates),
                    answers: Ghost(after.answers),
                };
                Ok((PushRun { state }, line))
            },
            Err(cause) => {
                let path = self.state.cursor.current().path().to_owned();
                Err(RunError::Push { path, cause })
            },
        }
    }
}

} // verus!
