//! What holds of whole runs, and of a sync and a push taken together.

use vstd::prelude::*;
use crate::client::{
    fetch_yields, update_command, update_yields, CommandOutcomeView, InvocationView,
};
use crate::error::RunErrorView;
use crate::push::{push_updated, PushView};
use crate::sync::{sync_fetched, SyncView};

verus! {

/// A sync that is run again writes the same again. Two runs over the same
/// mappings to which the command gave the same answers have written the
/// same files with the same contents, in the same order.
pub proof fn lemma_sync_repeats(first: SyncView, second: SyncView)
    requires
        first.well_formed(),
        second.well_formed(),
        first.mappings == second.mappings,
        first.answers == second.answers,
    ensures
        first.writes == second.writes,
{
    assert forall|place: int| 0 <= place < first.writes.len() implies first.writes[place]
        == second.writes[place] by {
        assert(first.faithful_at(place));
        assert(second.faithful_at(place));
    }
    assert(first.writes =~= second.writes);
}

/// A sync stops at the first mapping that fails and leaves the earlier ones
/// done. Where the fetch for the current mapping fails, the error names that
/// mapping's path; the files written are those of the mappings before it,
/// in order, each with the value that was fetched for it; and no file is
/// written for the current mapping or a later one.
pub proof fn lemma_sync_stops_at_first_failure(
    run: SyncView,
    outcome: CommandOutcomeView,
    error: RunErrorView,
)
    requires
        run.well_formed(),
        run.in_progress(),
        sync_fetched(run.current(), outcome, Err(error)),
    ensures
        error.path() == run.mappings[run.position() as int].path,
        run.writes.len() == run.position(),
        forall|place: int|
            0 <= place < run.position() ==> {
                &&& (#[trigger] run.writes[place]).path == run.mappings[place].path
                &&& fetch_yields(run.answers[place], Ok(run.writes[place].contents))
            },
{
    assert forall|place: int| 0 <= place < run.position() implies {
        &&& (#[trigger] run.writes[place]).path == run.mappings[place].path
        &&& fetch_yields(run.answers[place], Ok(run.writes[place].contents))
    } by {
        assert(run.faithful_at(place));
    }
}

/// A push stops at the first mapping that fails and leaves the earlier ones
/// updated. Where the update for the current mapping fails, the error names
/// that mapping's path; the secrets set are those of the mappings before
/// it, in order, each to what was read from its file; and no command was
/// started for a later mapping.
pub proof fn lemma_push_stops_at_first_failure(
    run: PushView,
    contents: Seq<char>,
    update: InvocationView,
    outcome: CommandOutcomeView,
    error: RunErrorView,
)
    requires
        run.well_formed(),
        run.in_progress(),
        push_updated(run, contents, update, outcome) == Err::<(PushView, Seq<char>), RunErrorView>(
            error,
        ),
    ensures
        error.path() == run.mappings[run.position() as int].path,
        run.updates.len() == run.position(),
        forall|place: int|
            0 <= place < run.position() ==> {
                &&& #[trigger] run.updates[place] == update_command(
                    run.mappings[place].id,
                    run.reads[place],
                    run.updates[place].token,
                )
                &&& update_yields(run.answers[place], run.mappings[place].id) is Ok
            },
{
    assert forall|place: int| 0 <= place < run.position() implies {
        &&& #[trigger] run.updates[place] == update_command(
            run.mappings[place].id,
            run.reads[place],
            run.updates[place].token,
        )
        &&& update_yields(run.answers[place], run.mappings[place].id) is Ok
    } by {
        assert(run.faithful_at(place));
    }
}

/// A push that follows a sync hands back what the sync fetched. Where a
/// push has read from the file of each mapping what a sync over the same
/// mappings wrote there, the command that it started for the mapping sets
/// the mapping's secret to the value that the sync fetched for it, letter
/// for letter.
pub proof fn lemma_push_after_sync_hands_back(synced: SyncView, pushed: PushView, place: int)
    requires
        synced.well_formed(),
        pushed.well_formed(),
        synced.mappings == pushed.mappings,
        0 <= place < pushed.position(),
        place < synced.position(),
        pushed.reads[place] == synced.writes[place].contents,
    ensures
        fetch_yields(synced.answers[place], Ok(pushed.reads[place])),
        pushed.updates[place] == update_command(
            pushed.mappings[place].id,
            pushed.reads[place],
            pushed.updates[place].token,
        ),
        pushed.updates[place].arguments == seq![
            "secret"@,
            "edit"@,
            "--value"@,
            synced.writes[place].contents,
            synced.mappings[place].id,
        ],
{
    assert(synced.faithful_at(place));
    assert(pushed.faithful_at(place));
}

} // verus!
