//! The per-file state machine of the batch orchestrator. The runner performs
//! one action at a time — examine, prepare, authenticate, recognize, search,
//! prompt, commit, mark — and reports how it ended; the machine decides what
//! follows. Stage order is fixed and never reordered or skipped, any failure
//! ends the run for its file, and a file already bearing the processed
//! marker is skipped before preparation.

use vstd::prelude::*;
use crate::errors::PipelineError;

verus! {

/// Where one file stands in its run.
#[derive(Clone, Copy, Debug, PartialEq, Eq, Structural)]
pub enum Stage {
    /// Discovered, not yet examined.
    Pending,
    /// Decoding, resizing and re-encoding the image.
    Preparing,
    /// Checking the credential environment and obtaining the bearer token.
    CheckingAuth,
    /// Asking the recognition service for a best-guess label.
    Recognizing,
    /// Querying the catalog and resolving the grouping to versions.
    Searching,
    /// Awaiting the operator's choice among the candidates.
    Disambiguating,
    /// Committing the chosen release to the remote collection.
    Writing,
    /// Applying the processed marker to the file.
    Marking,
    /// All stages completed; the file bears the marker.
    Processed,
    /// The file already bore the marker; nothing was done to it.
    Skipped,
    /// A stage failed; the run for this file is over.
    Failed(PipelineError),
}

/// How one stage's work ended.
#[derive(Clone, Copy, Debug, PartialEq, Eq, Structural)]
pub enum Outcome {
    Success,
    Failure(PipelineError),
}

/// What the runner reports back to the orchestrator.
#[derive(Clone, Copy, Debug, PartialEq, Eq, Structural)]
pub enum Event {
    /// The file was examined: whether it already bears the processed marker.
    Found { marked: bool },
    /// The current stage's work finished.
    Finished(Outcome),
}

/// What the orchestrator asks the runner to do in a stage.
#[derive(Clone, Copy, Debug, PartialEq, Eq, Structural)]
pub enum Action {
    /// Examine the file name for the processed marker.
    Examine,
    /// Decode, resize and re-encode the image.
    Prepare,
    /// Check the credential environment and obtain a bearer token.
    ObtainToken,
    /// Send the recognition request over the network.
    Recognize,
    /// Query the catalog and its versions over the network.
    Search,
    /// Present the candidates and await the operator's choice.
    Prompt,
    /// Commit the selection to the remote collection over the network.
    Commit,
    /// Rename the file to bear the processed marker.
    Mark,
    /// Nothing: this file's run is over.
    Stop,
}

/// The transition relation: the stage a file moves to when an event arrives.
/// Terminal stages absorb every event; a finished stage moves to its fixed
/// successor on success and to `Failed` on failure; an examined pending file
/// is skipped when it bears the marker and prepared when it does not.
pub open spec fn next_stage(s: Stage, e: Event) -> Stage {
    match s {
        Stage::Processed => Stage::Processed,
        Stage::Skipped => Stage::Skipped,
        Stage::Failed(err) => Stage::Failed(err),
        Stage::Pending => match e {
            Event::Found { marked } => if marked {
                Stage::Skipped
            } else {
                Stage::Preparing
            },
            Event::Finished(_) => Stage::Pending,
        },
        _ => match e {
            Event::Found { .. } => s,
            Event::Finished(Outcome::Failure(err)) => Stage::Failed(err),
            Event::Finished(Outcome::Success) => match s {
                Stage::Preparing => Stage::CheckingAuth,
                Stage::CheckingAuth => Stage::Recognizing,
                Stage::Recognizing => Stage::Searching,
                Stage::Searching => Stage::Disambiguating,
                Stage::Disambiguating => Stage::Writing,
                Stage::Writing => Stage::Marking,
                _ => Stage::Processed,
            },
        },
    }
}

/// Advances the machine by one event.
pub fn step(s: Stage, e: Event) -> (r: Stage)
    ensures
        r == next_stage(s, e),
{
    match s {
        Stage::Processed => Stage::Processed,
        Stage::Skipped => Stage::Skipped,
        Stage::Failed(err) => Stage::Failed(err),
        Stage::Pending => match e {
            Event::Found { marked } => if marked {
                Stage::Skipped
            } else {
                Stage::Preparing
            },
            Event::Finished(_) => Stage::Pending,
        },
        _ => match e {
            Event::Found { .. } => s,
            Event::Finished(Outcome::Failure(err)) => Stage::Failed(err),
            Event::Finished(Outcome::Success) => match s {
                Stage::Preparing => Stage::CheckingAuth,
                Stage::CheckingAuth => Stage::Recognizing,
                Stage::Recognizing => Stage::Searching,
                Stage::Searching => Stage::Disambiguating,
                Stage::Disambiguating => Stage::Writing,
                Stage::Writing => Stage::Marking,
                _ => Stage::Processed,
            },
        },
    }
}

/// The action a stage asks of the runner.
pub open spec fn action_of(s: Stage) -> Action {
    match s {
        Stage::Pending => Action::Examine,
        Stage::Preparing => Action::Prepare,
        Stage::CheckingAuth => Action::ObtainToken,
        Stage::Recognizing => Action::Recognize,
        Stage::Searching => Action::Search,
        Stage::Disambiguating => Action::Prompt,
        Stage::Writing => Action::Commit,
        Stage::Marking => Action::Mark,
        Stage::Processed => Action::Stop,
        Stage::Skipped => Action::Stop,
        Stage::Failed(_) => Action::Stop,
    }
}

/// Reports the action the runner must perform next.
pub fn next_action(s: Stage) -> (r: Action)
    ensures
        r == action_of(s),
{
    match s {
        Stage::Pending => Action::Examine,
        Stage::Preparing => Action::Prepare,
        Stage::CheckingAuth => Action::ObtainToken,
        Stage::Recognizing => Action::Recognize,
        Stage::Searching => Action::Search,
        Stage::Disambiguating => Action::Prompt,
        Stage::Writing => Action::Commit,
        Stage::Marking => Action::Mark,
        Stage::Processed => Action::Stop,
        Stage::Skipped => Action::Stop,
        Stage::Failed(_) => Action::Stop,
    }
}

/// An action that touches an external service.
pub open spec fn is_network_action(a: Action) -> bool {
    a == Action::Recognize || a == Action::Search || a == Action::Commit
}

/// A run is over in a terminal stage.
pub open spec fn is_terminal(s: Stage) -> bool {
    s == Stage::Processed || s == Stage::Skipped || s is Failed
}

/// Every stage a run passes through: the starting stage and each successor
/// under the events, in order.
pub open spec fn trace(s: Stage, events: Seq<Event>) -> Seq<Stage>
    decreases events.len(),
{
    if events.len() == 0 {
        seq![s]
    } else {
        seq![s] + trace(next_stage(s, events[0]), events.drop_first())
    }
}

/// A trace visits one stage more than it has events.
pub proof fn lemma_trace_len(s: Stage, events: Seq<Event>)
    ensures
        trace(s, events).len() == events.len() + 1,
        trace(s, events)[0] == s,
    decreases events.len(),
{
    if events.len() > 0 {
        lemma_trace_len(next_stage(s, events[0]), events.drop_first());
    }
}

/// Each trace entry after the first is the transition from its predecessor
/// under the event delivered there.
pub proof fn lemma_trace_step(s: Stage, events: Seq<Event>, i: int)
    requires
        0 <= i < events.len(),
    ensures
        trace(s, events).len() == events.len() + 1,
        trace(s, events)[i + 1] == next_stage(trace(s, events)[i], events[i]),
    decreases i,
{
    lemma_trace_len(s, events);
    let s2 = next_stage(s, events[0]);
    let rest = events.drop_first();
    lemma_trace_len(s2, rest);
    if i == 0 {
        assert(trace(s, events)[1] == trace(s2, rest)[0]);
    } else {
        lemma_trace_step(s2, rest, i - 1);
        assert(trace(s, events)[i + 1] == trace(s2, rest)[i]);
        assert(trace(s, events)[i] == trace(s2, rest)[i - 1]);
        assert(rest[i - 1] == events[i]);
    }
}

/// A terminal stage absorbs every later event: the rest of the trace is that
/// stage, over and over.
pub proof fn lemma_terminal_absorbs(s: Stage, events: Seq<Event>)
    requires
        is_terminal(s),
    ensures
        forall|i: int| 0 <= i < trace(s, events).len() ==> trace(s, events)[i] == s,
    decreases events.len(),
{
    lemma_trace_len(s, events);
    if events.len() > 0 {
        let s2 = next_stage(s, events[0]);
        assert(s2 == s);
        let rest = events.drop_first();
        lemma_terminal_absorbs(s, rest);
        assert forall|i: int| 0 < i < trace(s, events).len() implies trace(s, events)[i] == s by {
            assert(trace(s, events)[i] == trace(s, rest)[i - 1]);
        }
    }
}

/// A file already bearing the processed marker is skipped outright: a run
/// that starts by finding it marked never visits the preparation stage, so
/// the image preparation action is never issued for it.
pub proof fn lemma_marked_file_never_prepared(events: Seq<Event>)
    requires
        events.len() > 0,
        events[0] == (Event::Found { marked: true }),
    ensures
        forall|i: int|
            0 <= i < trace(Stage::Pending, events).len() ==> #[trigger] trace(
                Stage::Pending,
                events,
            )[i] != Stage::Preparing,
        forall|i: int|
            0 <= i < trace(Stage::Pending, events).len() ==> action_of(
                #[trigger] trace(Stage::Pending, events)[i],
            ) != Action::Prepare,
{
    lemma_trace_len(Stage::Pending, events);
    let s2 = next_stage(Stage::Pending, events[0]);
    assert(s2 == Stage::Skipped);
    let rest = events.drop_first();
    lemma_terminal_absorbs(Stage::Skipped, rest);
    assert forall|i: int|
        0 < i < trace(Stage::Pending, events).len() implies #[trigger] trace(
        Stage::Pending,
        events,
    )[i] == Stage::Skipped by {
        assert(trace(Stage::Pending, events)[i] == trace(Stage::Skipped, rest)[i - 1]);
    }
}

/// The marking stage is entered from a successful collection write alone:
/// a file is marked processed only after all earlier stages completed.
pub proof fn lemma_marking_only_after_write(s: Stage, e: Event)
    requires
        s != Stage::Marking,
    ensures
        next_stage(s, e) == Stage::Marking ==> s == Stage::Writing && e == Event::Finished(
            Outcome::Success,
        ),
{
}

/// A failed run stays failed: from the failure on, the trace is the failed
/// stage for good, and the marking action is never issued again, so the file
/// is not marked processed.
pub proof fn lemma_failure_is_final(s: Stage, events: Seq<Event>, i: int, err: PipelineError)
    requires
        0 <= i < trace(s, events).len(),
        trace(s, events)[i] == Stage::Failed(err),
    ensures
        forall|j: int|
            i <= j < trace(s, events).len() ==> #[trigger] trace(s, events)[j] == Stage::Failed(
                err,
            ),
    decreases events.len(),
{
    lemma_trace_len(s, events);
    if i == 0 {
        lemma_terminal_absorbs(Stage::Failed(err), events);
        assert(s == Stage::Failed(err));
    } else {
        let s2 = next_stage(s, events[0]);
        let rest = events.drop_first();
        lemma_trace_len(s2, rest);
        assert(trace(s, events)[i] == trace(s2, rest)[i - 1]);
        lemma_failure_is_final(s2, rest, i - 1, err);
        assert forall|j: int|
            i <= j < trace(s, events).len() implies #[trigger] trace(s, events)[j] == Stage::Failed(
            err,
        ) by {
            assert(trace(s, events)[j] == trace(s2, rest)[j - 1]);
        }
    }
}

/// A run completes only through a successful marking: the processed stage is
/// entered from the marking stage alone, so a completed file always bears
/// the marker.
pub proof fn lemma_processed_only_via_marking(s: Stage, e: Event)
    requires
        s != Stage::Processed,
    ensures
        next_stage(s, e) == Stage::Processed ==> s == Stage::Marking && e == Event::Finished(
            Outcome::Success,
        ),
{
}

/// A search that yielded nothing to disambiguate fails the run with the
/// distinct empty-candidates error, and from there on the file is never
/// marked processed.
pub proof fn lemma_empty_candidates_never_marked(events: Seq<Event>, i: int)
    requires
        0 <= i < events.len(),
        trace(Stage::Pending, events)[i] == Stage::Disambiguating,
        events[i] == Event::Finished(Outcome::Failure(PipelineError::EmptyCandidatesError)),
    ensures
        trace(Stage::Pending, events)[i + 1] == Stage::Failed(PipelineError::EmptyCandidatesError),
        forall|j: int|
            i < j < trace(Stage::Pending, events).len() ==> #[trigger] trace(
                Stage::Pending,
                events,
            )[j] == Stage::Failed(PipelineError::EmptyCandidatesError),
        forall|j: int|
            i < j < trace(Stage::Pending, events).len() ==> action_of(
                #[trigger] trace(Stage::Pending, events)[j],
            ) != Action::Mark,
{
    lemma_trace_len(Stage::Pending, events);
    lemma_trace_step(Stage::Pending, events, i);
    lemma_failure_is_final(
        Stage::Pending,
        events,
        i + 1,
        PipelineError::EmptyCandidatesError,
    );
}

/// The stages a run can stand in while no credential check has succeeded:
/// everything before the network, or a terminal end.
pub open spec fn pre_auth(s: Stage) -> bool {
    s == Stage::Pending || s == Stage::Preparing || s == Stage::CheckingAuth || s == Stage::Skipped
        || s is Failed
}

proof fn lemma_pre_auth_stays(s: Stage, events: Seq<Event>, j: int)
    requires
        pre_auth(s),
        0 <= j < trace(s, events).len(),
        forall|i: int|
            0 <= i < j ==> !(#[trigger] trace(s, events)[i] == Stage::CheckingAuth && events[i]
                == Event::Finished(Outcome::Success)),
    ensures
        pre_auth(trace(s, events)[j]),
    decreases j,
{
    lemma_trace_len(s, events);
    if j > 0 {
        let s2 = next_stage(s, events[0]);
        let rest = events.drop_first();
        lemma_trace_len(s2, rest);
        assert(trace(s, events)[0] == s);
        assert(!(s == Stage::CheckingAuth && events[0] == Event::Finished(Outcome::Success)));
        assert(pre_auth(s2));
        assert forall|i: int|
            0 <= i < j - 1 implies !(#[trigger] trace(s2, rest)[i] == Stage::CheckingAuth
            && rest[i] == Event::Finished(Outcome::Success)) by {
            assert(trace(s, events)[i + 1] == trace(s2, rest)[i]);
            assert(events[i + 1] == rest[i]);
        }
        lemma_pre_auth_stays(s2, rest, j - 1);
        assert(trace(s, events)[j] == trace(s2, rest)[j - 1]);
    }
}

/// Fail fast on missing credentials: while every event delivered at the
/// credential check reports the credential failure, the run never reaches a
/// stage whose action touches the network, and the file is never marked
/// processed. The failure happens before any network call.
pub proof fn lemma_missing_credentials_no_network(events: Seq<Event>)
    requires
        forall|i: int|
            0 <= i < events.len() ==> (#[trigger] trace(Stage::Pending, events)[i]
                == Stage::CheckingAuth ==> events[i] == Event::Finished(
                Outcome::Failure(PipelineError::AuthError),
            )),
    ensures
        forall|j: int|
            0 <= j < trace(Stage::Pending, events).len() ==> !is_network_action(
                action_of(#[trigger] trace(Stage::Pending, events)[j]),
            ),
        forall|j: int|
            0 <= j < trace(Stage::Pending, events).len() ==> #[trigger] trace(
                Stage::Pending,
                events,
            )[j] != Stage::Processed && trace(Stage::Pending, events)[j] != Stage::Marking,
{
    lemma_trace_len(Stage::Pending, events);
    assert forall|j: int| 0 <= j < trace(Stage::Pending, events).len() implies pre_auth(
        #[trigger] trace(Stage::Pending, events)[j],
    ) by {
        lemma_pre_auth_stays(Stage::Pending, events, j);
    }
}

} // verus!
