//! The slot that holds the running worker's handle, and the decisions taken
//! when the worker is started and when it is stopped.
//!
//! The slot is shared between the start-up routine and the window-teardown
//! callback behind a lock; every operation here takes the supervisor by `&mut`,
//! so each one is a single critical section and no caller can see a slot that
//! is half updated.
use vstd::prelude::*;
use crate::diagnostic::{lines_of, tagged, Diagnostic, Stream};

verus! {

/// Why the worker could not be launched.
#[derive(Debug)]
pub enum LaunchError {
    /// The worker's executable could not be found or is not packaged.
    Resolution(String),
    /// The operating system refused to create the process.
    Spawn(String),
}

/// The supervisor state: at most one handle `H` of a running worker.
pub struct Supervisor<H> {
    slot: Option<H>,
}

impl<H> View for Supervisor<H> {
    type V = Option<H>;

    closed spec fn view(&self) -> Option<H> {
        self.slot
    }
}

/// One operation on the supervisor: a start with the outcome of the launch,
/// or a stop.
pub enum Call<H> {
    Start(Result<H, LaunchError>),
    Stop,
}

/// The slot after a start: the new handle when the launch succeeded, the
/// slot unchanged when it failed.
pub open spec fn after_start<H>(slot: Option<H>, launch: Result<H, LaunchError>) -> Option<H> {
    match launch {
        Ok(h) => Some(h),
        Err(_) => slot,
    }
}

/// The slot after one operation; a stop always leaves it empty.
pub open spec fn step<H>(slot: Option<H>, call: Call<H>) -> Option<H> {
    match call {
        Call::Start(launch) => after_start(slot, launch),
        Call::Stop => None,
    }
}

/// The slot after the operations `calls`, applied in order from `slot`.
pub open spec fn run<H>(slot: Option<H>, calls: Seq<Call<H>>) -> Option<H>
    decreases calls.len(),
{
    if calls.len() == 0 {
        slot
    } else {
        step(run(slot, calls.drop_last()), calls.last())
    }
}

pub open spec fn resolution_failed_text() -> Seq<char> {
    "[Astrolabe] Failed to find sidecar: "@
}

pub open spec fn spawn_failed_text() -> Seq<char> {
    "[Astrolabe] Failed to spawn sidecar: "@
}

pub open spec fn started_text() -> Seq<char> {
    "[Astrolabe] Backend sidecar started"@
}

pub open spec fn stopped_text() -> Seq<char> {
    "[Astrolabe] Backend sidecar stopped"@
}

pub open spec fn kill_failed_text() -> Seq<char> {
    "[Astrolabe] Failed to stop sidecar: "@
}

/// The lines written by a start with this launch outcome: one error line
/// with the reason when it failed, one confirmation when it succeeded.
pub open spec fn start_lines<H>(launch: Result<H, LaunchError>) -> Seq<(Stream, Seq<char>)> {
    match launch {
        Ok(_) => seq![(Stream::Normal, started_text())],
        Err(LaunchError::Resolution(e)) => seq![(Stream::Error, resolution_failed_text() + e@)],
        Err(LaunchError::Spawn(e)) => seq![(Stream::Error, spawn_failed_text() + e@)],
    }
}

/// The lines written after a handle was taken out of the slot and the
/// termination request made: the failure, if any, then the confirmation.
pub open spec fn stop_lines(killed: Result<(), String>) -> Seq<(Stream, Seq<char>)> {
    match killed {
        Ok(()) => seq![(Stream::Normal, stopped_text())],
        Err(e) => seq![(Stream::Error, kill_failed_text() + e@), (Stream::Normal, stopped_text())],
    }
}

impl<H> Supervisor<H> {
    /// An empty supervisor, as at application start-up.
    pub fn new() -> (r: Self)
        ensures
            r@ is None,
    {
        Supervisor { slot: None }
    }

    /// Whether a worker's handle is held.
    pub fn is_running(&self) -> (r: bool)
        ensures
            r == self@ is Some,
    {
        self.slot.is_some()
    }

    /// Records the outcome of launching the worker and returns the lines to
    /// write. A failed launch leaves the slot as it was; a successful one
    /// puts the new handle in it.
    pub fn start(&mut self, launch: Result<H, LaunchError>) -> (r: Vec<Diagnostic>)
        ensures
            final(self)@ == after_start(old(self)@, launch),
            lines_of(r@) == start_lines(launch),
    {
        let ghost g = launch;
        proof {
            reveal_strlit("[Astrolabe] Failed to find sidecar: ");
            reveal_strlit("[Astrolabe] Failed to spawn sidecar: ");
            reveal_strlit("[Astrolabe] Backend sidecar started");
        }
        let line = match launch {
            Ok(handle) => {
                self.slot = Some(handle);
                Diagnostic {
                    stream: Stream::Normal,
                    text: String::from_str("[Astrolabe] Backend sidecar started"),
                }
            },
            Err(LaunchError::Resolution(e)) => {
                tagged(Stream::Error, "[Astrolabe] Failed to find sidecar: ", e.as_str())
            },
            Err(LaunchError::Spawn(e)) => {
                tagged(Stream::Error, "[Astrolabe] Failed to spawn sidecar: ", e.as_str())
            },
        };
        let mut r: Vec<Diagnostic> = Vec::new();
        r.push(line);
        assert(lines_of(r@) =~= start_lines(g));
        r
    }

    /// Takes the handle out of the slot, leaving it empty, and returns it so
    /// that the caller can request the worker's termination. On an empty slot
    /// it returns `None`: there is nothing to stop and nothing to report.
    pub fn stop(&mut self) -> (r: Option<H>)
        ensures
            r == old(self)@,
            final(self)@ is None,
    {
        self.slot.take()
    }
}

/// The lines to write once a taken handle's termination was requested, given
/// how that request went.
pub fn stop_report(killed: Result<(), String>) -> (r: Vec<Diagnostic>)
    ensures
        lines_of(r@) == stop_lines(killed),
{
    let ghost g = killed;
    proof {
        reveal_strlit("[Astrolabe] Failed to stop sidecar: ");
        reveal_strlit("[Astrolabe] Backend sidecar stopped");
    }
    let mut r: Vec<Diagnostic> = Vec::new();
    match killed {
        Ok(()) => {},
        Err(e) => {
            r.push(tagged(Stream::Error, "[Astrolabe] Failed to stop sidecar: ", e.as_str()));
        },
    }
    r.push(
        Diagnostic { stream: Stream::Normal, text: String::from_str("[Astrolabe] Backend sidecar stopped") },
    );
    assert(lines_of(r@) =~= stop_lines(g));
    r
}

/// Whether an operation is a start whose launch succeeded.
pub open spec fn is_launch<H>(c: Call<H>) -> bool {
    c matches Call::Start(Ok(_))
}

/// Whether `calls[i]` is a successful start that no later stop and no later
/// successful start has superseded.
pub open spec fn is_latest_launch<H>(calls: Seq<Call<H>>, i: int) -> bool {
    &&& 0 <= i < calls.len()
    &&& is_launch(calls[i])
    &&& forall|j: int| i < j < calls.len() ==> !(#[trigger] calls[j] is Stop) && !is_launch(calls[j])
}

/// A stop always leaves the slot empty: whatever operations came before and
/// whatever the slot held, the slot is empty once a stop has run.
pub proof fn lemma_stop_leaves_empty<H>(slot: Option<H>, calls: Seq<Call<H>>)
    ensures
        run(slot, calls.push(Call::Stop)) is None,
{
    assert(calls.push(Call::Stop).drop_last() =~= calls);
}

/// However the calls of several callers interleave, the lock runs them one
/// after another, as one sequence `calls`. Starting from the empty slot, the
/// slot then holds a handle exactly when some successful start has been
/// neither stopped nor superseded by a later successful start, and that
/// handle is the one that start stored: the slot is never left holding a
/// stopped or an overwritten handle.
pub proof fn lemma_slot_holds_latest_launch<H>(calls: Seq<Call<H>>)
    ensures
        run(None, calls) is Some <==> exists|i: int| is_latest_launch(calls, i),
        forall|i: int| #[trigger] is_latest_launch(calls, i) ==> match calls[i] {
            Call::Start(Ok(h)) => run(None, calls) == Some(h),
            _ => false,
        },
    decreases calls.len(),
{
    if calls.len() > 0 {
        let n = calls.len() - 1;
        let prev = calls.drop_last();
        lemma_slot_holds_latest_launch(prev);
        match calls.last() {
            Call::Stop => {
                assert forall|i: int| !is_latest_launch(calls, i) by {
                    if 0 <= i < n {
                        assert(calls[n] is Stop);
                    }
                }
            },
            Call::Start(Ok(h)) => {
                assert(is_latest_launch(calls, n));
                assert forall|i: int| #[trigger] is_latest_launch(calls, i) implies i == n by {
                    if i < n {
                        assert(is_launch(calls[n]));
                    }
                }
            },
            Call::Start(Err(e)) => {
                assert(!is_launch(calls[n]));
                assert forall|i: int| is_latest_launch(calls, i) <==> is_latest_launch(prev, i) by {
                    if 0 <= i < n {
                        assert(calls[i] == prev[i]);
                        if is_latest_launch(prev, i) {
                            assert forall|j: int| i < j < calls.len() implies !(#[trigger] calls[j] is Stop) && !is_launch(calls[j]) by {
                                if j < n {
                                    assert(calls[j] == prev[j]);
                                }
                            }
                        }
                        if is_latest_launch(calls, i) {
                            assert forall|j: int| i < j < prev.len() implies !(#[trigger] prev[j] is Stop) && !is_launch(prev[j]) by {
                                assert(calls[j] == prev[j]);
                            }
                        }
                    }
                }
            },
        }
    }
}

/// A start whose executable could not be resolved leaves an empty slot empty
/// and writes exactly one line, on the error sink, carrying the reason.
pub proof fn lemma_failed_resolution<H>(reason: String)
    ensures
        after_start(None::<H>, Err(LaunchError::Resolution(reason))) is None,
        start_lines::<H>(Err(LaunchError::Resolution(reason))) == seq![
            (Stream::Error, resolution_failed_text() + reason@),
        ],
{
}

} // verus!
