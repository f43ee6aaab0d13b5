//! The restore worker's decisions. The adapter owns the thread, the bounded
//! queue and the sleeps; for each dequeued request it keeps only the newest,
//! waits as the library says, runs the restoration steps, and records what the
//! worker completed and resolved.
use vstd::prelude::*;
use crate::hook::focus_restore::RestoreRequest;
use crate::hook::windows::focus_restore::{delay_slice, keeps_waiting, superseded, DELAY_SLICE_MS};

verus! {

/// The request that the worker handles: the newest of the one it dequeued and
/// those queued behind it. Older requests are dropped unhandled.
pub fn newest(request: RestoreRequest, queued: &Vec<RestoreRequest>) -> (newest: RestoreRequest)
    ensures
        newest == if queued@.len() == 0 {
            request
        } else {
            queued@.last()
        },
{
    if queued.len() == 0 {
        request
    } else {
        queued[queued.len() - 1]
    }
}

/// What the worker does next for a request.
#[derive(Clone, Copy, Debug, PartialEq, Eq, Structural)]
pub enum WaitStep {
    /// A newer gesture superseded the request before any wait: record it as
    /// completed and take the next one.
    Skip,
    /// Sleep this many milliseconds, then ask again.
    Sleep(u64),
    /// Run the restoration steps now.
    Restore,
}

/// The wait of the worker before it restores one request.
#[derive(Clone, Copy, Debug, PartialEq, Eq, Structural)]
pub struct RestoreWait {
    pub request: RestoreRequest,
    /// The delay still to sleep, in milliseconds.
    pub remaining: u64,
    /// Whether the worker asked for a step already.
    pub started: bool,
}

/// The next step of a wait, when the shared request sequence reads `sequence`.
/// The first step skips a superseded request. Afterwards the worker sleeps in
/// slices while delay remains and the request is current, and then restores;
/// a request superseded during the wait is handed to the restoration steps,
/// whose first check turns it down.
pub open spec fn wait_step(w: RestoreWait, sequence: u64) -> (RestoreWait, WaitStep) {
    if !w.started && w.request.sequence != sequence {
        (RestoreWait { started: true, ..w }, WaitStep::Skip)
    } else if w.remaining > 0 && w.request.sequence == sequence {
        let slice = if w.remaining < DELAY_SLICE_MS { w.remaining } else { DELAY_SLICE_MS };
        (RestoreWait { remaining: (w.remaining - slice) as u64, started: true, ..w }, WaitStep::Sleep(slice))
    } else {
        (RestoreWait { started: true, ..w }, WaitStep::Restore)
    }
}

impl RestoreWait {
    /// A wait of `delay` milliseconds for `request`.
    pub fn new(request: RestoreRequest, delay: u64) -> (wait: Self)
        ensures
            wait == (RestoreWait { request, remaining: delay, started: false }),
    {
        RestoreWait { request, remaining: delay, started: false }
    }

    pub fn next(&mut self, sequence: u64) -> (step: WaitStep)
        ensures
            (*final(self), step) == wait_step(*old(self), sequence),
    {
        if !self.started && superseded(&self.request, sequence) {
            self.started = true;
            return WaitStep::Skip;
        }
        self.started = true;
        if keeps_waiting(&self.request, self.remaining, sequence) {
            let slice = delay_slice(self.remaining);
            self.remaining = self.remaining - slice;
            WaitStep::Sleep(slice)
        } else {
            WaitStep::Restore
        }
    }
}

/// The steps of a wait when the shared sequence reads `sequences`, one per step.
pub open spec fn wait_run(w: RestoreWait, sequences: Seq<u64>) -> (RestoreWait, Seq<WaitStep>)
    decreases sequences.len(),
{
    if sequences.len() == 0 {
        (w, Seq::empty())
    } else {
        let (before, steps) = wait_run(w, sequences.drop_last());
        let (after, step) = wait_step(before, sequences.last());
        (after, steps.push(step))
    }
}

/// The milliseconds slept over a run of steps.
pub open spec fn slept(steps: Seq<WaitStep>) -> nat
    decreases steps.len(),
{
    if steps.len() == 0 {
        0
    } else {
        slept(steps.drop_last()) + match steps.last() {
            WaitStep::Sleep(ms) => ms as nat,
            _ => 0,
        }
    }
}

/// The worker restores only after the whole delay: while no newer gesture
/// supersedes the request, it never skips it, what it slept and what remains
/// always add up to the delay, and when it turns to the restoration steps it
/// has slept exactly the delay.
pub proof fn restore_follows_whole_delay(request: RestoreRequest, delay: u64, sequences: Seq<u64>)
    requires
        forall|i: int| 0 <= i < sequences.len() ==> #[trigger] sequences[i] == request.sequence,
    ensures
        ({
            let (w, steps) = wait_run(RestoreWait { request, remaining: delay, started: false }, sequences);
            &&& w.request == request
            &&& slept(steps) + w.remaining == delay
            &&& forall|i: int| 0 <= i < steps.len() ==> !(#[trigger] steps[i] is Skip)
            &&& (steps.len() > 0 && steps.last() is Restore) ==> slept(steps) == delay
        }),
    decreases sequences.len(),
{
    if sequences.len() > 0 {
        let prefix = sequences.drop_last();
        assert forall|i: int| 0 <= i < prefix.len() implies #[trigger] prefix[i] == request.sequence by {
            assert(prefix[i] == sequences[i]);
        }
        restore_follows_whole_delay(request, delay, prefix);
        let start = RestoreWait { request, remaining: delay, started: false };
        let (before, steps) = wait_run(start, prefix);
        let (after, step) = wait_step(before, sequences.last());
        assert(sequences.last() == sequences[sequences.len() - 1]);
        assert(steps.push(step).drop_last() =~= steps);
        assert forall|i: int| 0 <= i < steps.push(step).len() implies !(#[trigger] steps.push(step)[i] is Skip) by {
            if i < steps.len() {
                assert(steps.push(step)[i] == steps[i]);
            }
        }
    }
}

/// A request superseded before the worker took it is skipped at once, with no
/// sleep and no restoration.
pub proof fn superseded_request_is_skipped(request: RestoreRequest, delay: u64, sequence: u64)
    requires
        sequence != request.sequence,
    ensures
        wait_step(RestoreWait { request, remaining: delay, started: false }, sequence).1 == WaitStep::Skip,
{
}

/// The last request the worker completed, and the last one whose outcome
/// resolved its gesture.
#[derive(Clone, Copy, Debug, PartialEq, Eq, Structural)]
pub struct WorkerCounters {
    pub completed: u64,
    pub resolved: u64,
}

impl WorkerCounters {
    /// The worker handled `request`: it is completed, and resolved when its
    /// outcome settles the gesture (`resolves`). Neither counter ever decreases.
    pub fn finish(&mut self, request: &RestoreRequest, resolves: bool)
        ensures
            final(self).completed == if request.sequence > old(self).completed {
                request.sequence
            } else {
                old(self).completed
            },
            final(self).resolved == if resolves && request.sequence > old(self).resolved {
                request.sequence
            } else {
                old(self).resolved
            },
            final(self).completed >= old(self).completed,
            final(self).resolved >= old(self).resolved,
    {
        if resolves && request.sequence > self.resolved {
            self.resolved = request.sequence;
        }
        if request.sequence > self.completed {
            self.completed = request.sequence;
        }
    }
}

} // verus!
