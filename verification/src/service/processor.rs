use rand::rngs::StdRng;
use vstd::prelude::*;

verus! {

/// The shortest simulated processing time, in milliseconds.
pub const MIN_PROCESSING_MS: u64 = 15;

/// One past the longest simulated processing time, in milliseconds.
pub const MAX_PROCESSING_MS: u64 = 45;

/// How long the workers still running at shutdown get once they have been
/// told to abort, in milliseconds.
pub const ABORT_GRACE_MS: u64 = 100;

/// The standard random number generator of `rand` (`rand::rngs::StdRng`).
#[verifier::external_type_specification]
#[verifier::external_body]
pub struct ExStdRng(StdRng);

/// Seeds a generator from the operating system with
/// `SeedableRng::try_from_os_rng`; `None` when the operating system gives
/// no randomness (the call's error).
#[verifier::external_body]
fn seeded_rng() -> (r: Option<StdRng>) {
    <StdRng as rand::SeedableRng>::try_from_os_rng().ok()
}

/// Draws a number in `low..high` with `Rng::random_range`, which samples
/// that range and panics only when it is empty.
#[verifier::external_body]
fn draw(rng: &mut StdRng, low: u64, high: u64) -> (r: u64)
    requires
        low < high,
    ensures
        low <= r < high,
{
    rand::Rng::random_range(rng, low..high)
}

/// What the dispatch loop observed.
#[derive(Debug)]
pub enum DispatchEvent {
    /// The shutdown flag changed; its value now.
    ShutdownChanged(bool),
    /// The work channel gave an id, or `None` once every sender is gone.
    Received(Option<String>),
    /// A worker permit was acquired (`true`) or the pool is closed (`false`).
    Permit(bool),
}

/// What the dispatch loop does next.
#[derive(Debug)]
pub enum DispatchAction {
    /// Keep waiting.
    Continue,
    /// Stop dispatching and shut the workers down.
    Stop,
    /// Start a worker on `id` that works for `processing_ms` milliseconds.
    Spawn { id: String, processing_ms: u64 },
}

/// One step of the dispatch loop, from the id waiting for a worker permit
/// (if any) and what was observed: a raised shutdown flag, a closed channel
/// or a closed pool stops dispatching; a flag that changes but stays down
/// drops the waiting id (the sweeper offers it again once its
/// queue entry is stale); a received id waits
/// for a permit; a permit starts a worker on the waiting id, for `ms`
/// milliseconds.
pub open spec fn dispatch_next(pending: Option<String>, ev: DispatchEvent, ms: u64) -> (
    Option<String>,
    DispatchAction,
) {
    match ev {
        DispatchEvent::ShutdownChanged(true) => (pending, DispatchAction::Stop),
        DispatchEvent::ShutdownChanged(false) => (None, DispatchAction::Continue),
        DispatchEvent::Received(Some(id)) => (Some(id), DispatchAction::Continue),
        DispatchEvent::Received(None) => (pending, DispatchAction::Stop),
        DispatchEvent::Permit(true) => match pending {
            Some(id) => (None, DispatchAction::Spawn { id, processing_ms: ms }),
            None => (None, DispatchAction::Continue),
        },
        DispatchEvent::Permit(false) => (pending, DispatchAction::Stop),
    }
}

/// One step of the dispatch loop (see `dispatch_next`).
pub fn dispatch_step(pending: Option<String>, ev: DispatchEvent, ms: u64) -> (r: (
    Option<String>,
    DispatchAction,
))
    ensures
        r == dispatch_next(pending, ev, ms),
{
    match ev {
        DispatchEvent::ShutdownChanged(true) => (pending, DispatchAction::Stop),
        DispatchEvent::ShutdownChanged(false) => (None, DispatchAction::Continue),
        DispatchEvent::Received(Some(id)) => (Some(id), DispatchAction::Continue),
        DispatchEvent::Received(None) => (pending, DispatchAction::Stop),
        DispatchEvent::Permit(true) => match pending {
            Some(id) => (None, DispatchAction::Spawn { id, processing_ms: ms }),
            None => (None, DispatchAction::Continue),
        },
        DispatchEvent::Permit(false) => (pending, DispatchAction::Stop),
    }
}

/// The dispatch loop's state: the id waiting for a worker permit, and the
/// generator of processing times.
pub struct Dispatcher {
    pending: Option<String>,
    rng: Option<StdRng>,
}

impl Dispatcher {
    /// The id waiting for a worker permit.
    pub closed spec fn waiting(&self) -> Option<String> {
        self.pending
    }

    /// A dispatcher with no id waiting.
    pub fn new() -> (d: Self)
        ensures
            d.waiting() is None,
    {
        Dispatcher { pending: None, rng: seeded_rng() }
    }

    /// Whether an id waits for a worker permit.
    pub fn has_pending(&self) -> (b: bool)
        ensures
            b == self.waiting() is Some,
    {
        self.pending.is_some()
    }

    /// A processing time in `MIN_PROCESSING_MS..MAX_PROCESSING_MS`, drawn at
    /// random; the shortest one when the generator could not be seeded.
    fn processing_time_ms(&mut self) -> (ms: u64)
        ensures
            MIN_PROCESSING_MS <= ms < MAX_PROCESSING_MS,
            final(self).waiting() == old(self).waiting(),
    {
        match self.rng.take() {
            Some(mut g) => {
                let ms = draw(&mut g, MIN_PROCESSING_MS, MAX_PROCESSING_MS);
                self.rng = Some(g);
                ms
            },
            None => MIN_PROCESSING_MS,
        }
    }

    /// Takes one step of the dispatch loop (see `dispatch_next`), with a
    /// random processing time for a worker that is started.
    pub fn step(&mut self, ev: DispatchEvent) -> (a: DispatchAction)
        ensures
            exists|ms: u64|
                MIN_PROCESSING_MS <= ms < MAX_PROCESSING_MS && (final(self).waiting(), a)
                    == #[trigger] dispatch_next(old(self).waiting(), ev, ms),
    {
        let starts = match ev {
            DispatchEvent::Permit(true) => self.pending.is_some(),
            _ => false,
        };
        let ms = if starts {
            self.processing_time_ms()
        } else {
            MIN_PROCESSING_MS
        };
        let pending = self.pending.take();
        let (next, action) = dispatch_step(pending, ev, ms);
        self.pending = next;
        action
    }
}

/// How a shutdown ended.
#[derive(Debug, Clone, Copy, PartialEq, Eq, Structural)]
pub enum ShutdownOutcome {
    /// Every worker finished within the timeout.
    Graceful,
    /// The timeout passed, but no worker was left.
    NothingLeft,
    /// The workers left were aborted.
    Aborted,
    /// Some workers did not stop even after the abort; how many.
    Forced(usize),
}

/// Where a shutdown stands.
#[derive(Debug, Clone, Copy, PartialEq, Eq, Structural)]
pub enum ShutdownPhase {
    /// Waiting for the workers to finish, up to the shutdown timeout.
    Draining,
    /// The remaining workers were told to abort; waiting a short grace time.
    Aborting,
    /// Done.
    Finished(ShutdownOutcome),
}

/// The next phase of a shutdown, given whether every worker was joined in
/// the time allowed and how many remain: workers left after the timeout
/// are aborted and get a grace time; whatever remains after that is left.
pub open spec fn shutdown_next(phase: ShutdownPhase, joined_in_time: bool, remaining: usize) -> ShutdownPhase {
    match phase {
        ShutdownPhase::Draining => if joined_in_time {
            ShutdownPhase::Finished(ShutdownOutcome::Graceful)
        } else if remaining == 0 {
            ShutdownPhase::Finished(ShutdownOutcome::NothingLeft)
        } else {
            ShutdownPhase::Aborting
        },
        ShutdownPhase::Aborting => if joined_in_time || remaining == 0 {
            ShutdownPhase::Finished(ShutdownOutcome::Aborted)
        } else {
            ShutdownPhase::Finished(ShutdownOutcome::Forced(remaining))
        },
        ShutdownPhase::Finished(o) => ShutdownPhase::Finished(o),
    }
}

/// The next phase of a shutdown (see `shutdown_next`).
pub fn shutdown_step(phase: ShutdownPhase, joined_in_time: bool, remaining: usize) -> (r: ShutdownPhase)
    ensures
        r == shutdown_next(phase, joined_in_time, remaining),
{
    match phase {
        ShutdownPhase::Draining => if joined_in_time {
            ShutdownPhase::Finished(ShutdownOutcome::Graceful)
        } else if remaining == 0 {
            ShutdownPhase::Finished(ShutdownOutcome::NothingLeft)
        } else {
            ShutdownPhase::Aborting
        },
        ShutdownPhase::Aborting => if joined_in_time || remaining == 0 {
            ShutdownPhase::Finished(ShutdownOutcome::Aborted)
        } else {
            ShutdownPhase::Finished(ShutdownOutcome::Forced(remaining))
        },
        ShutdownPhase::Finished(o) => ShutdownPhase::Finished(o),
    }
}

/// How long to wait for the workers in a phase: the shutdown timeout while
/// draining, the grace time while aborting, nothing once finished.
pub open spec fn shutdown_wait(phase: ShutdownPhase, timeout_ms: u64) -> Option<u64> {
    match phase {
        ShutdownPhase::Draining => Some(timeout_ms),
        ShutdownPhase::Aborting => Some(ABORT_GRACE_MS),
        ShutdownPhase::Finished(_) => None,
    }
}

/// How long to wait for the workers in a phase (see `shutdown_wait`).
pub fn shutdown_wait_ms(phase: ShutdownPhase, timeout_ms: u64) -> (r: Option<u64>)
    ensures
        r == shutdown_wait(phase, timeout_ms),
{
    match phase {
        ShutdownPhase::Draining => Some(timeout_ms),
        ShutdownPhase::Aborting => Some(ABORT_GRACE_MS),
        ShutdownPhase::Finished(_) => None,
    }
}

/// One more, saturating at the largest `u64`.
pub open spec fn count_up(n: u64) -> u64 {
    if n == u64::MAX {
        n
    } else {
        (n + 1) as u64
    }
}

/// The counts of panicked and cancelled workers after one more worker was
/// joined: a panic counts as a panic, otherwise a cancellation as a
/// cancellation; a worker that finished, or failed otherwise, counts as
/// neither.
pub open spec fn tallied(c: (u64, u64), panicked: bool, cancelled: bool) -> (u64, u64) {
    if panicked {
        (count_up(c.0), c.1)
    } else if cancelled {
        (c.0, count_up(c.1))
    } else {
        c
    }
}

/// Counts one joined worker into the panicked and cancelled counts (see
/// `tallied`).
pub fn tally_join(c: (u64, u64), panicked: bool, cancelled: bool) -> (r: (u64, u64))
    ensures
        r == tallied(c, panicked, cancelled),
{
    if panicked {
        (if c.0 == u64::MAX { c.0 } else { c.0 + 1 }, c.1)
    } else if cancelled {
        (c.0, if c.1 == u64::MAX { c.1 } else { c.1 + 1 })
    } else {
        c
    }
}

} // verus!
