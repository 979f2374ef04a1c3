//! The benchmark driver, as a state machine.
//!
//! The driver never touches a device or a clock. It tells its caller what to
//! do next, the caller does it and reports back with an [`Event`], and the
//! driver moves on:
//!
//! * `Init`: the caller is to prepare the backend for the image.
//! * `Running`: the caller is to start a timer, dispatch one pass, read the
//!   result back into the host image and stop the timer. The driver records
//!   the time, then spot-checks the frame.
//! * `Finished`: every pass was made and checked; the statistics are ready.
//! * `Aborted`: a backend call failed or a frame did not pass the check. The
//!   first failure ends the run; nothing that comes after it is recorded.
//!
//! The passes are numbered from zero, and the number of the next pass is the
//! number of durations recorded so far.

use vstd::prelude::*;
use crate::raster::Image;
use crate::sampling::{Expectations, Mismatch, check_samples, first_mismatch};
use crate::stats::{RunStatistics, Summary, summarize, summary_of};

verus! {

/// Why a run did not produce statistics.
#[derive(Clone, Copy, Debug, PartialEq, Eq)]
pub enum RunError {
    /// The run was configured with zero iterations.
    Config,
    /// The backend could not be prepared.
    BackendInit,
    /// The backend failed to execute the pass with this index.
    Dispatch { iteration: u32 },
    /// The backend failed to copy the result of this pass back.
    Readback { iteration: u32 },
    /// The frame read back after this pass is not what was expected.
    Validation { iteration: u32, mismatch: Mismatch },
}

/// Where a run stands.
#[derive(Clone, Copy, Debug, PartialEq, Eq)]
pub enum Phase {
    Init,
    Running,
    Finished,
    Aborted(RunError),
}

/// What the caller reports back.
#[derive(Clone, Copy, Debug)]
pub enum Event<'a> {
    /// The backend is ready.
    Prepared,
    /// The backend could not be prepared.
    PrepareFailed,
    /// The dispatch of the current pass failed.
    DispatchFailed,
    /// Reading the result of the current pass back failed.
    ReadbackFailed,
    /// The current pass ran and its result was read back into `image`, which
    /// took `elapsed_ms` milliseconds together. The frame is checked at the
    /// sample points of its own dimensions.
    Frame { image: &'a Image, elapsed_ms: u64 },
}

/// What the caller is to do next.
#[derive(Clone, Copy, Debug, PartialEq, Eq)]
pub enum Action {
    /// Prepare the backend for the image.
    Prepare,
    /// Run the pass `iteration_index` of `total_iterations` and read the
    /// result back.
    Dispatch { iteration_index: u32, total_iterations: u32 },
    /// The run is complete: fetch the statistics and report.
    Report,
    /// The run has failed: give up with this error.
    Abort(RunError),
}

/// The state of a run, mathematically.
pub struct DriverState {
    pub iterations: nat,
    pub expected: Expectations,
    pub bytes_per_iteration: nat,
    pub durations: Seq<u64>,
    pub phase: Phase,
}

impl DriverState {
    /// The state a run starts in.
    pub open spec fn initial(
        iterations: nat,
        expected: Expectations,
        bytes_per_iteration: nat,
    ) -> DriverState {
        DriverState {
            iterations,
            expected,
            bytes_per_iteration,
            durations: Seq::empty(),
            phase: Phase::Init,
        }
    }

    /// What holds of every state a run can be in: there is at least one
    /// pass to make, never more durations than passes, none before the
    /// backend is ready, fewer than asked for while the loop runs, and all of
    /// them once the run has finished.
    pub open spec fn wf(self) -> bool {
        &&& 0 < self.iterations <= u32::MAX
        &&& self.bytes_per_iteration <= u64::MAX
        &&& self.durations.len() <= self.iterations
        &&& self.phase is Init ==> self.durations.len() == 0
        &&& self.phase is Running ==> self.durations.len() < self.iterations
        &&& self.phase is Finished ==> self.durations.len() == self.iterations
    }

    /// The state with the phase replaced.
    pub open spec fn with_phase(self, phase: Phase) -> DriverState {
        DriverState { phase, ..self }
    }

    /// The state after a pass that took `elapsed_ms` and whose frame showed
    /// `mismatch` at the sample points. The duration is recorded first; then
    /// the frame decides how the run goes on.
    pub open spec fn after_frame(self, elapsed_ms: u64, mismatch: Option<Mismatch>) -> DriverState {
        let iteration = self.durations.len() as u32;
        let durations = self.durations.push(elapsed_ms);
        let phase = match mismatch {
            Some(mismatch) => Phase::Aborted(RunError::Validation { iteration, mismatch }),
            None => if durations.len() == self.iterations {
                Phase::Finished
            } else {
                Phase::Running
            },
        };
        DriverState { durations, phase, ..self }
    }

    /// The transition function. An event that does not answer the pending
    /// action changes nothing.
    pub open spec fn next(self, event: Event) -> DriverState {
        let iteration = self.durations.len() as u32;
        match (self.phase, event) {
            (Phase::Init, Event::Prepared) => self.with_phase(Phase::Running),
            (Phase::Init, Event::PrepareFailed) => self.with_phase(
                Phase::Aborted(RunError::BackendInit),
            ),
            (Phase::Running, Event::DispatchFailed) => self.with_phase(
                Phase::Aborted(RunError::Dispatch { iteration }),
            ),
            (Phase::Running, Event::ReadbackFailed) => self.with_phase(
                Phase::Aborted(RunError::Readback { iteration }),
            ),
            (Phase::Running, Event::Frame { image, elapsed_ms }) => self.after_frame(
                elapsed_ms,
                first_mismatch(image@, self.expected),
            ),
            _ => self,
        }
    }

    /// The action that is pending in this state.
    pub open spec fn action(self) -> Action {
        match self.phase {
            Phase::Init => Action::Prepare,
            Phase::Running => Action::Dispatch {
                iteration_index: self.durations.len() as u32,
                total_iterations: self.iterations as u32,
            },
            Phase::Finished => Action::Report,
            Phase::Aborted(error) => Action::Abort(error),
        }
    }

    /// The statistics of the run, which exist once it has finished.
    pub open spec fn summary(self) -> Option<Summary> {
        if self.phase is Finished {
            Some(summary_of(self.durations, self.bytes_per_iteration))
        } else {
            None
        }
    }

    /// The state after a series of events.
    pub open spec fn run(self, events: Seq<Event>) -> DriverState
        decreases events.len(),
    {
        if events.len() == 0 {
            self
        } else {
            self.run(events.drop_last()).next(events.last())
        }
    }
}

/// Every transition keeps the state well-formed.
pub proof fn lemma_next_preserves_wf(state: DriverState, event: Event)
    requires
        state.wf(),
    ensures
        state.next(event).wf(),
{
}

/// Whatever the caller reports, and in whatever order, the state stays
/// well-formed.
pub proof fn lemma_run_preserves_wf(state: DriverState, events: Seq<Event>)
    requires
        state.wf(),
    ensures
        state.run(events).wf(),
    decreases events.len(),
{
    if events.len() > 0 {
        lemma_run_preserves_wf(state, events.drop_last());
        lemma_next_preserves_wf(state.run(events.drop_last()), events.last());
    }
}

/// A run that has reached `Finished` has recorded exactly as many durations
/// as it was asked to make passes, and its statistics are those of these
/// durations.
pub proof fn lemma_finished_run_is_complete(
    iterations: nat,
    expected: Expectations,
    bytes_per_iteration: nat,
    events: Seq<Event>,
)
    requires
        0 < iterations <= u32::MAX,
        bytes_per_iteration <= u64::MAX,
    ensures
        ({
            let end = DriverState::initial(iterations, expected, bytes_per_iteration).run(events);
            end.phase is Finished ==> {
                &&& end.durations.len() == iterations
                &&& end.action() == Action::Report
                &&& end.summary() == Some(summary_of(end.durations, bytes_per_iteration))
                &&& end.summary()->0.iterations == iterations
            }
        }),
{
    let start = DriverState::initial(iterations, expected, bytes_per_iteration);
    lemma_run_preserves_wf(start, events);
    lemma_run_keeps_configuration(start, events);
}

/// No event changes what the run was configured with.
pub proof fn lemma_run_keeps_configuration(state: DriverState, events: Seq<Event>)
    ensures
        state.run(events).iterations == state.iterations,
        state.run(events).expected == state.expected,
        state.run(events).bytes_per_iteration == state.bytes_per_iteration,
    decreases events.len(),
{
    if events.len() > 0 {
        lemma_run_keeps_configuration(state, events.drop_last());
    }
}

/// A pass is only ever asked for with an index below the configured number
/// of passes, and the index is the number of passes recorded so far.
pub proof fn lemma_dispatch_in_range(state: DriverState)
    requires
        state.wf(),
    ensures
        state.action() matches Action::Dispatch { iteration_index, total_iterations } ==> {
            &&& state.phase is Running
            &&& iteration_index == state.durations.len()
            &&& total_iterations == state.iterations
            &&& iteration_index < total_iterations
        },
{
}

/// Once a run has finished or was aborted, no event changes it any more.
pub proof fn lemma_end_is_final(state: DriverState, events: Seq<Event>)
    requires
        state.phase is Finished || state.phase is Aborted,
    ensures
        state.run(events) == state,
    decreases events.len(),
{
    if events.len() > 0 {
        lemma_end_is_final(state, events.drop_last());
    }
}

/// A frame that fails the spot check ends the run at once: the pass it
/// belongs to is the last one recorded, the error names that pass and what
/// was found, and whatever is reported afterwards is ignored.
pub proof fn lemma_mismatch_is_fatal(
    state: DriverState,
    image: &Image,
    elapsed_ms: u64,
    later: Seq<Event>,
)
    requires
        state.wf(),
        state.phase is Running,
        first_mismatch(image@, state.expected) is Some,
    ensures
        ({
            let failed = state.next(Event::Frame { image, elapsed_ms });
            let error = RunError::Validation {
                iteration: state.durations.len() as u32,
                mismatch: first_mismatch(image@, state.expected)->0,
            };
            &&& failed.phase == Phase::Aborted(error)
            &&& failed.durations == state.durations.push(elapsed_ms)
            &&& failed.run(later) == failed
            &&& failed.run(later).action() == Action::Abort(error)
            &&& failed.run(later).summary() is None
        }),
{
    lemma_end_is_final(state.next(Event::Frame { image, elapsed_ms }), later);
}

/// A failed backend call ends the run in the same way, without recording
/// anything for the pass that failed.
pub proof fn lemma_backend_failure_is_fatal(state: DriverState, event: Event, later: Seq<Event>)
    requires
        state.wf(),
        state.phase is Running,
        event is DispatchFailed || event is ReadbackFailed,
    ensures
        ({
            let failed = state.next(event);
            let iteration = state.durations.len() as u32;
            &&& event is DispatchFailed ==> failed.phase == Phase::Aborted(
                RunError::Dispatch { iteration },
            )
            &&& event is ReadbackFailed ==> failed.phase == Phase::Aborted(
                RunError::Readback { iteration },
            )
            &&& failed.durations == state.durations
            &&& failed.run(later) == failed
        }),
{
    lemma_end_is_final(state.next(event), later);
}

/// `event` is a frame that passes the spot check.
pub open spec fn is_good_frame(event: Event, expected: Expectations) -> bool {
    match event {
        Event::Frame { image, .. } => first_mismatch(image@, expected) is None,
        _ => false,
    }
}

/// The events of a run in which nothing goes wrong: `frames` are frames
/// that all pass the check.
pub open spec fn all_frames_pass(frames: Seq<Event>, expected: Expectations) -> bool {
    forall|i: int| 0 <= i < frames.len() ==> is_good_frame(#[trigger] frames[i], expected)
}

/// The durations that a series of frames reports.
pub open spec fn elapsed_of(frames: Seq<Event>) -> Seq<u64> {
    Seq::new(
        frames.len(),
        |i: int|
            match frames[i] {
                Event::Frame { elapsed_ms, .. } => elapsed_ms,
                _ => 0,
            },
    )
}

/// While frames keep passing the check, the loop records their durations in
/// order and goes on until the last pass, then finishes: after `k` good
/// frames, `k` durations are recorded, and the run has finished exactly when
/// `k` has reached the configured number of passes.
pub proof fn lemma_good_frames_are_recorded(state: DriverState, frames: Seq<Event>)
    requires
        state.wf(),
        state.phase is Running,
        all_frames_pass(frames, state.expected),
        state.durations.len() + frames.len() <= state.iterations,
    ensures
        ({
            let end = state.run(frames);
            &&& end.durations == state.durations + elapsed_of(frames)
            &&& end.phase == if end.durations.len() == state.iterations {
                Phase::Finished
            } else {
                Phase::Running
            }
        }),
    decreases frames.len(),
{
    if frames.len() == 0 {
        assert(state.durations + elapsed_of(frames) =~= state.durations);
    } else {
        let before = frames.drop_last();
        lemma_good_frames_are_recorded(state, before);
        lemma_run_keeps_configuration(state, before);
        let middle = state.run(before);
        assert(is_good_frame(frames[frames.len() - 1], state.expected));
        assert(state.durations + elapsed_of(frames) =~= (state.durations + elapsed_of(before)).push(
            elapsed_of(frames)[frames.len() - 1],
        ));
    }
}

/// A whole run in which nothing goes wrong: the backend is prepared, then
/// every one of the configured passes delivers a frame that passes the
/// check. The run then finishes with one duration for each pass, in order,
/// and with the statistics of these durations.
pub proof fn lemma_clean_run_finishes(
    iterations: nat,
    expected: Expectations,
    bytes_per_iteration: nat,
    frames: Seq<Event>,
)
    requires
        0 < iterations <= u32::MAX,
        bytes_per_iteration <= u64::MAX,
        frames.len() == iterations,
        all_frames_pass(frames, expected),
    ensures
        ({
            let start = DriverState::initial(iterations, expected, bytes_per_iteration);
            let end = start.next(Event::Prepared).run(frames);
            &&& start.action() == Action::Prepare
            &&& end.phase is Finished
            &&& end.durations == elapsed_of(frames)
            &&& end.summary() == Some(summary_of(elapsed_of(frames), bytes_per_iteration))
        }),
{
    let start = DriverState::initial(iterations, expected, bytes_per_iteration);
    let ready = start.next(Event::Prepared);
    lemma_good_frames_are_recorded(ready, frames);
    lemma_run_keeps_configuration(ready, frames);
    assert(ready.durations + elapsed_of(frames) =~= elapsed_of(frames));
}

/// The benchmark driver.
#[derive(Debug)]
pub struct Driver {
    iterations: u32,
    expected: Expectations,
    bytes_per_iteration: u64,
    durations: Vec<u64>,
    phase: Phase,
}

impl View for Driver {
    type V = DriverState;

    closed spec fn view(&self) -> DriverState {
        DriverState {
            iterations: self.iterations as nat,
            expected: self.expected,
            bytes_per_iteration: self.bytes_per_iteration as nat,
            durations: self.durations@,
            phase: self.phase,
        }
    }
}

impl Driver {
    /// The invariant of the type, stated on its view.
    pub open spec fn wf(&self) -> bool {
        self@.wf()
    }

    /// Sets a run of `iterations` passes over `image` up, with the values
    /// to expect at the sample points of every frame. The bytes that one
    /// pass moves are those of `image`. A run of zero passes is refused, so
    /// no action is ever asked for on its behalf.
    pub fn new(image: &Image, iterations: u32, expected: Expectations) -> (result: Result<
        Driver,
        RunError,
    >)
        requires
            image.wf(),
        ensures
            result is Err <==> iterations == 0,
            result matches Err(error) ==> error == RunError::Config,
            result matches Ok(driver) ==> driver.wf() && driver@ == DriverState::initial(
                iterations as nat,
                expected,
                4 * image@.side() * image@.side(),
            ),
    {
        if iterations == 0 {
            return Err(RunError::Config);
        }
        let driver = Driver {
            iterations,
            expected,
            bytes_per_iteration: image.byte_len() as u64,
            durations: Vec::new(),
            phase: Phase::Init,
        };
        assert(driver@.durations =~= Seq::<u64>::empty());
        Ok(driver)
    }

    /// The action that is pending.
    pub fn action(&self) -> (action: Action)
        requires
            self.wf(),
        ensures
            action == self@.action(),
    {
        match self.phase {
            Phase::Init => Action::Prepare,
            Phase::Running => Action::Dispatch {
                iteration_index: self.durations.len() as u32,
                total_iterations: self.iterations,
            },
            Phase::Finished => Action::Report,
            Phase::Aborted(error) => Action::Abort(error),
        }
    }

    /// Takes in what the caller reports and answers with the action that is
    /// pending afterwards.
    pub fn step(&mut self, event: Event) -> (action: Action)
        requires
            old(self).wf(),
            event matches Event::Frame { image, .. } ==> image.wf(),
        ensures
            final(self).wf(),
            final(self)@ == old(self)@.next(event),
            action == final(self)@.action(),
    {
        let iteration: u32 = self.durations.len() as u32;
        match self.phase {
            Phase::Init => match event {
                Event::Prepared => {
                    self.phase = Phase::Running;
                },
                Event::PrepareFailed => {
                    self.phase = Phase::Aborted(RunError::BackendInit);
                },
                _ => {},
            },
            Phase::Running => match event {
                Event::DispatchFailed => {
                    self.phase = Phase::Aborted(RunError::Dispatch { iteration });
                },
                Event::ReadbackFailed => {
                    self.phase = Phase::Aborted(RunError::Readback { iteration });
                },
                Event::Frame { image, elapsed_ms } => {
                    self.durations.push(elapsed_ms);
                    self.phase = match check_samples(image, &self.expected) {
                        Some(mismatch) => Phase::Aborted(
                            RunError::Validation { iteration, mismatch },
                        ),
                        None => if self.durations.len() == self.iterations as usize {
                            Phase::Finished
                        } else {
                            Phase::Running
                        },
                    };
                },
                _ => {},
            },
            _ => {},
        }
        self.action()
    }

    /// Where the run stands.
    pub fn phase(&self) -> (phase: Phase)
        ensures
            phase == self@.phase,
    {
        self.phase
    }

    /// The number of passes the run was configured with.
    pub fn iterations(&self) -> (iterations: u32)
        ensures
            iterations == self@.iterations,
    {
        self.iterations
    }

    /// The durations recorded so far, in milliseconds, one for each pass in
    /// the order of the passes.
    pub fn durations(&self) -> (durations: &Vec<u64>)
        ensures
            durations@ == self@.durations,
    {
        &self.durations
    }

    /// The statistics of the run, once it has finished.
    pub fn statistics(&self) -> (result: Option<RunStatistics>)
        requires
            self.wf(),
        ensures
            result is Some <==> self@.phase is Finished,
            result matches Some(statistics) ==> statistics.wf() && Some(statistics@)
                == self@.summary(),
    {
        match self.phase {
            Phase::Finished => summarize(&self.durations, self.bytes_per_iteration),
            _ => None,
        }
    }
}

} // verus!
