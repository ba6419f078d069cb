use vstd::prelude::*;

use crate::error::RenderError;
use crate::pacing::Pacer;
use crate::source::{action_for, pull_action, PullAction, ReadOutcome};
use crate::stream::StreamInfo;

verus! {

/// Length of the short sleep that ends every iteration of the render loop, in
/// nanoseconds.
pub const YIELD_NS: u64 = 10_000_000;

/// Where a render worker stands.
#[derive(Clone, Copy, Debug, PartialEq, Eq)]
pub enum Phase {
    /// Opening the stream and placing the surface.
    Starting,
    /// Drawing frames.
    Running,
    /// Releasing the decoder and the surface.
    Stopping,
    /// Done.
    Stopped,
}

/// What one iteration of the render loop does, after draining the surface's
/// pending messages.
#[derive(Clone, Copy, Debug, PartialEq, Eq)]
pub enum TickAction {
    /// Nothing is due: sleep for the yield interval.
    Idle,
    /// A frame is due: pull it, draw it, then sleep for the yield interval.
    DrawFrame,
    /// Leave the loop and release the decoder and the surface.
    Teardown,
}

/// The phase after one iteration's checks: a stop request or a quit message
/// ends a running session.
pub open spec fn phase_after_tick(phase: Phase, stop_requested: bool, quit_received: bool) -> Phase {
    if phase == Phase::Running && (stop_requested || quit_received) {
        Phase::Stopping
    } else {
        phase
    }
}

/// What an iteration of a running loop does.
pub open spec fn tick_action(stop_requested: bool, quit_received: bool, due: bool) -> TickAction {
    if stop_requested || quit_received {
        TickAction::Teardown
    } else if due {
        TickAction::DrawFrame
    } else {
        TickAction::Idle
    }
}

/// The decisions of one render session, from start to teardown. The worker
/// that runs it performs each action and reports each event back.
pub struct RenderWorker {
    phase: Phase,
    pacer: Pacer,
    info: StreamInfo,
    failure: Option<RenderError>,
}

impl RenderWorker {
    /// The phase the session is in.
    pub closed spec fn spec_phase(&self) -> Phase {
        self.phase
    }

    /// The error that ended the session, if one did.
    pub closed spec fn spec_failure(&self) -> Option<RenderError> {
        self.failure
    }

    /// The frame pacer of the session.
    pub closed spec fn spec_pacer(&self) -> Pacer {
        self.pacer
    }

    /// The stream being drawn (meaningful once running).
    pub closed spec fn spec_info(&self) -> StreamInfo {
        self.info
    }

    /// The pacer is well formed and runs at the stream's frame rate, and only
    /// a stopped session carries an error.
    pub closed spec fn wf(&self) -> bool {
        &&& self.pacer.wf()
        &&& self.pacer.spec_frame_duration() == self.info.frame_duration_ns
        &&& (self.failure is Some ==> self.phase == Phase::Stopped)
    }

    /// The pacer is well formed and spaces frames by the stream's frame
    /// duration.
    pub open spec fn paces_at_stream_rate(&self) -> bool {
        &&& self.spec_pacer().wf()
        &&& self.spec_pacer().spec_frame_duration() == self.spec_info().frame_duration_ns
    }

    /// A session that is about to open its stream.
    pub fn new() -> (r: RenderWorker)
        ensures
            r.wf(),
            r.paces_at_stream_rate(),
            r.spec_phase() == Phase::Starting,
            r.spec_failure() is None,
    {
        let info = StreamInfo { width: 0, height: 0, frame_duration_ns: 0 };
        RenderWorker { phase: Phase::Starting, pacer: Pacer::new(0, 0), info, failure: None }
    }

    /// The phase the session is in.
    pub fn phase(&self) -> (r: Phase)
        ensures
            r == self.spec_phase(),
    {
        self.phase
    }

    /// The error that ended the session, if one did.
    pub fn failure(&self) -> (r: Option<RenderError>)
        ensures
            r == self.spec_failure(),
    {
        self.failure
    }

    /// Ends the start of the session with the outcome of opening the stream,
    /// creating the surface and placing it under the desktop, in that order.
    /// Success starts the loop, with the first frame due one frame duration
    /// after `now`; any failure stops the session with that error.
    pub fn finish_start(&mut self, setup: Result<StreamInfo, RenderError>, now: u64)
        requires
            old(self).wf(),
            old(self).spec_phase() == Phase::Starting,
        ensures
            final(self).wf(),
            final(self).paces_at_stream_rate(),
            match setup {
                Ok(info) => {
                    &&& final(self).spec_phase() == Phase::Running
                    &&& final(self).spec_failure() is None
                    &&& final(self).spec_info() == info
                    &&& final(self).spec_pacer().spec_last_slot() == now
                    &&& final(self).spec_pacer().granted() == Seq::<int>::empty()
                },
                Err(e) => {
                    &&& final(self).spec_phase() == Phase::Stopped
                    &&& final(self).spec_failure() == Some(e)
                },
            },
    {
        match setup {
            Ok(info) => {
                self.info = info;
                self.pacer = Pacer::new(info.frame_duration_ns, now);
                self.phase = Phase::Running;
            },
            Err(e) => {
                self.phase = Phase::Stopped;
                self.failure = Some(e);
            },
        }
    }

    /// One iteration of the loop at time `now`: a stop request or a quit
    /// message found while draining the surface's messages ends the session;
    /// otherwise a frame is drawn only when one frame duration has passed
    /// since the last one.
    pub fn tick(&mut self, stop_requested: bool, quit_received: bool, now: u64) -> (r: TickAction)
        requires
            old(self).wf(),
            old(self).spec_phase() == Phase::Running,
        ensures
            final(self).wf(),
            final(self).paces_at_stream_rate(),
            final(self).spec_phase() == phase_after_tick(
                old(self).spec_phase(),
                stop_requested,
                quit_received,
            ),
            r == tick_action(
                stop_requested,
                quit_received,
                now >= old(self).spec_pacer().spec_last_slot() + old(
                    self,
                ).spec_pacer().spec_frame_duration(),
            ),
            final(self).spec_failure() == old(self).spec_failure(),
            final(self).spec_info() == old(self).spec_info(),
            r == TickAction::DrawFrame ==> final(self).spec_pacer().granted() == old(
                self,
            ).spec_pacer().granted().push(now as int),
            r == TickAction::DrawFrame ==> final(self).spec_pacer().spec_last_slot() == now,
            r != TickAction::DrawFrame ==> final(self).spec_pacer() == old(self).spec_pacer(),
    {
        if stop_requested || quit_received {
            self.phase = Phase::Stopping;
            TickAction::Teardown
        } else if self.pacer.take_slot(now) {
            TickAction::DrawFrame
        } else {
            TickAction::Idle
        }
    }

    /// What to do with the decoder's answer to the read of a due frame: draw
    /// it, reopen the stream at its end and read again, or keep the previous
    /// frame on screen after a failed read.
    pub fn on_read(&self, outcome: ReadOutcome) -> (r: PullAction)
        ensures
            r == action_for(outcome),
    {
        pull_action(outcome)
    }

    /// Drawing failed: the session stops with a surface failure.
    pub fn on_surface_failure(&mut self)
        requires
            old(self).wf(),
            old(self).spec_phase() == Phase::Running,
        ensures
            final(self).wf(),
            final(self).paces_at_stream_rate(),
            final(self).spec_phase() == Phase::Stopping,
            final(self).spec_failure() == old(self).spec_failure(),
            final(self).spec_pacer() == old(self).spec_pacer(),
            final(self).spec_info() == old(self).spec_info(),
    {
        self.phase = Phase::Stopping;
    }

    /// The decoder and the surface were released: the session is over. A
    /// surface failure that led here is kept as the session's error.
    pub fn finish_teardown(&mut self, failure: Option<RenderError>)
        requires
            old(self).wf(),
            old(self).spec_phase() == Phase::Stopping,
        ensures
            final(self).wf(),
            final(self).paces_at_stream_rate(),
            final(self).spec_phase() == Phase::Stopped,
            final(self).spec_failure() == failure,
            final(self).spec_pacer() == old(self).spec_pacer(),
            final(self).spec_info() == old(self).spec_info(),
    {
        self.phase = Phase::Stopped;
        self.failure = failure;
    }
}

/// A stop request is honoured within the iteration that sees it: from a
/// running session, that iteration decodes and draws nothing, tears down and
/// leaves the session stopping, and teardown stops it; so the worker is stopped
/// within one iteration (one frame's work plus the yield sleep) of the request.
pub proof fn lemma_stop_ends_session(quit_received: bool, due: bool)
    ensures
        phase_after_tick(Phase::Running, true, quit_received) == Phase::Stopping,
        tick_action(true, quit_received, due) == TickAction::Teardown,
{
}

/// Stopping twice is the same as stopping once: an iteration that sees the
/// request again changes nothing more.
pub proof fn lemma_stop_idempotent(phase: Phase, quit_received: bool)
    ensures
        phase_after_tick(phase_after_tick(phase, true, quit_received), true, quit_received)
            == phase_after_tick(phase, true, quit_received),
{
}

} // verus!
