use vstd::prelude::*;

verus! {

/// How the graphics backend finished a paint.
#[derive(Clone, Copy, Debug, PartialEq, Eq, Structural)]
pub enum PaintStatus {
    /// The draw data was rendered and the buffers swapped.
    Presented,
    /// The backend failed to render the draw data.
    RenderFailed,
    /// The buffer swap failed.
    SwapFailed,
}

/// What the driver of the loop hands in: an OS event, or the outcome of
/// the work that the previous action asked for.
#[derive(Clone, Copy, Debug, PartialEq, Eq, Structural)]
pub enum LoopEvent {
    /// A new batch of OS events begins.
    NewEvents,
    /// The OS event queue is drained: time for a frame.
    EventsCleared,
    /// The UI platform's frame preparation finished, or failed.
    FramePrepared { ok: bool },
    /// The update hook returned `keep_running`.
    UpdateDone { keep_running: bool },
    /// The OS asks for a paint.
    RedrawRequested,
    /// A paint finished: the render hook returned `keep_running`, and the
    /// backend reported `status`.
    Painted { keep_running: bool, status: PaintStatus },
    /// The OS asks to close the window.
    CloseRequested,
    /// Any other OS event.
    Other,
}

/// What the driver must do next.
#[derive(Clone, Copy, Debug, PartialEq, Eq, Structural)]
pub enum LoopAction {
    /// Nothing: the loop has stopped.
    Ignore,
    /// Advance the frame clock and hand the delta to the UI.
    UpdateTiming,
    /// Prepare the UI platform for a frame, then report `FramePrepared`.
    PrepareFrame,
    /// Relay input, sample activation, refresh the target tracker, call the
    /// update hook, then report `UpdateDone`.
    RunFrame,
    /// Ask the OS for a paint.
    RequestRedraw,
    /// Build the UI frame, call the render hook, clear to transparent,
    /// submit the draw data, then report `Painted`.
    Paint,
    /// The frame is done; show the window through the OS first when
    /// `show_window`.
    Present { show_window: bool },
    /// Hand the event to the UI platform's event handler.
    Forward,
    /// Leave the loop with exit `code`; show the window first when
    /// `show_window`.
    Exit { code: i32, show_window: bool },
}

/// The loop-owned state of the render loop.
#[derive(Clone, Copy, Debug, PartialEq, Eq, Structural)]
pub struct FrameLoop {
    /// Whether the window has been shown.
    pub shown: bool,
    /// The exit code, once the loop has stopped.
    pub exit_code: Option<i32>,
}

/// Whether `event` reports a paint that the backend completed.
pub open spec fn is_good_paint(event: LoopEvent) -> bool {
    match event {
        LoopEvent::Painted { status, .. } => status == PaintStatus::Presented,
        _ => false,
    }
}

/// Whether `action` shows the window.
pub open spec fn shows_window(action: LoopAction) -> bool {
    match action {
        LoopAction::Present { show_window } => show_window,
        LoopAction::Exit { show_window, .. } => show_window,
        _ => false,
    }
}

/// The transition table of the render loop.
pub open spec fn loop_step(s: FrameLoop, event: LoopEvent) -> (FrameLoop, LoopAction) {
    if s.exit_code is Some {
        (s, LoopAction::Ignore)
    } else {
        match event {
            LoopEvent::NewEvents => (s, LoopAction::UpdateTiming),
            LoopEvent::EventsCleared => (s, LoopAction::PrepareFrame),
            LoopEvent::FramePrepared { ok } => if ok {
                (s, LoopAction::RunFrame)
            } else {
                (FrameLoop { exit_code: Some(1), ..s }, LoopAction::Exit { code: 1, show_window: false })
            },
            LoopEvent::UpdateDone { keep_running } => if keep_running {
                (s, LoopAction::RequestRedraw)
            } else {
                (FrameLoop { exit_code: Some(0), ..s }, LoopAction::Exit { code: 0, show_window: false })
            },
            LoopEvent::RedrawRequested => (s, LoopAction::Paint),
            LoopEvent::Painted { keep_running, status } => {
                let ok = status == PaintStatus::Presented;
                let show = ok && !s.shown;
                let shown = s.shown || ok;
                if keep_running && ok {
                    (FrameLoop { shown, ..s }, LoopAction::Present { show_window: show })
                } else {
                    (
                        FrameLoop { shown, exit_code: Some(0) },
                        LoopAction::Exit { code: 0, show_window: show },
                    )
                }
            },
            LoopEvent::CloseRequested => (
                FrameLoop { exit_code: Some(0), ..s },
                LoopAction::Exit { code: 0, show_window: false },
            ),
            LoopEvent::Other => (s, LoopAction::Forward),
        }
    }
}

impl FrameLoop {
    /// The state at the start: hidden and running.
    pub fn new() -> (r: Self)
        ensures
            !r.shown,
            r.exit_code is None,
    {
        FrameLoop { shown: false, exit_code: None }
    }

    pub fn is_running(&self) -> (r: bool)
        ensures
            r == (self.exit_code is None),
    {
        self.exit_code.is_none()
    }

    /// Takes one event and says what to do about it.
    pub fn step(&mut self, event: LoopEvent) -> (r: LoopAction)
        ensures
            (*final(self), r) == loop_step(*old(self), event),
    {
        if self.exit_code.is_some() {
            return LoopAction::Ignore;
        }
        match event {
            LoopEvent::NewEvents => LoopAction::UpdateTiming,
            LoopEvent::EventsCleared => LoopAction::PrepareFrame,
            LoopEvent::FramePrepared { ok } => {
                if ok {
                    LoopAction::RunFrame
                } else {
                    self.exit_code = Some(1);
                    LoopAction::Exit { code: 1, show_window: false }
                }
            },
            LoopEvent::UpdateDone { keep_running } => {
                if keep_running {
                    LoopAction::RequestRedraw
                } else {
                    self.exit_code = Some(0);
                    LoopAction::Exit { code: 0, show_window: false }
                }
            },
            LoopEvent::RedrawRequested => LoopAction::Paint,
            LoopEvent::Painted { keep_running, status } => {
                let ok = match status {
                    PaintStatus::Presented => true,
                    _ => false,
                };
                let show = ok && !self.shown;
                self.shown = self.shown || ok;
                if keep_running && ok {
                    LoopAction::Present { show_window: show }
                } else {
                    self.exit_code = Some(0);
                    LoopAction::Exit { code: 0, show_window: show }
                }
            },
            LoopEvent::CloseRequested => {
                self.exit_code = Some(0);
                LoopAction::Exit { code: 0, show_window: false }
            },
            LoopEvent::Other => LoopAction::Forward,
        }
    }
}

/// The frame clock: the time of the last frame, in nanoseconds of a
/// monotonic clock.
#[derive(Clone, Copy, Debug, PartialEq, Eq, Structural)]
pub struct FrameClock {
    pub last_frame: u64,
}

impl FrameClock {
    pub fn new(now: u64) -> (r: Self)
        ensures
            r.last_frame == now,
    {
        FrameClock { last_frame: now }
    }

    /// Starts a frame at `now` and returns the time since the last one
    /// (zero if `now` lies before it).
    pub fn tick(&mut self, now: u64) -> (delta: u64)
        ensures
            delta == if now >= old(self).last_frame {
                now - old(self).last_frame
            } else {
                0
            },
            final(self).last_frame == now,
    {
        let delta = if now >= self.last_frame {
            now - self.last_frame
        } else {
            0
        };
        self.last_frame = now;
        delta
    }
}

/// The state after the first `i` events of a run, from a fresh loop.
pub open spec fn state_at(events: Seq<LoopEvent>, i: nat) -> FrameLoop
    decreases i,
{
    if i == 0 {
        FrameLoop { shown: false, exit_code: None }
    } else {
        loop_step(state_at(events, (i - 1) as nat), events[i - 1]).0
    }
}

/// The action that the `i`-th event of a run yields.
pub open spec fn action_at(events: Seq<LoopEvent>, i: nat) -> LoopAction {
    loop_step(state_at(events, i), events[i as int]).1
}

/// Whether the `j`-th event is a completed paint reaching a running loop.
pub open spec fn painted_while_running(events: Seq<LoopEvent>, j: nat) -> bool {
    is_good_paint(events[j as int]) && state_at(events, j).exit_code is None
}

proof fn lemma_stopped_stays(events: Seq<LoopEvent>, i: nat, k: nat)
    requires
        i <= k <= events.len(),
        state_at(events, i).exit_code is Some,
    ensures
        state_at(events, k) == state_at(events, i),
    decreases k - i,
{
    if k > i {
        lemma_stopped_stays(events, i, (k - 1) as nat);
    }
}

proof fn lemma_ignored_after(events: Seq<LoopEvent>, i: nat)
    requires
        i < events.len(),
        state_at(events, i + 1).exit_code is Some,
    ensures
        forall|k: nat| i < k < events.len() ==> #[trigger] action_at(events, k) == LoopAction::Ignore,
{
    assert forall|k: nat| i < k < events.len() implies #[trigger] action_at(events, k)
        == LoopAction::Ignore by {
        lemma_stopped_stays(events, i + 1, k);
    }
}

proof fn lemma_shown_iff_painted(events: Seq<LoopEvent>, n: nat)
    requires
        n <= events.len(),
    ensures
        state_at(events, n).shown == (exists|j: nat| j < n && #[trigger] painted_while_running(events, j)),
    decreases n,
{
    if n > 0 {
        let m = (n - 1) as nat;
        lemma_shown_iff_painted(events, m);
        if state_at(events, n).shown {
            if !state_at(events, m).shown {
                assert(painted_while_running(events, m));
            }
        } else {
            assert forall|j: nat| j < n implies !#[trigger] painted_while_running(events, j) by {
                if j < m {
                } else {
                    assert(j == m);
                }
            }
        }
    }
}

/// The window is shown by the `i`-th event exactly when that event is the
/// first completed paint of the running loop: never before a successful
/// paint, and on the first one.
pub proof fn lemma_shown_on_first_paint(events: Seq<LoopEvent>, i: nat)
    requires
        i < events.len(),
    ensures
        shows_window(action_at(events, i)) == (painted_while_running(events, i) && forall|j: nat|
            j < i ==> !#[trigger] painted_while_running(events, j)),
{
    lemma_shown_iff_painted(events, i);
}

/// The window is shown at most once in a run.
pub proof fn lemma_shown_at_most_once(events: Seq<LoopEvent>, i: nat, k: nat)
    requires
        i < k < events.len(),
    ensures
        !(shows_window(action_at(events, i)) && shows_window(action_at(events, k))),
{
    lemma_shown_on_first_paint(events, i);
    lemma_shown_on_first_paint(events, k);
}

/// A close request ends the loop: it exits at once if it was running, and
/// every later event is ignored.
pub proof fn lemma_close_ends_loop(events: Seq<LoopEvent>, i: nat)
    requires
        i < events.len(),
        events[i as int] == LoopEvent::CloseRequested,
    ensures
        state_at(events, i).exit_code is None ==> action_at(events, i) == (LoopAction::Exit {
            code: 0,
            show_window: false,
        }),
        forall|k: nat| i < k < events.len() ==> #[trigger] action_at(events, k) == LoopAction::Ignore,
{
    lemma_ignored_after(events, i);
}

/// An update hook that returns `false` ends the loop cleanly before any
/// redraw is requested: no later event paints or requests a paint.
pub proof fn lemma_update_stop_ends_loop(events: Seq<LoopEvent>, i: nat)
    requires
        i < events.len(),
        events[i as int] == (LoopEvent::UpdateDone { keep_running: false }),
        state_at(events, i).exit_code is None,
    ensures
        action_at(events, i) == (LoopAction::Exit { code: 0, show_window: false }),
        forall|k: nat| i < k < events.len() ==> #[trigger] action_at(events, k) == LoopAction::Ignore,
{
    lemma_ignored_after(events, i);
}

/// A backend failure during a paint ends the loop even though the render
/// hook asked to go on.
pub proof fn lemma_backend_failure_ends_loop(events: Seq<LoopEvent>, i: nat, status: PaintStatus)
    requires
        i < events.len(),
        status != PaintStatus::Presented,
        events[i as int] == (LoopEvent::Painted { keep_running: true, status }),
        state_at(events, i).exit_code is None,
    ensures
        action_at(events, i) == (LoopAction::Exit { code: 0, show_window: false }),
        forall|k: nat| i < k < events.len() ==> #[trigger] action_at(events, k) == LoopAction::Ignore,
{
    lemma_ignored_after(events, i);
}

} // verus!
