use vstd::prelude::*;
use crate::style::{ExStyle, input_bits};

verus! {

/// What one sample of the desired capture state did to the tracker.
#[derive(Clone, Copy, Debug, PartialEq, Eq, Structural)]
pub enum ActivationChange {
    /// The desired state equals the current one: no OS call is due.
    Unchanged,
    /// The overlay now accepts input: clear the input bits, then make the
    /// overlay the active window.
    Activated,
    /// The overlay no longer accepts input: set the input bits.
    Deactivated,
}

/// The overlay wants input when the UI asks to capture the mouse or the
/// keyboard.
pub open spec fn wants_input(want_capture_mouse: bool, want_capture_keyboard: bool) -> bool {
    want_capture_mouse || want_capture_keyboard
}

/// One transition of the two-state machine: the new activation state and
/// the change it reports.
pub open spec fn activation_step(active: bool, desired: bool) -> (bool, ActivationChange) {
    if desired == active {
        (active, ActivationChange::Unchanged)
    } else if desired {
        (true, ActivationChange::Activated)
    } else {
        (false, ActivationChange::Deactivated)
    }
}

/// Tracks whether the overlay currently accepts input, so that the window
/// style is only touched when the UI's wish changes.
#[derive(Clone, Copy, Debug, PartialEq, Eq, Structural)]
pub struct OverlayActiveTracker {
    pub currently_active: bool,
}

impl OverlayActiveTracker {
    /// A tracker for a freshly created, click-through overlay.
    pub fn new() -> (r: Self)
        ensures
            !r.currently_active,
    {
        Self { currently_active: false }
    }

    /// Samples the UI's capture requests for this frame.
    pub fn update(&mut self, want_capture_mouse: bool, want_capture_keyboard: bool) -> (r:
        ActivationChange)
        ensures
            (final(self).currently_active, r) == activation_step(
                old(self).currently_active,
                wants_input(want_capture_mouse, want_capture_keyboard),
            ),
            final(self).currently_active == wants_input(want_capture_mouse, want_capture_keyboard),
            (r == ActivationChange::Unchanged) == (old(self).currently_active == wants_input(
                want_capture_mouse,
                want_capture_keyboard,
            )),
    {
        let desired = want_capture_mouse || want_capture_keyboard;
        if desired == self.currently_active {
            return ActivationChange::Unchanged;
        }
        self.currently_active = desired;
        if desired {
            ActivationChange::Activated
        } else {
            ActivationChange::Deactivated
        }
    }
}

impl ActivationChange {
    /// The extended style to write for this change, given the current one;
    /// `None` when no OS call is due.
    pub fn target_style(self, current: ExStyle) -> (r: Option<ExStyle>)
        ensures
            self == ActivationChange::Unchanged ==> r is None,
            self == ActivationChange::Activated ==> r == Some(
                ExStyle { bits: input_bits(current.bits, true) },
            ),
            self == ActivationChange::Deactivated ==> r == Some(
                ExStyle { bits: input_bits(current.bits, false) },
            ),
    {
        match self {
            ActivationChange::Unchanged => None,
            ActivationChange::Activated => Some(current.with_input(true)),
            ActivationChange::Deactivated => Some(current.with_input(false)),
        }
    }

    /// Whether the overlay must be made the active window after the style
    /// is written.
    pub fn takes_focus(self) -> (r: bool)
        ensures
            r == (self == ActivationChange::Activated),
    {
        match self {
            ActivationChange::Activated => true,
            _ => false,
        }
    }
}

/// The activation state after a fresh tracker has seen `samples`, in order.
pub open spec fn active_after(samples: Seq<bool>) -> bool
    decreases samples.len(),
{
    if samples.len() == 0 {
        false
    } else {
        activation_step(active_after(samples.drop_last()), samples.last()).0
    }
}

/// How many of those samples reported a change, that is, caused a style
/// write.
pub open spec fn style_writes(samples: Seq<bool>) -> nat
    decreases samples.len(),
{
    if samples.len() == 0 {
        0
    } else {
        let change = activation_step(active_after(samples.drop_last()), samples.last()).1;
        style_writes(samples.drop_last()) + if change != ActivationChange::Unchanged {
            1nat
        } else {
            0nat
        }
    }
}

/// The value before the last sample: the one before it, or the initial
/// `false`.
pub open spec fn previous_sample(samples: Seq<bool>) -> bool {
    if samples.len() >= 2 {
        samples[samples.len() - 2]
    } else {
        false
    }
}

/// How many samples differ from the value before them.
pub open spec fn value_changes(samples: Seq<bool>) -> nat
    decreases samples.len(),
{
    if samples.len() == 0 {
        0
    } else {
        value_changes(samples.drop_last()) + if samples.last() != previous_sample(samples) {
            1nat
        } else {
            0nat
        }
    }
}

/// For every sequence of sampled capture wishes, the tracker's state is the
/// last sample (or `false` before any), and the style is written exactly
/// once per change of the sampled value, never on a repeat.
pub proof fn lemma_tracker_follows_samples(samples: Seq<bool>)
    ensures
        active_after(samples) == if samples.len() == 0 {
            false
        } else {
            samples.last()
        },
        style_writes(samples) == value_changes(samples),
    decreases samples.len(),
{
    if samples.len() > 0 {
        let init = samples.drop_last();
        lemma_tracker_follows_samples(init);
        if samples.len() >= 2 {
            assert(init.last() == samples[samples.len() - 2]);
        }
    }
}

/// Sampling the same wish twice in a row: the second sample changes
/// nothing and asks for no OS call.
pub proof fn lemma_update_idempotent(active: bool, desired: bool)
    ensures
        activation_step(activation_step(active, desired).0, desired) == (
            activation_step(active, desired).0,
            ActivationChange::Unchanged,
        ),
{
}

} // verus!
