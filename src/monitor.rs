//! The monitor loop's decisions: from what the bus receiver reported to the
//! next tracker state and what to do on the display.
use vstd::prelude::*;

use crate::frame::{Frame, FrameId, Measurement, decode, decoded, is_telemetry};
use crate::text::{status_line, status_text};
use crate::tracker::StatusTracker;

verus! {

/// What one non-blocking poll of the bus receiver reported.
#[derive(Clone, Debug)]
pub enum ReceiveOutcome {
    /// A frame passed the receiver's filter.
    Frame(Frame),
    /// Nothing was pending.
    NoFrameAvailable,
    /// The peripheral reported a bus-level fault; the frame is lost.
    BusError,
}

/// What the loop does after one poll.
#[derive(Clone, Debug)]
pub enum Action {
    /// Nothing: poll again.
    Idle,
    /// Emit a diagnostic for a bus fault, then poll again.
    ReportBusError,
    /// Render `text`, the status line of `measurement`, then poll again.
    Render { measurement: Measurement, text: String },
}

/// The measurement one poll renders, if any: a frame that decodes to a
/// measurement that differs from the last rendered one.
pub open spec fn rendered_by(t: StatusTracker, o: ReceiveOutcome) -> Option<Measurement> {
    match o {
        ReceiveOutcome::Frame(f) => match decoded(&f) {
            Some(m) => if t.wants(m) { Some(m) } else { None },
            None => None,
        },
        _ => None,
    }
}

/// The tracker after one poll: it records exactly what was rendered.
pub open spec fn tracker_after(t: StatusTracker, o: ReceiveOutcome) -> StatusTracker {
    match rendered_by(t, o) {
        Some(m) => t.accepted(m),
        None => t,
    }
}

/// The action for one poll, given the measurement it renders.
pub open spec fn action_for(t: StatusTracker, o: ReceiveOutcome, a: Action) -> bool {
    match rendered_by(t, o) {
        Some(m) => a matches Action::Render { measurement, text }
            && measurement == m && text@ == status_line(m),
        None => if o is BusError { a is ReportBusError } else { a is Idle },
    }
}

/// The state of the monitor loop once its display and bus receiver run.
#[derive(Clone, Debug)]
pub struct Monitor {
    pub tracker: StatusTracker,
}

impl Monitor {
    /// A monitor that has rendered no measurement yet.
    pub fn new() -> (r: Monitor)
        ensures
            r.tracker.last.is_none(),
    {
        Monitor { tracker: StatusTracker::new() }
    }

    /// The text shown once the bus receiver has started.
    pub fn started_text() -> (r: String)
        ensures
            r@ == "Started TWAI"@,
    {
        String::from_str("Started TWAI")
    }

    /// Decides one iteration of the loop: a telemetry frame whose measurement
    /// differs from the last rendered one is rendered and recorded; a bus
    /// fault is reported; anything else leaves the state as it was. A failed
    /// render ends the loop, so the measurement is recorded here.
    pub fn step(&mut self, outcome: ReceiveOutcome) -> (a: Action)
        ensures
            final(self).tracker == tracker_after(old(self).tracker, outcome),
            action_for(old(self).tracker, outcome, a),
    {
        match outcome {
            ReceiveOutcome::Frame(frame) => match decode(&frame) {
                Some(m) => {
                    if self.tracker.should_update(m) {
                        self.tracker.accept(m);
                        Action::Render { measurement: m, text: status_text(m) }
                    } else {
                        Action::Idle
                    }
                },
                None => Action::Idle,
            },
            ReceiveOutcome::NoFrameAvailable => Action::Idle,
            ReceiveOutcome::BusError => Action::ReportBusError,
        }
    }
}

/// A bus fault leaves the tracker as it was and renders nothing.
pub proof fn lemma_bus_error_changes_nothing(t: StatusTracker)
    ensures
        rendered_by(t, ReceiveOutcome::BusError).is_none(),
        tracker_after(t, ReceiveOutcome::BusError) == t,
{
}

/// A frame outside the family, standard or extended, is not telemetry and
/// renders nothing, whatever its payload.
pub proof fn lemma_foreign_frame_renders_nothing(t: StatusTracker, f: Frame)
    requires
        !is_telemetry(&f),
    ensures
        rendered_by(t, ReceiveOutcome::Frame(f)).is_none(),
        tracker_after(t, ReceiveOutcome::Frame(f)) == t,
{
}

/// A standard frame with identifier 0x301 is not telemetry and renders
/// nothing, whatever its payload.
pub proof fn lemma_id_0x301_renders_nothing(t: StatusTracker, f: Frame)
    requires
        f.id == FrameId::Standard(0x301),
    ensures
        !is_telemetry(&f),
        rendered_by(t, ReceiveOutcome::Frame(f)).is_none(),
        tracker_after(t, ReceiveOutcome::Frame(f)) == t,
{
    assert(!crate::frame::frame_id_family().contains(0x301u16));
}

/// The same frame twice in a row renders at most once: the second poll
/// finds its measurement already rendered.
pub proof fn lemma_duplicate_frame_renders_once(t: StatusTracker, f: Frame)
    ensures
        rendered_by(tracker_after(t, ReceiveOutcome::Frame(f)), ReceiveOutcome::Frame(f)).is_none(),
{
}

/// A poll renders a measurement exactly when it decodes one that differs
/// from the last rendered one, and the tracker then holds it: the tracker
/// always holds the most recently rendered measurement.
pub proof fn lemma_tracker_holds_last_render(t: StatusTracker, o: ReceiveOutcome)
    ensures
        rendered_by(t, o) matches Some(m) ==> tracker_after(t, o).last == Some(m),
        rendered_by(t, o).is_none() ==> tracker_after(t, o) == t,
{
}

} // verus!
