use vstd::prelude::*;
use crate::integration::{event_step, Integration, IntegrationView, NiriEvent, VibrationPlan};

verus! {

/// What the event loop does after reading from the niri event stream.
#[derive(Debug, Clone, Copy, PartialEq, Eq)]
pub enum StreamStep {
    /// Keep reading; run the vibration, if any.
    Continue(Option<VibrationPlan>),
    /// Leave the loop: an exit was asked for.
    Stop,
}

/// One turn of the event loop: a failed read (`None`) is passed over; an
/// event read after `exit` stops the loop untouched; any other event is
/// answered.
pub open spec fn stream_step(s: IntegrationView, event: Option<NiriEvent>, connected: bool) -> (
    IntegrationView,
    StreamStep,
) {
    match event {
        None => (s, StreamStep::Continue(None)),
        Some(e) => if s.quit_flag {
            (s, StreamStep::Stop)
        } else {
            (event_step(s, e, connected).0, StreamStep::Continue(event_step(s, e, connected).1))
        },
    }
}

/// Handles what one read of the niri event stream gave.
pub fn loop_stream_step(
    integration: &mut Integration,
    event: Option<NiriEvent>,
    connected: bool,
) -> (r: StreamStep)
    ensures
        (final(integration)@, r) == stream_step(old(integration)@, event, connected),
        !old(integration)@.quit_flag ==> !(r is Stop),
        event is None ==> r == StreamStep::Continue(None),
{
    match event {
        None => StreamStep::Continue(None),
        Some(e) => {
            if integration.quit_requested() {
                return StreamStep::Stop;
            }
            StreamStep::Continue(integration.event_to_integration(e, connected))
        },
    }
}

/// After `exit`, the event loop stops at the next event it reads, and
/// leaves the state as it was.
pub proof fn law_exit_stops_at_next_event(s: IntegrationView, e: NiriEvent, connected: bool)
    ensures
        ({
            let exited = IntegrationView { quit_flag: true, ..s };
            stream_step(exited, Some(e), connected) == (exited, StreamStep::Stop)
        }),
{
}

/// The loop stops only after `exit`: before it, every event read is
/// answered as `event_step` answers it and the loop goes on; a failed read
/// changes nothing.
pub proof fn law_loop_stops_only_after_exit(
    s: IntegrationView,
    event: Option<NiriEvent>,
    connected: bool,
)
    ensures
        !s.quit_flag ==> !(stream_step(s, event, connected).1 is Stop),
        !s.quit_flag ==> (event matches Some(e) ==> stream_step(s, event, connected) == (
            event_step(s, e, connected).0,
            StreamStep::Continue(event_step(s, e, connected).1),
        )),
        event is None ==> stream_step(s, event, connected) == (s, StreamStep::Continue(None)),
{
}

} // verus!
