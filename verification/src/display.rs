//! The message bus, seen from the consumer that shows what was published.

use vstd::prelude::*;

verus! {

/// The number of published lines that the bus holds for a slow consumer
/// before it drops the oldest.
pub const BUS_CAPACITY: usize = 100;

/// What a consumer gets from the bus.
#[derive(Debug)]
pub enum BusEvent {
    /// A line that was published.
    Message(String),
    /// The consumer fell behind and this many lines were dropped for it.
    Lagged(u64),
    /// Every producer is gone.
    Closed,
}

/// What the consumer does next.
#[derive(Debug)]
pub enum DisplayStep {
    /// Show this line, then take the next event.
    Show(String),
    /// Take the next event.
    Skip,
    /// Leave the loop.
    Stop,
}

/// Decides what the display does about one event from the bus: a line is
/// shown as it is, a lag is passed over, and the end of the bus ends the
/// display.
pub fn start_message_display(event: BusEvent) -> (step: DisplayStep)
    ensures
        match event {
            BusEvent::Message(line) => step matches DisplayStep::Show(shown) && shown@ == line@,
            BusEvent::Lagged(_) => step is Skip,
            BusEvent::Closed => step is Stop,
        },
{
    match event {
        BusEvent::Message(line) => DisplayStep::Show(line),
        BusEvent::Lagged(_) => DisplayStep::Skip,
        BusEvent::Closed => DisplayStep::Stop,
    }
}

} // verus!
