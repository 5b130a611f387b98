//! One reading of the device, as handed from the multiplexer to the tracker.
use vstd::prelude::*;

verus! {

/// What caused a reading.
#[derive(Clone, Copy, Debug, PartialEq, Eq, Structural)]
pub enum SampleSource {
    Poll,
    DigitalTrigger,
}

/// A reading, in millivolts, with the alert conditions it carries.
#[derive(Clone, Copy, Debug, PartialEq, Eq, Structural)]
pub struct Sample {
    pub current: i32,
    pub min: i32,
    pub max: i32,
    pub alert_under: bool,
    pub alert_over: bool,
    pub source: SampleSource,
}

} // verus!
