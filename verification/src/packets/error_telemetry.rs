//! Free-text error reports from a robot.

use vstd::prelude::*;

verus! {

/// An error report: a timestamp and a fixed-size message buffer.
#[derive(Clone, Copy, Debug)]
pub struct ErrorTelemetry {
    pub timestamp: u32,
    pub error_message: [u8; 60],
}

impl Default for ErrorTelemetry {
    /// A report at time zero with an all-zero message.
    fn default() -> (r: Self)
        ensures
            r.timestamp == 0,
            forall|i: int| 0 <= i < 60 ==> r.error_message[i] == 0,
    {
        Self { timestamp: 0, error_message: [0u8; 60] }
    }
}

} // verus!
