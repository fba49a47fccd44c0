use vstd::prelude::*;

use crate::datetime::DateTime;

verus! {

/// What the real-time clock reported at startup, handed to the renderer before the message
/// bus runs.
#[derive(Clone, Copy, Debug)]
pub struct FastTrackRtcData {
    pub now: Option<DateTime>,
    pub alarm_status: bool,
}

} // verus!
