//! Snapshot of all readable EVO 8 device state.

use vstd::prelude::*;

verus! {

/// Snapshot of all device controls readable via GET_CUR, levels in Q8.8.
/// The MU60 mixer is not here: it is write-only and held in the saved state.
#[derive(Clone, Copy, Debug)]
pub struct DeviceStatus {
    /// Output volume for each pair (index 0 = main, 1 = headphone).
    pub volume_q88: [i16; 2],
    /// Input gain for inputs 1 to 4 (0-indexed).
    pub gain_q88: [i16; 4],
    /// Phantom 48V power state for inputs 1 to 4 (0-indexed).
    pub phantom: [bool; 4],
    /// Input mute state for inputs 1 to 4 (0-indexed).
    pub input_mute: [bool; 4],
    /// Output mute (applies to all output pairs).
    pub output_mute: bool,
}

impl DeviceStatus {
    /// Every level 0 dB, every switch off.
    pub open spec fn is_zero(&self) -> bool {
        &&& self.volume_q88@ == seq![0i16, 0i16]
        &&& self.gain_q88@ == seq![0i16, 0i16, 0i16, 0i16]
        &&& self.phantom@ == seq![false, false, false, false]
        &&& self.input_mute@ == seq![false, false, false, false]
        &&& !self.output_mute
    }
}

impl Default for DeviceStatus {
    fn default() -> (s: DeviceStatus)
        ensures
            s.is_zero(),
    {
        let s = DeviceStatus {
            volume_q88: [0i16; 2],
            gain_q88: [0i16; 4],
            phantom: [false; 4],
            input_mute: [false; 4],
            output_mute: false,
        };
        assert(s.volume_q88@ =~= seq![0i16, 0i16]);
        assert(s.gain_q88@ =~= seq![0i16, 0i16, 0i16, 0i16]);
        assert(s.phantom@ =~= seq![false, false, false, false]);
        assert(s.input_mute@ =~= seq![false, false, false, false]);
        s
    }
}

} // verus!
