//! The shared audio state mutated by every connection's handlers.

use vstd::prelude::*;

use crate::codec::is_number_token;

verus! {

/// The sole persistent entity: whether capture is active, and the signal
/// gain. The gain is kept as the decimal token that arrived on the wire
/// (a well-formed JSON number); the transport layer interprets it as a
/// floating-point value at the boundary, outside the verified core.
#[derive(Debug)]
pub struct AudioState {
    pub rec: bool,
    pub amplitude: String,
}

/// Mathematical model of an [`AudioState`].
pub struct AudioStateView {
    pub rec: bool,
    pub amplitude: Seq<char>,
}

impl View for AudioState {
    type V = AudioStateView;

    open spec fn view(&self) -> AudioStateView {
        AudioStateView { rec: self.rec, amplitude: self.amplitude@ }
    }
}

impl AudioStateView {
    /// Well-formedness: the amplitude is one well-formed JSON number, so
    /// the transport boundary can always interpret it as a float.
    pub open spec fn wf(self) -> bool {
        is_number_token(self.amplitude)
    }
}

impl AudioState {
    /// The defaults: not recording, unit gain.
    pub fn new() -> (s: Self)
        ensures
            s@.rec == false,
            s@.amplitude == "1.0"@,
            s@.wf(),
    {
        let out = AudioState { rec: false, amplitude: "1.0".to_owned() };
        proof {
            reveal_strlit("1.0");
            let t = "1.0"@;
            assert(t.len() == 3 && t[0] == '1' && t[1] == '.' && t[2] == '0');
            assert(crate::codec::spec_scan_digits(t, 2) == 3) by {
                assert(crate::codec::spec_scan_digits(t, 3) == 3);
            };
            assert(crate::codec::spec_scan_digits(t, 0) == 1) by {
                assert(crate::codec::spec_scan_digits(t, 1) == 1);
            };
            assert(crate::codec::spec_number_end(t, 0) == Option::<int>::Some(3));
            assert(is_number_token(t));
        }
        out
    }
}

} // verus!

