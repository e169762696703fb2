use vstd::prelude::*;

verus! {

/// Waveform of the chorus modulation.
#[derive(Debug, Clone, Copy, PartialEq, Eq, Hash, Structural)]
pub enum ChorusMode {
    Sine,
    Triangle,
}

impl Default for ChorusMode {
    fn default() -> (r: Self)
        ensures
            r == ChorusMode::Sine,
    {
        ChorusMode::Sine
    }
}

/// Most delay lines the chorus runs.
pub const MAX_CHORUS: i32 = 99;

/// The number of chorus delay lines the chorus uses when `nr` is asked for:
/// negative numbers become 0, numbers above 99 become 99.
pub fn chorus_number_blocks(nr: i32) -> (r: i32)
    ensures
        r == (if nr < 0 { 0 } else if nr > 99 { 99 } else { nr }),
{
    if nr < 0 {
        0
    } else if nr > MAX_CHORUS {
        MAX_CHORUS
    } else {
        nr
    }
}

} // verus!
