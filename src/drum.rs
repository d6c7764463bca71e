use vstd::prelude::*;

verus! {

/// The role of one pad, which fixes the MIDI note it plays.
#[derive(Copy, Clone, Debug, PartialEq, Eq, Structural)]
pub enum DrumNote {
    BassDrum,
    Snare,
    ClosedHiHat,
    PedalHiHat,
    OpenHiHat,
    FloorTom,
    LowTom,
    HighTom,
    CrashCymbal1,
    CrashCymbal2,
    RideCymbal,
}

/// The MIDI note number of each role (General MIDI percussion map).
pub open spec fn note_number(n: DrumNote) -> u8 {
    match n {
        DrumNote::BassDrum => 36,
        DrumNote::Snare => 38,
        DrumNote::ClosedHiHat => 42,
        DrumNote::PedalHiHat => 44,
        DrumNote::OpenHiHat => 46,
        DrumNote::FloorTom => 43,
        DrumNote::LowTom => 45,
        DrumNote::HighTom => 48,
        DrumNote::CrashCymbal1 => 49,
        DrumNote::CrashCymbal2 => 57,
        DrumNote::RideCymbal => 51,
    }
}

impl DrumNote {
    /// The MIDI note number that this role plays.
    pub fn midi_note(self) -> (r: u8)
        ensures
            r == note_number(self),
            r < 128,
    {
        match self {
            DrumNote::BassDrum => 36,
            DrumNote::Snare => 38,
            DrumNote::ClosedHiHat => 42,
            DrumNote::PedalHiHat => 44,
            DrumNote::OpenHiHat => 46,
            DrumNote::FloorTom => 43,
            DrumNote::LowTom => 45,
            DrumNote::HighTom => 48,
            DrumNote::CrashCymbal1 => 49,
            DrumNote::CrashCymbal2 => 57,
            DrumNote::RideCymbal => 51,
        }
    }
}

/// Whether the sensor bank as a whole is active.
#[derive(Copy, Clone, Debug, PartialEq, Eq, Structural)]
pub enum SensorsStatus {
    On,
    Off,
}

} // verus!
