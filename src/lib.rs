//! Drum-pad sensing and wireless MIDI delivery: debounce and classification of
//! pad strikes, the bank-wide sensor status, a bounded hit queue, the
//! timestamped MIDI packet codec and the link state machine.

pub mod codec;
pub mod debounce;
pub mod drum;
pub mod link;
pub mod queue;
pub mod sensors;
