use crate::drum::{note_number, DrumNote};
use vstd::prelude::*;

verus! {

/// Minimum time, in microseconds, that a new input level must persist
/// unchanged before it is accepted as a genuine transition.
pub const STABLE_WINDOW_US: u64 = 150;

/// Time, in microseconds, that a pad ignores its input after a hit, to mask
/// the bounce of the sensor on release.
pub const HIT_DEBOUNCE_US: u64 = 30000;

/// Noise filter of one digital input.
///
/// `stable` is the accepted level. `pending_since` holds the time at which the
/// raw input was last seen to leave `stable`, while it has not come back.
#[derive(Copy, Clone, Debug, PartialEq, Eq, Structural)]
pub struct StabilityFilter {
    pub stable: bool,
    pub pending_since: Option<u64>,
}

/// What the filter becomes, and whether it accepts a transition, when the raw
/// input reads `raw` at time `now`.
pub open spec fn filter_step(f: StabilityFilter, raw: bool, now: u64) -> (StabilityFilter, bool) {
    if raw == f.stable {
        (StabilityFilter { stable: f.stable, pending_since: None }, false)
    } else {
        match f.pending_since {
            None => (StabilityFilter { stable: f.stable, pending_since: Some(now) }, false),
            Some(t) => if now - t >= STABLE_WINDOW_US {
                (StabilityFilter { stable: raw, pending_since: None }, true)
            } else {
                (f, false)
            },
        }
    }
}

impl StabilityFilter {
    /// A filter that has accepted `level` and sees nothing pending.
    pub fn new(level: bool) -> (r: Self)
        ensures
            r.stable == level,
            r.pending_since is None,
    {
        StabilityFilter { stable: level, pending_since: None }
    }

    /// Feeds the raw level read at time `now`; returns whether a transition
    /// to `raw` was accepted by this reading.
    pub fn step(&mut self, raw: bool, now: u64) -> (accepted: bool)
        ensures
            (*final(self), accepted) == filter_step(*old(self), raw, now),
            raw == old(self).stable ==> !accepted && final(self).stable == old(self).stable,
            accepted ==> final(self).stable == raw && final(self).stable != old(self).stable,
            !accepted ==> final(self).stable == old(self).stable,
    {
        if raw == self.stable {
            self.pending_since = None;
            false
        } else {
            match self.pending_since {
                None => {
                    self.pending_since = Some(now);
                    false
                },
                Some(t) => {
                    if now >= t && now - t >= STABLE_WINDOW_US {
                        self.stable = raw;
                        self.pending_since = None;
                        true
                    } else {
                        false
                    }
                },
            }
        }
    }
}

/// A level reversal seen before the stability window has elapsed is noise:
/// neither reading is accepted, and the filter keeps its level.
pub proof fn reversal_within_window_is_noise(f: StabilityFilter, t1: u64, t2: u64)
    requires
        f.pending_since is None,
        t2 - t1 < STABLE_WINDOW_US,
    ensures
        ({
            let (f1, a1) = filter_step(f, !f.stable, t1);
            let (f2, a2) = filter_step(f1, f.stable, t2);
            !a1 && !a2 && f1.stable == f.stable && f2.stable == f.stable && f2.pending_since
                is None
        }),
{
}

/// The note a pad emits on release: an open hi-hat struck while the pedal is
/// held counts as a closed hi-hat.
pub open spec fn classify(note: DrumNote, pedal_held: bool) -> DrumNote {
    if note == DrumNote::OpenHiHat && pedal_held {
        DrumNote::ClosedHiHat
    } else {
        note
    }
}

/// Reclassifies the note of a released pad by the hi-hat pedal state.
pub fn classify_release(note: DrumNote, pedal_held: bool) -> (r: DrumNote)
    ensures
        r == classify(note, pedal_held),
        note == DrumNote::OpenHiHat && pedal_held ==> r == DrumNote::ClosedHiHat,
        note == DrumNote::OpenHiHat && !pedal_held ==> r == DrumNote::OpenHiHat,
        note != DrumNote::OpenHiHat ==> r == note,
{
    if note == DrumNote::OpenHiHat && pedal_held {
        DrumNote::ClosedHiHat
    } else {
        note
    }
}

/// How many of the levels are high.
pub open spec fn high_count(s: Seq<bool>) -> nat
    decreases s.len(),
{
    if s.len() == 0 {
        0
    } else {
        high_count(s.drop_last()) + if s.last() {
            1nat
        } else {
            0nat
        }
    }
}

proof fn lemma_high_count_update(s: Seq<bool>, i: int, b: bool)
    requires
        0 <= i < s.len(),
    ensures
        high_count(s.update(i, b)) + (if s[i] {
            1int
        } else {
            0int
        }) == high_count(s) + (if b {
            1int
        } else {
            0int
        }),
    decreases s.len(),
{
    let u = s.update(i, b);
    if i == s.len() - 1 {
        assert(u.drop_last() =~= s.drop_last());
    } else {
        assert(u.drop_last() =~= s.drop_last().update(i, b));
        lemma_high_count_update(s.drop_last(), i, b);
    }
}

proof fn lemma_high_count_bound(s: Seq<bool>)
    ensures
        high_count(s) <= s.len(),
    decreases s.len(),
{
    if s.len() > 0 {
        lemma_high_count_bound(s.drop_last());
    }
}

proof fn lemma_high_count_all_low(s: Seq<bool>)
    requires
        forall|i: int| 0 <= i < s.len() ==> !s[i],
    ensures
        high_count(s) == 0,
    decreases s.len(),
{
    if s.len() > 0 {
        lemma_high_count_all_low(s.drop_last());
    }
}


/// The monitor of one pad within a sensor-active round.
#[derive(Copy, Clone, Debug, PartialEq, Eq, Structural)]
pub struct PadMonitor {
    pub note: DrumNote,
    pub filter: StabilityFilter,
    /// The pad ignores its input before this time (hit debounce).
    pub hold_until: u64,
}

/// What one reading of a pad's input brought about.
#[derive(Copy, Clone, Debug, PartialEq, Eq, Structural)]
pub enum PadOutcome {
    /// No accepted transition.
    Quiet,
    /// The pad became stable-high.
    Rose,
    /// The pad was released and struck this note.
    Hit(DrumNote),
    /// The last active pad was released: the round is over.
    RoundOver,
}

/// The accepted levels of the pads.
pub open spec fn levels(pads: Seq<PadMonitor>) -> Seq<bool> {
    pads.map_values(|p: PadMonitor| p.filter.stable)
}

/// The state shared by the pads of one sensor-active round: each pad's
/// monitor, the number of pads currently stable-high and whether the hi-hat
/// pedal is held.
pub struct DrumBank {
    pub pads: Vec<PadMonitor>,
    pub active_count: u8,
    pub pedal_held: bool,
}

/// What one reading of pad `pad`'s input brings about in a bank.
pub open spec fn bank_outcome(b: DrumBank, pad: int, raw: bool, now: u64) -> PadOutcome {
    let p = b.pads@[pad];
    let accepted = filter_step(p.filter, raw, now).1;
    if now < p.hold_until || !accepted {
        PadOutcome::Quiet
    } else if raw {
        PadOutcome::Rose
    } else if b.active_count == 1 {
        PadOutcome::RoundOver
    } else {
        PadOutcome::Hit(classify(p.note, p.note == DrumNote::PedalHiHat || b.pedal_held))
    }
}

impl DrumBank {
    /// The active count is exactly the number of stable-high pads.
    pub open spec fn wf(&self) -> bool {
        &&& self.pads@.len() <= 255
        &&& self.active_count as nat == high_count(levels(self.pads@))
    }

    /// A fresh round: every pad low and free, no pad active, pedal not held.
    pub fn new(notes: &Vec<DrumNote>) -> (r: Self)
        requires
            notes@.len() <= 255,
        ensures
            r.wf(),
            r.active_count == 0,
            !r.pedal_held,
            r.pads@.len() == notes@.len(),
            forall|i: int|
                0 <= i < notes@.len() ==> (#[trigger] r.pads@[i]) == (PadMonitor {
                    note: notes@[i],
                    filter: StabilityFilter { stable: false, pending_since: None },
                    hold_until: 0,
                }),
    {
        let mut pads: Vec<PadMonitor> = Vec::new();
        let mut i: usize = 0;
        while i < notes.len()
            invariant
                i <= notes@.len(),
                pads@.len() == i,
                forall|j: int|
                    0 <= j < i ==> (#[trigger] pads@[j]) == (PadMonitor {
                        note: notes@[j],
                        filter: StabilityFilter { stable: false, pending_since: None },
                        hold_until: 0,
                    }),
            decreases notes@.len() - i,
        {
            pads.push(
                PadMonitor { note: notes[i], filter: StabilityFilter::new(false), hold_until: 0 },
            );
            i = i + 1;
        }
        proof {
            lemma_high_count_all_low(levels(pads@));
        }
        DrumBank { pads, active_count: 0, pedal_held: false }
    }

    /// Feeds the raw level of pad `pad` read at time `now`.
    ///
    /// An accepted rise makes the pad active (and releases the hi-hat pedal
    /// when the pad is the pedal). An accepted fall makes it inactive; when it
    /// was the last active pad the round is over, otherwise the pad strikes
    /// its note (a closed hi-hat for the open hi-hat while the pedal is held)
    /// and then ignores its input for the hit debounce time.
    pub fn sample(&mut self, pad: usize, raw: bool, now: u64) -> (r: PadOutcome)
        requires
            old(self).wf(),
            pad < old(self).pads@.len(),
            now <= u64::MAX - HIT_DEBOUNCE_US,
        ensures
            final(self).wf(),
            r == bank_outcome(*old(self), pad as int, raw, now),
            final(self).pads@.len() == old(self).pads@.len(),
            forall|j: int|
                0 <= j < old(self).pads@.len() && j != pad ==> final(self).pads@[j]
                    == old(self).pads@[j],
            final(self).pads@[pad as int].note == old(self).pads@[pad as int].note,
            now < old(self).pads@[pad as int].hold_until ==> {
                &&& r == PadOutcome::Quiet
                &&& final(self).pads@ == old(self).pads@
                &&& final(self).active_count == old(self).active_count
                &&& final(self).pedal_held == old(self).pedal_held
            },
            ({
                let p = old(self).pads@[pad as int];
                let (f, accepted) = filter_step(p.filter, raw, now);
                let pedal = p.note == DrumNote::PedalHiHat || old(self).pedal_held;
                now >= p.hold_until ==> {
                    &&& final(self).pads@[pad as int].filter == f
                    &&& !accepted ==> {
                        &&& r == PadOutcome::Quiet
                        &&& final(self).active_count == old(self).active_count
                        &&& final(self).pedal_held == old(self).pedal_held
                        &&& final(self).pads@[pad as int].hold_until == p.hold_until
                    }
                    &&& accepted && raw ==> {
                        &&& r == PadOutcome::Rose
                        &&& final(self).active_count == old(self).active_count + 1
                        &&& final(self).pedal_held == (p.note != DrumNote::PedalHiHat
                            && old(self).pedal_held)
                        &&& final(self).pads@[pad as int].hold_until == p.hold_until
                    }
                    &&& accepted && !raw && old(self).active_count == 1 ==> {
                        &&& r == PadOutcome::RoundOver
                        &&& final(self).active_count == 0
                        &&& final(self).pedal_held == old(self).pedal_held
                        &&& final(self).pads@[pad as int].hold_until == p.hold_until
                    }
                    &&& accepted && !raw && old(self).active_count != 1 ==> {
                        &&& r == PadOutcome::Hit(classify(p.note, pedal))
                        &&& final(self).active_count == old(self).active_count - 1
                        &&& final(self).pedal_held == pedal
                        &&& final(self).pads@[pad as int].hold_until == now + HIT_DEBOUNCE_US
                    }
                }
            }),
    {
        let mut p = self.pads[pad];
        if now < p.hold_until {
            return PadOutcome::Quiet;
        }
        let ghost old_levels = levels(self.pads@);
        let was_high = p.filter.stable;
        let accepted = p.filter.step(raw, now);
        if !accepted {
            self.pads.set(pad, p);
            assert(levels(self.pads@) =~= old_levels);
            return PadOutcome::Quiet;
        }
        proof {
            lemma_high_count_update(old_levels, pad as int, raw);
            lemma_high_count_bound(old_levels.update(pad as int, raw));
        }
        if raw {
            self.pads.set(pad, p);
            assert(levels(self.pads@) =~= old_levels.update(pad as int, raw));
            self.active_count = self.active_count + 1;
            if p.note == DrumNote::PedalHiHat {
                self.pedal_held = false;
            }
            PadOutcome::Rose
        } else {
            assert(was_high);
            self.active_count = self.active_count - 1;
            if self.active_count == 0 {
                self.pads.set(pad, p);
                assert(levels(self.pads@) =~= old_levels.update(pad as int, raw));
                return PadOutcome::RoundOver;
            }
            if p.note == DrumNote::PedalHiHat {
                self.pedal_held = true;
            }
            let note = classify_release(p.note, self.pedal_held);
            p.hold_until = now + HIT_DEBOUNCE_US;
            self.pads.set(pad, p);
            assert(levels(self.pads@) =~= old_levels.update(pad as int, raw));
            PadOutcome::Hit(note)
        }
    }
}

} // verus!
