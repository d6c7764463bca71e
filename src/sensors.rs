use crate::debounce::{bank_outcome, DrumBank, PadOutcome};
use crate::drum::{DrumNote, SensorsStatus};
use crate::queue::{forced, queued_hits, HitEvent, HitEventQueue};
use vstd::prelude::*;

verus! {

/// Time, in microseconds, that the bank waits before it watches the pads:
/// at start-up, and again after each round, so that contact bounce across
/// the whole bank does not start a new round at once.
pub const REARM_US: u64 = 200000;

/// Where the sensor bank stands between rounds.
#[derive(Copy, Clone, Debug, PartialEq, Eq, Structural)]
pub enum SensorPhase {
    /// Ignoring the pads until `wake_at`.
    Settling,
    /// Waiting for any pad to go high.
    Idle,
    /// A sensor-active round is running.
    Active,
}

/// The sensor aggregate: runs the rounds of the pad bank and says whether
/// the bank is on.
pub struct SensorAggregate {
    pub notes: Vec<DrumNote>,
    pub phase: SensorPhase,
    pub wake_at: u64,
    pub bank: DrumBank,
}

impl SensorAggregate {
    pub open spec fn wf(&self) -> bool {
        &&& self.notes@.len() <= 255
        &&& self.bank.wf()
        &&& self.bank.pads@.len() == self.notes@.len()
    }

    /// The status that the aggregate signals.
    pub open spec fn status_of(phase: SensorPhase) -> SensorsStatus {
        if phase == SensorPhase::Active {
            SensorsStatus::On
        } else {
            SensorsStatus::Off
        }
    }

    /// A bank of pads with these roles, started at time `now`: off, and
    /// settling for the re-arm delay.
    pub fn new(notes: Vec<DrumNote>, now: u64) -> (r: Self)
        requires
            notes@.len() <= 255,
            now <= u64::MAX - REARM_US,
        ensures
            r.wf(),
            r.notes@ == notes@,
            r.phase == SensorPhase::Settling,
            r.wake_at == now + REARM_US,
    {
        let bank = DrumBank::new(&notes);
        SensorAggregate { notes, phase: SensorPhase::Settling, wake_at: now + REARM_US, bank }
    }

    /// The current status of the bank.
    pub fn status(&self) -> (r: SensorsStatus)
        ensures
            r == Self::status_of(self.phase),
    {
        if self.phase == SensorPhase::Active {
            SensorsStatus::On
        } else {
            SensorsStatus::Off
        }
    }

    /// Feeds the raw level of pad `pad` read at time `now`; hits go to
    /// `queue`. Returns the new status when it changes.
    ///
    /// While idle, any pad going high switches the bank on and starts a round
    /// with every pad inactive and the pedal not held. While a round runs, the
    /// reading goes to the round's pad bank; a hit is forced into the queue
    /// with the time of its release; the release of the last active pad
    /// switches the bank off and starts the re-arm delay.
    pub fn sample(&mut self, pad: usize, raw: bool, now: u64, queue: &mut HitEventQueue) -> (r:
        Option<SensorsStatus>)
        requires
            old(self).wf(),
            old(queue).wf(),
            pad < old(self).notes@.len(),
            now <= u64::MAX - REARM_US,
        ensures
            final(self).wf(),
            final(queue).wf(),
            final(self).notes@ == old(self).notes@,
            old(self).phase == SensorPhase::Settling && now < old(self).wake_at ==> {
                &&& r is None
                &&& final(self).phase == SensorPhase::Settling
                &&& queued_hits(*final(queue)) == queued_hits(*old(queue))
            },
            (old(self).phase == SensorPhase::Idle || (old(self).phase == SensorPhase::Settling
                && now >= old(self).wake_at)) ==> {
                &&& raw ==> r == Some(SensorsStatus::On) && final(self).phase == SensorPhase::Active
                    && final(self).bank.active_count == 0 && !final(self).bank.pedal_held
                &&& !raw ==> r is None && final(self).phase == SensorPhase::Idle
                &&& queued_hits(*final(queue)) == queued_hits(*old(queue))
            },
            old(self).phase == SensorPhase::Active ==> {
                let o = bank_outcome(old(self).bank, pad as int, raw, now);
                &&& o == PadOutcome::RoundOver ==> {
                    &&& r == Some(SensorsStatus::Off)
                    &&& final(self).phase == SensorPhase::Settling
                    &&& final(self).wake_at == now + REARM_US
                    &&& queued_hits(*final(queue)) == queued_hits(*old(queue))
                }
                &&& o is Hit ==> {
                    &&& r is None
                    &&& final(self).phase == SensorPhase::Active
                    &&& queued_hits(*final(queue)) == forced(
                        queued_hits(*old(queue)),
                        HitEvent { timestamp_us: now, note: o->Hit_0 },
                    )
                }
                &&& (o is Quiet || o is Rose) ==> {
                    &&& r is None
                    &&& final(self).phase == SensorPhase::Active
                    &&& queued_hits(*final(queue)) == queued_hits(*old(queue))
                }
            },
    {
        if self.phase == SensorPhase::Settling {
            if now < self.wake_at {
                return None;
            }
            self.phase = SensorPhase::Idle;
        }
        if self.phase == SensorPhase::Idle {
            if !raw {
                return None;
            }
            self.bank = DrumBank::new(&self.notes);
            self.phase = SensorPhase::Active;
            let _ = self.bank.sample(pad, raw, now);
            return Some(SensorsStatus::On);
        }
        match self.bank.sample(pad, raw, now) {
            PadOutcome::Hit(note) => {
                queue.force_send(HitEvent { timestamp_us: now, note });
                None
            },
            PadOutcome::RoundOver => {
                self.phase = SensorPhase::Settling;
                self.wake_at = now + REARM_US;
                Some(SensorsStatus::Off)
            },
            _ => None,
        }
    }
}

} // verus!
