use drum_midi::drum::{DrumNote, SensorsStatus};
use drum_midi::link::{next_notification, LinkAction, LinkEvent, LinkState};
use drum_midi::queue::{HitEvent, HitEventQueue};
use drum_midi::sensors::{SensorAggregate, SensorPhase};

#[test]
fn bank_settles_before_watching() {
    let mut q = HitEventQueue::new();
    let mut agg = SensorAggregate::new(vec![DrumNote::BassDrum], 0);
    assert_eq!(agg.status(), SensorsStatus::Off);
    assert_eq!(agg.sample(0, true, 199_999, &mut q), None);
    assert_eq!(agg.phase, SensorPhase::Settling);
    assert_eq!(agg.sample(0, true, 200_000, &mut q), Some(SensorsStatus::On));
    assert_eq!(agg.status(), SensorsStatus::On);
}

#[test]
fn round_ends_when_last_pad_releases() {
    let mut q = HitEventQueue::new();
    let mut agg = SensorAggregate::new(vec![DrumNote::BassDrum, DrumNote::Snare], 0);
    assert_eq!(agg.sample(0, true, 200_000, &mut q), Some(SensorsStatus::On));
    assert_eq!(agg.sample(0, true, 200_150, &mut q), None);
    assert_eq!(agg.bank.active_count, 1);
    assert_eq!(agg.sample(0, false, 300_000, &mut q), None);
    assert_eq!(agg.sample(0, false, 300_150, &mut q), Some(SensorsStatus::Off));
    assert_eq!(q.len(), 0);
    assert_eq!(agg.phase, SensorPhase::Settling);
    assert_eq!(agg.wake_at, 500_150);
    assert_eq!(agg.sample(1, true, 400_000, &mut q), None);
    assert_eq!(agg.sample(1, true, 500_150, &mut q), Some(SensorsStatus::On));
    assert_eq!(agg.bank.active_count, 0);
    assert!(!agg.bank.pedal_held);
}

#[test]
fn idle_ignores_low_readings() {
    let mut q = HitEventQueue::new();
    let mut agg = SensorAggregate::new(vec![DrumNote::BassDrum], 0);
    assert_eq!(agg.sample(0, false, 300_000, &mut q), None);
    assert_eq!(agg.phase, SensorPhase::Idle);
}

#[test]
fn snare_stroke_reaches_connected_peer() {
    let mut q = HitEventQueue::new();
    let mut link = LinkState::new();
    let mut agg = SensorAggregate::new(vec![DrumNote::BassDrum, DrumNote::Snare], 0);

    // The bank switches on; another pad keeps the round open.
    let on = agg.sample(0, true, 200_000, &mut q).unwrap();
    assert_eq!(on, SensorsStatus::On);
    assert_eq!(agg.sample(0, true, 200_150, &mut q), None);
    assert_eq!(link.step(LinkEvent::Status(on), &mut q), LinkAction::StartAdvertising);
    assert_eq!(link.step(LinkEvent::PeerConnected, &mut q), LinkAction::ServeConnection);

    // Snare: low -> high, held 5 ms, -> low.
    assert_eq!(agg.sample(1, true, 300_000, &mut q), None);
    assert_eq!(agg.sample(1, true, 300_150, &mut q), None);
    assert_eq!(agg.bank.active_count, 2);
    assert_eq!(agg.sample(1, false, 305_000, &mut q), None);
    assert_eq!(agg.sample(1, false, 305_150, &mut q), None);
    assert_eq!(agg.bank.active_count, 1);
    assert_eq!(q.len(), 1);

    let p = next_notification(&mut q).unwrap();
    // 305 ms: header 0x80 | 2, timestamp 0x80 | 49.
    assert_eq!(p.as_gatt(), &[0x82, 0xB1, 0x99, 38, 100]);
    assert_eq!(q.len(), 0);
    assert!(next_notification(&mut q).is_none());
}

#[test]
fn hit_carries_release_time() {
    let mut q = HitEventQueue::new();
    let mut agg = SensorAggregate::new(vec![DrumNote::BassDrum, DrumNote::Snare], 0);
    agg.sample(0, true, 200_000, &mut q);
    agg.sample(0, true, 200_150, &mut q);
    agg.sample(1, true, 300_000, &mut q);
    agg.sample(1, true, 300_150, &mut q);
    agg.sample(1, false, 305_000, &mut q);
    agg.sample(1, false, 305_150, &mut q);
    assert_eq!(q.try_receive(), Some(HitEvent { timestamp_us: 305_150, note: DrumNote::Snare }));
}
