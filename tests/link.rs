use drum_midi::drum::{DrumNote, SensorsStatus};
use drum_midi::link::{advertising_data, next_notification, LinkAction, LinkEvent, LinkPhase, LinkState};
use drum_midi::queue::{HitEvent, HitEventQueue};

#[test]
fn advertising_payload_is_bit_exact() {
    let name = b"ESP MIDI Controller";
    let data = advertising_data(name).unwrap();
    let mut expected = vec![0x02, 0x01, 0x06, 0x03, 0x02, 0x0f, 0x18, 20, 0x09];
    expected.extend_from_slice(name);
    assert_eq!(data, expected);
    assert_eq!(data.len(), 28);
}

#[test]
fn advertising_payload_limit() {
    assert_eq!(advertising_data(&[b'a'; 22]).unwrap().len(), 31);
    assert_eq!(advertising_data(&[b'a'; 23]), None);
}

#[test]
fn notification_encodes_oldest_hit() {
    let mut q = HitEventQueue::new();
    assert!(next_notification(&mut q).is_none());
    q.force_send(HitEvent { timestamp_us: 1_000_999, note: DrumNote::BassDrum });
    q.force_send(HitEvent { timestamp_us: 2_000_000, note: DrumNote::Snare });
    let p = next_notification(&mut q).unwrap();
    assert_eq!(p.as_gatt(), &[0x87, 0xE8, 0x99, 36, 100]);
    assert_eq!(q.len(), 1);
}

#[test]
fn link_gated_by_status() {
    let mut q = HitEventQueue::new();
    let mut s = LinkState::new();
    assert_eq!(s.step(LinkEvent::PeerConnected, &mut q), LinkAction::Wait);
    assert_eq!(s.phase, LinkPhase::GatedIdle);
    assert_eq!(s.step(LinkEvent::Status(SensorsStatus::On), &mut q), LinkAction::StartAdvertising);
    assert_eq!(s.phase, LinkPhase::Advertising);
    assert_eq!(s.step(LinkEvent::AdvertisingTimedOut, &mut q), LinkAction::StartAdvertising);
    assert_eq!(s.phase, LinkPhase::Advertising);
}

#[test]
fn connection_clears_stale_hits() {
    let mut q = HitEventQueue::new();
    q.force_send(HitEvent { timestamp_us: 5, note: DrumNote::Snare });
    let mut s = LinkState::new();
    s.step(LinkEvent::Status(SensorsStatus::On), &mut q);
    assert_eq!(q.len(), 1);
    assert_eq!(s.step(LinkEvent::PeerConnected, &mut q), LinkAction::ServeConnection);
    assert_eq!(s.phase, LinkPhase::Connected);
    assert_eq!(q.len(), 0);
}

#[test]
fn sensors_off_during_connection_restarts_from_scratch() {
    let mut q = HitEventQueue::new();
    let mut s = LinkState::new();
    s.step(LinkEvent::Status(SensorsStatus::On), &mut q);
    s.step(LinkEvent::PeerConnected, &mut q);
    assert_eq!(s.step(LinkEvent::Status(SensorsStatus::Off), &mut q), LinkAction::Stop);
    assert_eq!(s.phase, LinkPhase::GatedIdle);
    assert_eq!(s.step(LinkEvent::PeerDisconnected, &mut q), LinkAction::Wait);
    assert_eq!(s.step(LinkEvent::Status(SensorsStatus::On), &mut q), LinkAction::StartAdvertising);
    assert_eq!(s.phase, LinkPhase::Advertising);
}

#[test]
fn disconnect_returns_to_advertising() {
    let mut q = HitEventQueue::new();
    let mut s = LinkState::new();
    s.step(LinkEvent::Status(SensorsStatus::On), &mut q);
    s.step(LinkEvent::PeerConnected, &mut q);
    assert_eq!(s.step(LinkEvent::NotifyFailed, &mut q), LinkAction::StartAdvertising);
    assert_eq!(s.phase, LinkPhase::Advertising);
    s.step(LinkEvent::PeerConnected, &mut q);
    assert_eq!(s.step(LinkEvent::PeerDisconnected, &mut q), LinkAction::StartAdvertising);
}

#[test]
fn advertising_timeout_with_sensors_off_goes_idle() {
    let mut q = HitEventQueue::new();
    let mut s = LinkState { phase: LinkPhase::Advertising, status: SensorsStatus::Off };
    assert_eq!(s.step(LinkEvent::AdvertisingTimedOut, &mut q), LinkAction::Wait);
    assert_eq!(s.phase, LinkPhase::GatedIdle);
}
