use drum_midi::drum::DrumNote;
use drum_midi::queue::{HitEvent, HitEventQueue};

fn hit(t: u64) -> HitEvent {
    HitEvent { timestamp_us: t, note: DrumNote::Snare }
}

#[test]
fn force_send_appends_when_room() {
    let mut q = HitEventQueue::new();
    assert_eq!(q.len(), 0);
    q.force_send(hit(1));
    q.force_send(hit(2));
    assert_eq!(q.len(), 2);
    assert_eq!(q.try_receive(), Some(hit(1)));
    assert_eq!(q.try_receive(), Some(hit(2)));
    assert_eq!(q.try_receive(), None);
}

#[test]
fn force_send_on_full_queue_drops_oldest() {
    let mut q = HitEventQueue::new();
    for t in 0..16 {
        q.force_send(hit(t));
    }
    assert_eq!(q.len(), 16);
    q.force_send(hit(100));
    assert_eq!(q.len(), 16);
    for t in 1..16 {
        assert_eq!(q.try_receive(), Some(hit(t)));
    }
    assert_eq!(q.try_receive(), Some(hit(100)));
    assert_eq!(q.try_receive(), None);
}

#[test]
fn clear_empties_queue() {
    let mut q = HitEventQueue::new();
    q.force_send(hit(1));
    q.clear();
    assert_eq!(q.len(), 0);
    assert_eq!(q.try_receive(), None);
}
