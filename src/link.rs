use crate::codec::{note_on_bytes, packet_bytes, BleMidiPacket};
use crate::drum::{note_number, SensorsStatus};
use crate::queue::{queued_hits, HitEventQueue};
use trouble_host::advertise::AdStructure;
use vstd::prelude::*;

verus! {

/// MIDI channel of the notes sent (channel 10, numbered from 0).
pub const MIDI_CHANNEL: u8 = 9;

/// Velocity of every note sent.
pub const MIDI_VELOCITY: u8 = 100;

/// Capacity of a notification packet.
pub const NOTIFY_CAP: usize = 5;

/// Advertising flags: LE general discoverable, BR/EDR not supported.
pub const ADV_FLAGS: u8 = 0x06;

/// The 16-bit service UUID advertised, little-endian.
pub const ADV_SERVICE_UUID16: [u8; 2] = [0x0f, 0x18];

/// Largest legacy advertising payload.
pub const ADV_DATA_CAP: usize = 31;

/// The advertising payload: a flags structure, an incomplete list of one
/// 16-bit service UUID and the complete local name.
pub open spec fn adv_payload(flags: u8, uuid: [u8; 2], name: Seq<u8>) -> Seq<u8> {
    seq![0x02u8, 0x01u8, flags, 0x03u8, 0x02u8, uuid@[0], uuid@[1], (name.len() + 1) as u8, 0x09u8]
        + name
}

/// Relies on trouble_host's `AdStructure::encode_slice` for `Flags`,
/// `IncompleteServiceUuids16` with one UUID and `CompleteLocalName`: each
/// structure is its length, its type and its data, appended in order into a
/// buffer of 31 bytes, and the call fails when they do not fit.
#[verifier::external_body]
fn encode_adv_data(flags: u8, uuid: [u8; 2], name: &[u8]) -> (r: Option<Vec<u8>>)
    ensures
        r is Some == (9 + name@.len() <= ADV_DATA_CAP),
        r is Some ==> r->Some_0@ == adv_payload(flags, uuid, name@),
{
    let mut buf = [0u8; 31];
    let data = [
        AdStructure::Flags(flags),
        AdStructure::IncompleteServiceUuids16(&[uuid]),
        AdStructure::CompleteLocalName(name),
    ];
    match AdStructure::encode_slice(&data, &mut buf) {
        Ok(n) => Some(buf[..n].to_vec()),
        Err(_) => None,
    }
}

/// The advertising payload for a device of this name, or `None` when it
/// does not fit in 31 bytes.
pub fn advertising_data(name: &[u8]) -> (r: Option<Vec<u8>>)
    ensures
        r is Some == (name@.len() <= 22),
        r is Some ==> r->Some_0@ == adv_payload(ADV_FLAGS, ADV_SERVICE_UUID16, name@),
{
    encode_adv_data(ADV_FLAGS, ADV_SERVICE_UUID16, name)
}

/// The millisecond timestamp that a hit carries on the wire.
pub open spec fn wire_millis(timestamp_us: u64) -> u16 {
    (timestamp_us / 1000) as u16
}

/// Takes the oldest hit from the queue and encodes it as a Note-On packet on
/// channel 10 with velocity 100; `None` when the queue is empty.
pub fn next_notification(queue: &mut HitEventQueue) -> (r: Option<BleMidiPacket<NOTIFY_CAP>>)
    requires
        old(queue).wf(),
    ensures
        final(queue).wf(),
        queued_hits(*old(queue)).len() == 0 ==> r is None && queued_hits(*final(queue))
            == queued_hits(*old(queue)),
        queued_hits(*old(queue)).len() > 0 ==> {
            let h = queued_hits(*old(queue))[0];
            &&& r is Some
            &&& r->Some_0@ == packet_bytes(
                wire_millis(h.timestamp_us),
                note_on_bytes(MIDI_CHANNEL, note_number(h.note), MIDI_VELOCITY),
            )
            &&& queued_hits(*final(queue)) == queued_hits(*old(queue)).drop_first()
        },
{
    match queue.try_receive() {
        None => None,
        Some(hit) => {
            let millis = (hit.timestamp_us / 1000) as u16;
            Some(
                BleMidiPacket::note_on(millis, MIDI_CHANNEL, hit.note.midi_note(), MIDI_VELOCITY),
            )
        },
    }
}

/// Where the link stands.
#[derive(Copy, Clone, Debug, PartialEq, Eq, Structural)]
pub enum LinkPhase {
    /// The sensors are off: no advertising, no connection.
    GatedIdle,
    /// Advertising, waiting for a peer.
    Advertising,
    /// Serving one connected peer.
    Connected,
}

/// What happened to the link.
#[derive(Copy, Clone, Debug, PartialEq, Eq, Structural)]
pub enum LinkEvent {
    /// The sensor bank reported this status.
    Status(SensorsStatus),
    /// No peer connected within the advertising window.
    AdvertisingTimedOut,
    /// A peer connected.
    PeerConnected,
    /// The peer disconnected.
    PeerDisconnected,
    /// A notification to the peer failed.
    NotifyFailed,
}

/// What the radio side is to do next.
#[derive(Copy, Clone, Debug, PartialEq, Eq, Structural)]
pub enum LinkAction {
    /// Nothing changes.
    Wait,
    /// Start a new advertising cycle.
    StartAdvertising,
    /// Serve the new connection: watch for its end and send the hits.
    ServeConnection,
    /// Abandon any advertising or connection.
    Stop,
}

/// The link manager's state: its phase and the latest sensor status.
#[derive(Copy, Clone, Debug, PartialEq, Eq, Structural)]
pub struct LinkState {
    pub phase: LinkPhase,
    pub status: SensorsStatus,
}

/// The next state and action of the link manager on an event.
pub open spec fn link_next(s: LinkState, e: LinkEvent) -> (LinkState, LinkAction) {
    match e {
        LinkEvent::Status(SensorsStatus::Off) => if s.phase == LinkPhase::GatedIdle {
            (LinkState { phase: LinkPhase::GatedIdle, status: SensorsStatus::Off }, LinkAction::Wait)
        } else {
            (LinkState { phase: LinkPhase::GatedIdle, status: SensorsStatus::Off }, LinkAction::Stop)
        },
        LinkEvent::Status(SensorsStatus::On) => if s.phase == LinkPhase::GatedIdle {
            (
                LinkState { phase: LinkPhase::Advertising, status: SensorsStatus::On },
                LinkAction::StartAdvertising,
            )
        } else {
            (LinkState { phase: s.phase, status: SensorsStatus::On }, LinkAction::Wait)
        },
        LinkEvent::AdvertisingTimedOut => if s.phase != LinkPhase::Advertising {
            (s, LinkAction::Wait)
        } else if s.status == SensorsStatus::On {
            (s, LinkAction::StartAdvertising)
        } else {
            (LinkState { phase: LinkPhase::GatedIdle, status: s.status }, LinkAction::Wait)
        },
        LinkEvent::PeerConnected => if s.phase == LinkPhase::Advertising {
            (LinkState { phase: LinkPhase::Connected, status: s.status }, LinkAction::ServeConnection)
        } else {
            (s, LinkAction::Wait)
        },
        LinkEvent::PeerDisconnected | LinkEvent::NotifyFailed => if s.phase
            != LinkPhase::Connected {
            (s, LinkAction::Wait)
        } else if s.status == SensorsStatus::On {
            (LinkState { phase: LinkPhase::Advertising, status: s.status }, LinkAction::StartAdvertising)
        } else {
            (LinkState { phase: LinkPhase::GatedIdle, status: s.status }, LinkAction::Wait)
        },
    }
}

impl LinkState {
    /// At start-up: sensors off, nothing running.
    pub fn new() -> (r: Self)
        ensures
            r.phase == LinkPhase::GatedIdle,
            r.status == SensorsStatus::Off,
    {
        LinkState { phase: LinkPhase::GatedIdle, status: SensorsStatus::Off }
    }

    /// Handles an event and returns the action to perform. A new connection
    /// drops the hits queued before it.
    pub fn step(&mut self, e: LinkEvent, queue: &mut HitEventQueue) -> (r: LinkAction)
        requires
            old(queue).wf(),
        ensures
            final(queue).wf(),
            (*final(self), r) == link_next(*old(self), e),
            r == LinkAction::ServeConnection ==> queued_hits(*final(queue)) == Seq::<
                crate::queue::HitEvent,
            >::empty(),
            r != LinkAction::ServeConnection ==> queued_hits(*final(queue)) == queued_hits(
                *old(queue),
            ),
    {
        match e {
            LinkEvent::Status(SensorsStatus::Off) => {
                let was_idle = self.phase == LinkPhase::GatedIdle;
                self.phase = LinkPhase::GatedIdle;
                self.status = SensorsStatus::Off;
                if was_idle {
                    LinkAction::Wait
                } else {
                    LinkAction::Stop
                }
            },
            LinkEvent::Status(SensorsStatus::On) => {
                self.status = SensorsStatus::On;
                if self.phase == LinkPhase::GatedIdle {
                    self.phase = LinkPhase::Advertising;
                    LinkAction::StartAdvertising
                } else {
                    LinkAction::Wait
                }
            },
            LinkEvent::AdvertisingTimedOut => {
                if self.phase != LinkPhase::Advertising {
                    LinkAction::Wait
                } else if self.status == SensorsStatus::On {
                    LinkAction::StartAdvertising
                } else {
                    self.phase = LinkPhase::GatedIdle;
                    LinkAction::Wait
                }
            },
            LinkEvent::PeerConnected => {
                if self.phase == LinkPhase::Advertising {
                    self.phase = LinkPhase::Connected;
                    queue.clear();
                    LinkAction::ServeConnection
                } else {
                    LinkAction::Wait
                }
            },
            LinkEvent::PeerDisconnected | LinkEvent::NotifyFailed => {
                if self.phase != LinkPhase::Connected {
                    LinkAction::Wait
                } else if self.status == SensorsStatus::On {
                    self.phase = LinkPhase::Advertising;
                    LinkAction::StartAdvertising
                } else {
                    self.phase = LinkPhase::GatedIdle;
                    LinkAction::Wait
                }
            },
        }
    }
}

/// A switch of the sensors to off ends a connection at once, whatever the
/// peer does; a switch back to on starts a new advertising cycle rather than
/// resuming the connection.
pub proof fn sensors_off_ends_connection(s: LinkState)
    requires
        s.phase == LinkPhase::Connected,
    ensures
        ({
            let (s1, a1) = link_next(s, LinkEvent::Status(SensorsStatus::Off));
            let (s2, a2) = link_next(s1, LinkEvent::Status(SensorsStatus::On));
            &&& a1 == LinkAction::Stop
            &&& s1.phase == LinkPhase::GatedIdle
            &&& a2 == LinkAction::StartAdvertising
            &&& s2.phase == LinkPhase::Advertising
        }),
{
}

} // verus!
