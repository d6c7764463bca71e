use midi_convert::render_slice::MidiRenderSlice;
use midi_types::{Channel, MidiMessage, Note, Value7};
use vstd::prelude::*;

verus! {

/// Smallest packet accepted from a peer: header, timestamp and one status byte.
pub const MIN_SIZE: usize = 3;

/// Smallest capacity a packet may have: header, timestamp, a status byte and
/// two data bytes.
pub const MIN_CAP: usize = 5;

#[verifier::external_type_specification]
#[verifier::external_body]
pub struct ExMidiMessage(MidiMessage);

/// A value that gives a millisecond timestamp for a packet.
pub trait AsTimestamp {
    /// The timestamp, in milliseconds, that the value stands for.
    spec fn timestamp_spec(&self) -> u16;

    fn as_timestamp(&self) -> (r: u16)
        ensures
            r == self.timestamp_spec(),
    ;
}

impl AsTimestamp for u16 {
    open spec fn timestamp_spec(&self) -> u16 {
        *self
    }

    fn as_timestamp(&self) -> (r: u16) {
        *self
    }
}

impl<T: AsTimestamp> AsTimestamp for &T {
    open spec fn timestamp_spec(&self) -> u16 {
        (**self).timestamp_spec()
    }

    fn as_timestamp(&self) -> (r: u16) {
        (**self).as_timestamp()
    }
}

/// First byte of a packet: the high bit set, then bits 12..7 of the
/// timestamp.
pub open spec fn header_byte(millis: u16) -> u8 {
    0x80u8 | (((millis >> 7u16) as u8) & 0x3Fu8)
}

/// Second byte of a packet: the high bit set, then bits 6..0 of the
/// timestamp.
pub open spec fn timestamp_byte(millis: u16) -> u8 {
    0x80u8 | ((millis as u8) & 0x7Fu8)
}

/// A packet that carries the rendered message `rendered` at time `millis`.
pub open spec fn packet_bytes(millis: u16, rendered: Seq<u8>) -> Seq<u8> {
    seq![header_byte(millis), timestamp_byte(millis)] + rendered
}

/// The three bytes of a MIDI Note-On message.
pub open spec fn note_on_bytes(channel: u8, note: u8, velocity: u8) -> Seq<u8> {
    seq![0x90u8 | channel, note, velocity]
}

/// Relies on midi_convert's `MidiRenderSlice::render_slice` for `MidiMessage`:
/// it writes a status byte and up to two data bytes into a buffer of three,
/// and returns how many it wrote.
#[verifier::external_body]
fn render(msg: &MidiMessage) -> (r: Vec<u8>)
    ensures
        1 <= r@.len() <= 3,
{
    let mut buf = [0u8; 3];
    let n = msg.render_slice(&mut buf);
    buf[..n].to_vec()
}

/// Relies on midi_types' `MidiMessage::NoteOn` with `Channel::new`,
/// `Note::new` and `Value7::new` (which keep values in range), rendered by
/// midi_convert's `render_slice` as `0x90 | channel`, note, velocity.
#[verifier::external_body]
fn render_note_on(channel: u8, note: u8, velocity: u8) -> (r: Vec<u8>)
    requires
        channel < 16,
        note < 128,
        velocity < 128,
    ensures
        r@ == note_on_bytes(channel, note, velocity),
{
    let msg = MidiMessage::NoteOn(Channel::new(channel), Note::new(note), Value7::new(velocity));
    let mut buf = [0u8; 3];
    let n = msg.render_slice(&mut buf);
    buf[..n].to_vec()
}

/// Whether a MIDI status byte starts a system message.
pub fn is_system_msg_status_byte(status: u8) -> (r: bool)
    ensures
        r == (status & 0xF0u8 == 0xF0u8),
{
    status & 0xF0 == 0xF0
}

/// Why a packet from a peer was refused.
#[derive(Copy, Clone, Debug, PartialEq, Eq, Structural)]
pub enum PacketError {
    /// Shorter than the minimum size or longer than the capacity.
    InvalidLength,
}

/// A timestamped MIDI packet of at most `CAP` bytes.
pub struct BleMidiPacket<const CAP: usize> {
    bytes: Vec<u8>,
}

impl<const CAP: usize> View for BleMidiPacket<CAP> {
    type V = Seq<u8>;

    closed spec fn view(&self) -> Seq<u8> {
        self.bytes@
    }
}

/// A packet being built, with what a following message would need: the
/// running status and the timestamp byte.
pub struct BleMidiPacketBuilder<const CAP: usize> {
    packet: BleMidiPacket<CAP>,
    running_status: Option<u8>,
    timestamp_byte: u8,
}

impl<const CAP: usize> BleMidiPacketBuilder<CAP> {
    /// The packet built so far.
    pub closed spec fn packet(&self) -> BleMidiPacket<CAP> {
        self.packet
    }

    /// The status byte that a following channel message could omit, if any.
    pub closed spec fn running_status_spec(&self) -> Option<u8> {
        self.running_status
    }

    /// The timestamp byte of the packet.
    pub closed spec fn timestamp_byte_spec(&self) -> u8 {
        self.timestamp_byte
    }

    /// The packet.
    pub fn build(self) -> (r: BleMidiPacket<CAP>)
        ensures
            r == self.packet(),
    {
        self.packet
    }
}

impl<const CAP: usize> BleMidiPacket<CAP> {
    /// Starts a packet from an already rendered message.
    fn from_rendered(millis: u16, rendered: Vec<u8>) -> (r: BleMidiPacketBuilder<CAP>)
        requires
            1 <= rendered@.len() <= 3,
            CAP >= MIN_CAP,
        ensures
            r.packet()@ == packet_bytes(millis, rendered@),
            r.packet()@.len() <= CAP,
            r.timestamp_byte_spec() == timestamp_byte(millis),
            r.running_status_spec() == (if rendered@[0] & 0xF0u8 == 0xF0u8 {
                None
            } else {
                Some(rendered@[0])
            }),
    {
        let header: u8 = 0x80 | (((millis >> 7) as u8) & 0x3F);
        let timestamp: u8 = 0x80 | ((millis as u8) & 0x7F);
        let mut bytes: Vec<u8> = Vec::new();
        bytes.push(header);
        bytes.push(timestamp);
        let mut i: usize = 0;
        while i < rendered.len()
            invariant
                i <= rendered@.len(),
                bytes@ == seq![header, timestamp] + rendered@.subrange(0, i as int),
            decreases rendered@.len() - i,
        {
            bytes.push(rendered[i]);
            i = i + 1;
        }
        assert(rendered@.subrange(0, rendered@.len() as int) =~= rendered@);
        let status = rendered[0];
        let running_status = if is_system_msg_status_byte(status) {
            None
        } else {
            Some(status)
        };
        BleMidiPacketBuilder {
            packet: BleMidiPacket { bytes },
            running_status,
            timestamp_byte: timestamp,
        }
    }

    /// Starts a packet that carries `msg` at the time given by `timestamp`:
    /// the header and timestamp bytes, then the rendered message.
    pub fn add_timestamped<T: AsTimestamp>(timestamp: T, msg: MidiMessage) -> (r:
        BleMidiPacketBuilder<CAP>)
        requires
            CAP >= MIN_CAP,
        ensures
            ({
                let p = r.packet()@;
                let millis = timestamp.timestamp_spec();
                &&& 3 <= p.len() <= 5
                &&& p == packet_bytes(millis, p.subrange(2, p.len() as int))
                &&& r.timestamp_byte_spec() == timestamp_byte(millis)
                &&& r.running_status_spec() == (if p[2] & 0xF0u8 == 0xF0u8 {
                    None
                } else {
                    Some(p[2])
                })
            }),
    {
        let millis = timestamp.as_timestamp();
        let rendered = render(&msg);
        let r = Self::from_rendered(millis, rendered);
        assert(r.packet()@.subrange(2, r.packet()@.len() as int) =~= rendered@);
        r
    }

    /// The packet that carries a Note-On message at time `millis`.
    pub fn note_on(millis: u16, channel: u8, note: u8, velocity: u8) -> (r: Self)
        requires
            CAP >= MIN_CAP,
            channel < 16,
            note < 128,
            velocity < 128,
        ensures
            r@ == packet_bytes(millis, note_on_bytes(channel, note, velocity)),
    {
        let rendered = render_note_on(channel, note, velocity);
        Self::from_rendered(millis, rendered).build()
    }

    /// The bytes to place in the characteristic.
    pub fn as_gatt(&self) -> (r: &[u8])
        ensures
            r@ == self@,
    {
        self.bytes.as_slice()
    }

    /// Takes the bytes a peer wrote, verbatim, when their number lies between
    /// the minimum size and the capacity.
    pub fn from_gatt(data: &[u8]) -> (r: Result<Self, PacketError>)
        ensures
            (MIN_SIZE <= data@.len() <= CAP) == r is Ok,
            r is Ok ==> r->Ok_0@ == data@,
            r is Err ==> r->Err_0 == PacketError::InvalidLength,
    {
        if data.len() < MIN_SIZE || data.len() > CAP {
            return Err(PacketError::InvalidLength);
        }
        let mut bytes: Vec<u8> = Vec::new();
        let mut i: usize = 0;
        while i < data.len()
            invariant
                i <= data@.len(),
                bytes@ == data@.subrange(0, i as int),
            decreases data@.len() - i,
        {
            bytes.push(data[i]);
            i = i + 1;
        }
        assert(data@.subrange(0, data@.len() as int) =~= data@);
        Ok(BleMidiPacket { bytes })
    }
}

} // verus!
