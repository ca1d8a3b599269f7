//! The event model: small wrappers around a 7-bit (or 4-bit) byte and the
//! closed set of channel messages that the parser emits.
//!
//! The wrappers do no range checking: the parser extracts channels and data
//! bytes with masks, so what it hands them is already in range.
use vstd::prelude::*;

verus! {

/// A channel, 0 to 15: the low nibble of a status byte.
#[derive(Debug, Clone, Copy, PartialEq, Eq, Structural)]
pub struct Channel(pub u8);

impl From<u8> for Channel {
    fn from(channel: u8) -> (r: Self)
        ensures
            r.0 == channel,
    {
        Channel(channel)
    }
}

impl vstd::std_specs::convert::FromSpecImpl<u8> for Channel {
    open spec fn obeys_from_spec() -> bool {
        true
    }

    open spec fn from_spec(v: u8) -> Self {
        Channel(v)
    }
}

impl From<Channel> for u8 {
    fn from(channel: Channel) -> (r: u8)
        ensures
            r == channel.0,
    {
        channel.0
    }
}

impl vstd::std_specs::convert::FromSpecImpl<Channel> for u8 {
    open spec fn obeys_from_spec() -> bool {
        true
    }

    open spec fn from_spec(v: Channel) -> u8 {
        v.0
    }
}

/// A note number, 0 to 127.
#[derive(Debug, Clone, Copy, PartialEq, Eq, Structural)]
pub struct Note(pub u8);

impl From<u8> for Note {
    fn from(note: u8) -> (r: Self)
        ensures
            r.0 == note,
    {
        Note(note)
    }
}

impl vstd::std_specs::convert::FromSpecImpl<u8> for Note {
    open spec fn obeys_from_spec() -> bool {
        true
    }

    open spec fn from_spec(v: u8) -> Self {
        Note(v)
    }
}

impl From<Note> for u8 {
    fn from(note: Note) -> (r: u8)
        ensures
            r == note.0,
    {
        note.0
    }
}

impl vstd::std_specs::convert::FromSpecImpl<Note> for u8 {
    open spec fn obeys_from_spec() -> bool {
        true
    }

    open spec fn from_spec(v: Note) -> u8 {
        v.0
    }
}

/// A note velocity, 0 to 127.
#[derive(Debug, Clone, Copy, PartialEq, Eq, Structural)]
pub struct Velocity(pub u8);

impl From<u8> for Velocity {
    fn from(velocity: u8) -> (r: Self)
        ensures
            r.0 == velocity,
    {
        Velocity(velocity)
    }
}

impl vstd::std_specs::convert::FromSpecImpl<u8> for Velocity {
    open spec fn obeys_from_spec() -> bool {
        true
    }

    open spec fn from_spec(v: u8) -> Self {
        Velocity(v)
    }
}

impl From<Velocity> for u8 {
    fn from(velocity: Velocity) -> (r: u8)
        ensures
            r == velocity.0,
    {
        velocity.0
    }
}

impl vstd::std_specs::convert::FromSpecImpl<Velocity> for u8 {
    open spec fn obeys_from_spec() -> bool {
        true
    }

    open spec fn from_spec(v: Velocity) -> u8 {
        v.0
    }
}

/// A controller number, 0 to 127.
#[derive(Debug, Clone, Copy, PartialEq, Eq, Structural)]
pub struct Control(pub u8);

impl From<u8> for Control {
    fn from(control: u8) -> (r: Self)
        ensures
            r.0 == control,
    {
        Control(control)
    }
}

impl vstd::std_specs::convert::FromSpecImpl<u8> for Control {
    open spec fn obeys_from_spec() -> bool {
        true
    }

    open spec fn from_spec(v: u8) -> Self {
        Control(v)
    }
}

impl From<Control> for u8 {
    fn from(control: Control) -> (r: u8)
        ensures
            r == control.0,
    {
        control.0
    }
}

impl vstd::std_specs::convert::FromSpecImpl<Control> for u8 {
    open spec fn obeys_from_spec() -> bool {
        true
    }

    open spec fn from_spec(v: Control) -> u8 {
        v.0
    }
}

/// A program number, 0 to 127.
#[derive(Debug, Clone, Copy, PartialEq, Eq, Structural)]
pub struct Program(pub u8);

impl From<u8> for Program {
    fn from(program: u8) -> (r: Self)
        ensures
            r.0 == program,
    {
        Program(program)
    }
}

impl vstd::std_specs::convert::FromSpecImpl<u8> for Program {
    open spec fn obeys_from_spec() -> bool {
        true
    }

    open spec fn from_spec(v: u8) -> Self {
        Program(v)
    }
}

impl From<Program> for u8 {
    fn from(program: Program) -> (r: u8)
        ensures
            r == program.0,
    {
        program.0
    }
}

impl vstd::std_specs::convert::FromSpecImpl<Program> for u8 {
    open spec fn obeys_from_spec() -> bool {
        true
    }

    open spec fn from_spec(v: Program) -> u8 {
        v.0
    }
}

/// A controller or pressure value, 0 to 127.
#[derive(Debug, Clone, Copy, PartialEq, Eq, Structural)]
pub struct Value(pub u8);

impl From<u8> for Value {
    fn from(value: u8) -> (r: Self)
        ensures
            r.0 == value,
    {
        Value(value)
    }
}

impl vstd::std_specs::convert::FromSpecImpl<u8> for Value {
    open spec fn obeys_from_spec() -> bool {
        true
    }

    open spec fn from_spec(v: u8) -> Self {
        Value(v)
    }
}

impl From<Value> for u8 {
    fn from(value: Value) -> (r: u8)
        ensures
            r == value.0,
    {
        value.0
    }
}

impl vstd::std_specs::convert::FromSpecImpl<Value> for u8 {
    open spec fn obeys_from_spec() -> bool {
        true
    }

    open spec fn from_spec(v: Value) -> u8 {
        v.0
    }
}

/// The 14-bit value that two 7-bit data bytes make, the first byte giving the
/// low seven bits and the second the high seven. Bits above the seventh of
/// either byte are dropped.
pub open spec fn combine_14(lsb: u8, msb: u8) -> u16 {
    ((msb % 128) * 128 + lsb % 128) as u16
}

/// A pitch-bend amount, 0 to 16383; 8192 is the centre (no bend).
#[derive(Debug, Clone, Copy, PartialEq, Eq, Structural)]
pub struct PitchBendValue(pub u16);

impl From<(u8, u8)> for PitchBendValue {
    /// Combines `(lsb, msb)`, the two data bytes in the order they arrive.
    fn from(bytes: (u8, u8)) -> (r: Self)
        ensures
            r.0 == combine_14(bytes.0, bytes.1),
            r.0 < 16384,
    {
        let (lsb, msb) = bytes;
        assert(lsb & 0x7f == lsb % 128) by (bit_vector);
        assert(msb & 0x7f == msb % 128) by (bit_vector);
        let value: u16 = ((msb & 0x7f) as u16) * 128 + ((lsb & 0x7f) as u16);
        PitchBendValue(value)
    }
}

impl vstd::std_specs::convert::FromSpecImpl<(u8, u8)> for PitchBendValue {
    open spec fn obeys_from_spec() -> bool {
        true
    }

    open spec fn from_spec(v: (u8, u8)) -> Self {
        PitchBendValue(combine_14(v.0, v.1))
    }
}

impl From<PitchBendValue> for u16 {
    fn from(value: PitchBendValue) -> (r: u16)
        ensures
            r == value.0,
    {
        value.0
    }
}

impl vstd::std_specs::convert::FromSpecImpl<PitchBendValue> for u16 {
    open spec fn obeys_from_spec() -> bool {
        true
    }

    open spec fn from_spec(v: PitchBendValue) -> u16 {
        v.0
    }
}

/// A decoded channel message. Every event the parser emits is complete.
#[allow(inconsistent_fields)]
#[derive(Debug, Clone, Copy, PartialEq, Eq, Structural)]
pub enum MidiEvent {
    NoteOn { channel: Channel, note: Note, velocity: Velocity },
    NoteOff { channel: Channel, note: Note, velocity: Velocity },
    ControlChange { channel: Channel, control: Control, value: Value },
    ProgramChange { channel: Channel, program: Program },
    ChannelPressure { channel: Channel, value: Value },
    PitchBend { channel: Channel, value: PitchBendValue },
}

impl MidiEvent {
    /// Every field is in its range: a 4-bit channel, 7-bit data, and a
    /// 14-bit pitch bend.
    pub open spec fn in_range(self) -> bool {
        match self {
            MidiEvent::NoteOn { channel, note, velocity } => channel.0 < 16 && note.0 < 128
                && velocity.0 < 128,
            MidiEvent::NoteOff { channel, note, velocity } => channel.0 < 16 && note.0 < 128
                && velocity.0 < 128,
            MidiEvent::ControlChange { channel, control, value } => channel.0 < 16 && control.0
                < 128 && value.0 < 128,
            MidiEvent::ProgramChange { channel, program } => channel.0 < 16 && program.0 < 128,
            MidiEvent::ChannelPressure { channel, value } => channel.0 < 16 && value.0 < 128,
            MidiEvent::PitchBend { channel, value } => channel.0 < 16 && value.0 < 16384,
        }
    }

    pub fn note_on(channel: Channel, note: Note, velocity: Velocity) -> (r: Self)
        ensures
            r == (MidiEvent::NoteOn { channel, note, velocity }),
    {
        MidiEvent::NoteOn { channel, note, velocity }
    }

    pub fn note_off(channel: Channel, note: Note, velocity: Velocity) -> (r: Self)
        ensures
            r == (MidiEvent::NoteOff { channel, note, velocity }),
    {
        MidiEvent::NoteOff { channel, note, velocity }
    }
}

} // verus!
