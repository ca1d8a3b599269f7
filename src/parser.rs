//! The byte-at-a-time parser. Its behaviour is given by `step`, a function
//! from the current state and one byte to the next state and the event (if
//! any) that the byte completes; `MidiParser::parse_byte` is proved to follow
//! it exactly.
use crate::midi::{
    combine_14, Channel, Control, MidiEvent, Note, PitchBendValue, Program, Value, Velocity,
};
use vstd::prelude::*;

verus! {

/// What has been received so far of the message in progress. Apart from
/// `Idle`, each state knows a message family and a channel (running status),
/// and the two-byte families also remember their first data byte once it came.
#[derive(Debug, Clone, Copy, PartialEq, Eq, Structural)]
pub enum ParserState {
    Idle,
    NoteOnRecvd { channel: u8 },
    NoteOnNoteRecvd { channel: u8, note: u8 },
    NoteOffRecvd { channel: u8 },
    NoteOffNoteRecvd { channel: u8, note: u8 },
    ControlChangeRecvd { channel: u8 },
    ControlChangeControlRecvd { channel: u8, control: u8 },
    ProgramChangeRecvd { channel: u8 },
    ChannelPressureRecvd { channel: u8 },
    PitchBendRecvd { channel: u8 },
    PitchBendFirstByteRecvd { channel: u8, byte1: u8 },
}

impl ParserState {
    /// The channel is a nibble and every stored data byte has its top bit clear.
    pub open spec fn in_range(self) -> bool {
        match self {
            ParserState::Idle => true,
            ParserState::NoteOnRecvd { channel } => channel < 16,
            ParserState::NoteOnNoteRecvd { channel, note } => channel < 16 && note < 128,
            ParserState::NoteOffRecvd { channel } => channel < 16,
            ParserState::NoteOffNoteRecvd { channel, note } => channel < 16 && note < 128,
            ParserState::ControlChangeRecvd { channel } => channel < 16,
            ParserState::ControlChangeControlRecvd { channel, control } => channel < 16
                && control < 128,
            ParserState::ProgramChangeRecvd { channel } => channel < 16,
            ParserState::ChannelPressureRecvd { channel } => channel < 16,
            ParserState::PitchBendRecvd { channel } => channel < 16,
            ParserState::PitchBendFirstByteRecvd { channel, byte1 } => channel < 16 && byte1
                < 128,
        }
    }
}

/// A status byte has its top bit set; a data byte has it clear.
pub open spec fn is_status(byte: u8) -> bool {
    byte >= 0x80
}

/// The state that a recognised status byte starts: its high nibble picks the
/// family, its low nibble the channel. `None` for any other status byte
/// (system messages), which the parser lets pass.
pub open spec fn status_state(byte: u8) -> Option<ParserState> {
    let channel = byte % 16;
    match byte / 16 {
        8 => Some(ParserState::NoteOffRecvd { channel }),
        9 => Some(ParserState::NoteOnRecvd { channel }),
        11 => Some(ParserState::ControlChangeRecvd { channel }),
        12 => Some(ParserState::ProgramChangeRecvd { channel }),
        13 => Some(ParserState::ChannelPressureRecvd { channel }),
        14 => Some(ParserState::PitchBendRecvd { channel }),
        _ => None,
    }
}

/// What a data byte does in each state. A byte that completes a message
/// yields the event and leaves the family and channel in place, so that the
/// next data byte starts a new message of the same kind.
pub open spec fn data_step(state: ParserState, byte: u8) -> (ParserState, Option<MidiEvent>) {
    match state {
        ParserState::Idle => (state, None),
        ParserState::NoteOnRecvd { channel } => (
            ParserState::NoteOnNoteRecvd { channel, note: byte },
            None,
        ),
        ParserState::NoteOnNoteRecvd { channel, note } => (
            ParserState::NoteOnRecvd { channel },
            Some(
                MidiEvent::NoteOn {
                    channel: Channel(channel),
                    note: Note(note),
                    velocity: Velocity(byte),
                },
            ),
        ),
        ParserState::NoteOffRecvd { channel } => (
            ParserState::NoteOffNoteRecvd { channel, note: byte },
            None,
        ),
        ParserState::NoteOffNoteRecvd { channel, note } => (
            ParserState::NoteOffRecvd { channel },
            Some(
                MidiEvent::NoteOff {
                    channel: Channel(channel),
                    note: Note(note),
                    velocity: Velocity(byte),
                },
            ),
        ),
        ParserState::ControlChangeRecvd { channel } => (
            ParserState::ControlChangeControlRecvd { channel, control: byte },
            None,
        ),
        ParserState::ControlChangeControlRecvd { channel, control } => (
            ParserState::ControlChangeRecvd { channel },
            Some(
                MidiEvent::ControlChange {
                    channel: Channel(channel),
                    control: Control(control),
                    value: Value(byte),
                },
            ),
        ),
        ParserState::ProgramChangeRecvd { channel } => (
            state,
            Some(MidiEvent::ProgramChange { channel: Channel(channel), program: Program(byte) }),
        ),
        ParserState::ChannelPressureRecvd { channel } => (
            state,
            Some(MidiEvent::ChannelPressure { channel: Channel(channel), value: Value(byte) }),
        ),
        ParserState::PitchBendRecvd { channel } => (
            ParserState::PitchBendFirstByteRecvd { channel, byte1: byte },
            None,
        ),
        ParserState::PitchBendFirstByteRecvd { channel, byte1 } => (
            ParserState::PitchBendRecvd { channel },
            Some(
                MidiEvent::PitchBend {
                    channel: Channel(channel),
                    value: PitchBendValue(combine_14(byte1, byte)),
                },
            ),
        ),
    }
}

/// One step of the parser: the next state and the event completed, if any.
/// A recognised status byte always starts its family afresh, dropping what
/// was in progress; an unrecognised one changes nothing.
pub open spec fn step(state: ParserState, byte: u8) -> (ParserState, Option<MidiEvent>) {
    if is_status(byte) {
        match status_state(byte) {
            Some(next) => (next, None),
            None => (state, None),
        }
    } else {
        data_step(state, byte)
    }
}

/// Whether `byte` is a status byte (top bit set).
pub fn is_status_byte(byte: u8) -> (r: bool)
    ensures
        r == (byte & 0x80 != 0),
        r == is_status(byte),
{
    assert((byte & 0x80 == 0x80) == (byte & 0x80 != 0)) by (bit_vector);
    assert((byte & 0x80 != 0) == (byte >= 0x80)) by (bit_vector);
    byte & 0x80 == 0x80
}

/// Splits a status byte into its high nibble (the message, kept in place)
/// and its low nibble (the channel).
pub fn split_message_and_channel(byte: u8) -> (r: (u8, u8))
    ensures
        r == (byte & 0xf0, byte & 0x0f),
        r.0 == (byte / 16) * 16,
        r.1 == byte % 16,
{
    assert(byte & 0xf0 == (byte / 16) * 16) by (bit_vector);
    assert(byte & 0x0f == byte % 16) by (bit_vector);
    (byte & 0xf0u8, byte & 0x0fu8)
}

/// A streaming MIDI parser: feed it the bytes of a stream in order.
pub struct MidiParser {
    state: ParserState,
}

impl View for MidiParser {
    type V = ParserState;

    closed spec fn view(&self) -> ParserState {
        self.state
    }
}

impl MidiParser {
    #[verifier::type_invariant]
    spec fn state_in_range(self) -> bool {
        self.state.in_range()
    }

    /// A parser that has seen nothing yet.
    pub fn new() -> (r: Self)
        ensures
            r@ == ParserState::Idle,
    {
        MidiParser { state: ParserState::Idle }
    }

    /// Consumes one byte of the stream. Returns the event that this byte
    /// completes, if it completes one; otherwise only the state advances.
    /// Unrecognised or stray bytes are absorbed and never fail.
    pub fn parse_byte(&mut self, byte: u8) -> (r: Option<MidiEvent>)
        ensures
            (final(self)@, r) == step(old(self)@, byte),
            old(self)@.in_range(),
            final(self)@.in_range(),
            r matches Some(e) ==> e.in_range(),
    {
        proof {
            use_type_invariant(&*self);
        }
        if is_status_byte(byte) {
            let (message, channel) = split_message_and_channel(byte);
            match message {
                0x80 => {
                    self.state = ParserState::NoteOffRecvd { channel };
                    None
                },
                0x90 => {
                    self.state = ParserState::NoteOnRecvd { channel };
                    None
                },
                0xB0 => {
                    self.state = ParserState::ControlChangeRecvd { channel };
                    None
                },
                0xC0 => {
                    self.state = ParserState::ProgramChangeRecvd { channel };
                    None
                },
                0xD0 => {
                    self.state = ParserState::ChannelPressureRecvd { channel };
                    None
                },
                0xE0 => {
                    self.state = ParserState::PitchBendRecvd { channel };
                    None
                },
                _ => None,
            }
        } else {
            match self.state {
                ParserState::Idle => None,
                ParserState::NoteOnRecvd { channel } => {
                    self.state = ParserState::NoteOnNoteRecvd { channel, note: byte };
                    None
                },
                ParserState::NoteOnNoteRecvd { channel, note } => {
                    self.state = ParserState::NoteOnRecvd { channel };
                    Some(
                        MidiEvent::NoteOn {
                            channel: channel.into(),
                            note: note.into(),
                            velocity: byte.into(),
                        },
                    )
                },
                ParserState::NoteOffRecvd { channel } => {
                    self.state = ParserState::NoteOffNoteRecvd { channel, note: byte };
                    None
                },
                ParserState::NoteOffNoteRecvd { channel, note } => {
                    self.state = ParserState::NoteOffRecvd { channel };
                    Some(
                        MidiEvent::NoteOff {
                            channel: channel.into(),
                            note: note.into(),
                            velocity: byte.into(),
                        },
                    )
                },
                ParserState::ControlChangeRecvd { channel } => {
                    self.state = ParserState::ControlChangeControlRecvd { channel, control: byte };
                    None
                },
                ParserState::ControlChangeControlRecvd { channel, control } => {
                    self.state = ParserState::ControlChangeRecvd { channel };
                    Some(
                        MidiEvent::ControlChange {
                            channel: channel.into(),
                            control: control.into(),
                            value: byte.into(),
                        },
                    )
                },
                ParserState::ProgramChangeRecvd { channel } => {
                    Some(MidiEvent::ProgramChange { channel: channel.into(), program: byte.into() })
                },
                ParserState::ChannelPressureRecvd { channel } => {
                    Some(MidiEvent::ChannelPressure { channel: channel.into(), value: byte.into() })
                },
                ParserState::PitchBendRecvd { channel } => {
                    self.state = ParserState::PitchBendFirstByteRecvd { channel, byte1: byte };
                    None
                },
                ParserState::PitchBendFirstByteRecvd { channel, byte1 } => {
                    self.state = ParserState::PitchBendRecvd { channel };
                    Some(MidiEvent::PitchBend { channel: channel.into(), value: (byte1, byte).into() })
                },
            }
        }
    }
}

/// A data byte that arrives before any status byte is ignored: no event, and
/// the parser stays idle.
pub proof fn lemma_data_byte_while_idle(byte: u8)
    requires
        !is_status(byte),
    ensures
        step(ParserState::Idle, byte) == (ParserState::Idle, None::<MidiEvent>),
{
}

/// A complete Note-On message (status byte for the channel, note, velocity)
/// yields nothing on its first two bytes and then exactly the matching
/// `NoteOn` event, whatever the parser was doing before.
pub proof fn lemma_note_on_round_trip(state: ParserState, channel: u8, note: u8, velocity: u8)
    requires
        channel < 16,
        note < 128,
        velocity < 128,
    ensures
        ({
            let (s1, e1) = step(state, (0x90 + channel) as u8);
            let (s2, e2) = step(s1, note);
            let (s3, e3) = step(s2, velocity);
            &&& e1 is None
            &&& e2 is None
            &&& e3 == Some(
                MidiEvent::NoteOn {
                    channel: Channel(channel),
                    note: Note(note),
                    velocity: Velocity(velocity),
                },
            )
        }),
{
    let status = (0x90 + channel) as u8;
    assert(status / 16 == 9 && status % 16 == channel);
}

} // verus!
