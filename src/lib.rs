//! A streaming decoder for MIDI channel messages: bytes go in one at a time,
//! fully typed events come out.
pub mod midi;
pub mod parser;


pub use midi::{
    Channel, Control, MidiEvent, Note, PitchBendValue, Program, Value, Velocity,
};

pub use parser::{is_status_byte, split_message_and_channel, MidiParser, ParserState};
