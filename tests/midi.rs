use midi_stream::{Channel, Control, MidiEvent, Note, PitchBendValue, Program, Value, Velocity};

#[test]
fn should_encode_note_on() {
    let note_on = MidiEvent::note_on(1.into(), 45.into(), 15.into());

    if let MidiEvent::NoteOn {
        channel,
        note,
        velocity,
    } = note_on
    {
        assert_eq!(channel, Channel(1));
        assert_eq!(note, Note(45));
        assert_eq!(velocity, Velocity(15));
    } else {
        assert!(false);
    }
}

#[test]
fn should_encode_note_off() {
    let note_off = MidiEvent::note_off(0.into(), 0x30.into(), 15.into());

    if let MidiEvent::NoteOff {
        channel,
        note,
        velocity,
    } = note_off
    {
        assert_eq!(channel, Channel(0));
        assert_eq!(note, Note(0x30));
        assert_eq!(velocity, Velocity(15));
    } else {
        assert!(false);
    }
}

#[test]
fn value_types_convert_back_losslessly() {
    for b in 0..=255u8 {
        let c: u8 = Channel::from(b).into();
        let n: u8 = Note::from(b).into();
        let v: u8 = Velocity::from(b).into();
        let k: u8 = Control::from(b).into();
        let p: u8 = Program::from(b).into();
        let x: u8 = Value::from(b).into();
        assert_eq!((c, n, v, k, p, x), (b, b, b, b, b, b));
    }
}

#[test]
fn pitch_bend_takes_low_bits_first() {
    let v: u16 = PitchBendValue::from((0x14, 0x56)).into();
    assert_eq!(v, 0x56 * 128 + 0x14);
    assert_eq!(PitchBendValue::from((0x00, 0x40)), PitchBendValue(8192));
    assert_eq!(PitchBendValue::from((0x7F, 0x7F)), PitchBendValue(16383));
    assert_eq!(PitchBendValue::from((0x00, 0x00)), PitchBendValue(0));
}

#[test]
fn pitch_bend_drops_high_bit_of_each_byte() {
    assert_eq!(PitchBendValue::from((0xFF, 0xFF)), PitchBendValue(16383));
    assert_eq!(PitchBendValue::from((0x81, 0x80)), PitchBendValue(1));
}
