//! Peripheral capability instances and the multi-channel aggregate.

use dynsys::peripheral::SCRIPT_EXHAUSTED;
use dynsys::{
    AnalogReader, AnalogReaderMultiChannel, DigitalReader, MultiChannelReader, PeripheralError,
    ScriptedAnalogChannel, ScriptedDigitalReader, SerialValueSink,
};

#[test]
fn scripted_digital_reader_replays_then_fails() {
    let mut r = ScriptedDigitalReader::new(vec![true, false]);
    assert_eq!(r.read(), Ok(true));
    assert_eq!(r.read(), Ok(false));
    assert_eq!(r.read(), Err(PeripheralError { code: SCRIPT_EXHAUSTED }));
    assert_eq!(r.read(), Err(PeripheralError { code: SCRIPT_EXHAUSTED }));
}

#[test]
fn scripted_analog_channel_replays_then_fails() {
    let mut c = ScriptedAnalogChannel::new(vec![410, -3]);
    assert_eq!(c.read(), Ok(410));
    assert_eq!(c.read(), Ok(-3));
    assert_eq!(c.read(), Err(PeripheralError { code: SCRIPT_EXHAUSTED }));
}

#[test]
fn multi_channel_reader_fans_out_by_index() {
    let channels = vec![
        ScriptedAnalogChannel::new(vec![10, 11]),
        ScriptedAnalogChannel::new(vec![20]),
        ScriptedAnalogChannel::new(vec![30]),
    ];
    let mut reader = MultiChannelReader::new(channels);
    assert_eq!(reader.channel_count(), 3);
    assert_eq!(reader.read_channel(1), Ok(20));
    assert_eq!(reader.read_channel(0), Ok(10));
    assert_eq!(reader.read_channel(0), Ok(11));
    assert_eq!(reader.read_channel(2), Ok(30));
    // each channel keeps its own script: channel 1 is now exhausted
    assert_eq!(reader.read_channel(1), Err(PeripheralError { code: SCRIPT_EXHAUSTED }));
    assert_eq!(reader.channel_count(), 3);
}

#[test]
fn serial_value_sink_is_a_bare_marker() {
    let _sink = SerialValueSink::new();
}
