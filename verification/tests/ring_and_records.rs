use blackgpib::dump_parser::{decode_record, encode_record, GPIBByte};
use blackgpib::gpib::command::Command;
use blackgpib::logger::ringbuf::RingBuffer;

#[test]
fn ring_buffer_is_first_in_first_out() {
    let mut ring = RingBuffer::new(4, 0u32);
    assert!(ring.is_empty());
    assert_eq!(ring.pop(), None);

    for v in [10, 20, 30] {
        ring.push(v);
    }
    assert!(!ring.is_empty());
    assert_eq!(ring.pop(), Some(10));
    assert_eq!(ring.pop(), Some(20));
    assert_eq!(ring.pop(), Some(30));
    assert_eq!(ring.pop(), None);
    assert!(ring.is_empty());
}

#[test]
fn ring_buffer_overwrites_oldest_when_full() {
    let mut ring = RingBuffer::new(2, 0u8);
    ring.push(1);
    ring.push(2);
    ring.push(3);
    // The third entry went to the first slot; the reader still starts there.
    assert_eq!(ring.pop(), Some(3));
    assert_eq!(ring.pop(), Some(2));
    assert_eq!(ring.pop(), Some(3));
    assert_eq!(ring.pop(), None);
}

#[test]
fn records_round_trip() {
    let record = encode_record(0x0102_0304, 0x25, true, false);
    assert_eq!(record, [0x04, 0x03, 0x02, 0x25, 0b10]);
    assert_eq!(decode_record(record), Some(GPIBByte::Command { timestamp_ms: 0x02_0304, cmd: Command::MLA(5) }));

    let record = encode_record(1234, 0x41, false, true);
    assert_eq!(decode_record(record), Some(GPIBByte::Data { timestamp_ms: 1234, byte: 0x41, eoi: true }));

    let record = encode_record(0x0100_0000, 0, false, false);
    assert_eq!(decode_record(record), None);
}
