use procon::error::ProtocolError;
use procon::frame::encode;
use procon::spi::SpiFlash;

#[test]
fn encode_empty_payload_is_header_and_zero_padding() {
    let frame = encode(0x81, 0x03, &[]).unwrap();
    assert_eq!(frame.len(), 64);
    assert_eq!(frame[0], 0x81);
    assert_eq!(frame[1], 0x03);
    assert!(frame[2..].iter().all(|&b| b == 0));
}

#[test]
fn encode_places_payload_after_header() {
    let frame = encode(0x21, 0x09, &[0xaa, 0xbb, 0xcc]).unwrap();
    assert_eq!(frame.len(), 64);
    assert_eq!(&frame[..5], &[0x21, 0x09, 0xaa, 0xbb, 0xcc]);
    assert!(frame[5..].iter().all(|&b| b == 0));
}

#[test]
fn encode_accepts_a_full_62_byte_payload() {
    let payload = [0x5a; 62];
    let frame = encode(0x30, 0x00, &payload).unwrap();
    assert_eq!(frame.len(), 64);
    assert_eq!(&frame[2..], &payload[..]);
}

#[test]
fn encode_rejects_an_oversized_payload() {
    let payload = [0x00; 63];
    assert_eq!(encode(0x30, 0x00, &payload), Err(ProtocolError::PayloadTooLarge));
}

#[test]
fn spi_read_returns_literal_factory_bytes() {
    let flash = SpiFlash::new();
    let data = flash.read(0x60, 0, 16).unwrap();
    assert_eq!(data, vec![0xff; 16]);

    // Bytes 18..20 of the factory region are 0x03, 0xa0.
    let data = flash.read(0x60, 16, 4).unwrap();
    assert_eq!(data, vec![0xff, 0xff, 0x03, 0xa0]);
}

#[test]
fn spi_read_serves_the_user_calibration_region() {
    let flash = SpiFlash::new();
    let data = flash.read(0x80, 36, 6).unwrap();
    assert_eq!(data, vec![0xff, 0xff, 0xb2, 0xa1, 0xbe, 0xff]);
}

#[test]
fn spi_read_of_absent_selector_is_a_miss() {
    let flash = SpiFlash::new();
    assert_eq!(flash.read(0x99, 0, 16), Err(ProtocolError::SpiMiss));
    assert_eq!(flash.read(0x00, 0, 1), Err(ProtocolError::SpiMiss));
}

#[test]
fn spi_read_past_the_region_is_a_bad_range() {
    let flash = SpiFlash::new();
    // The user region holds 64 bytes.
    assert_eq!(flash.read(0x80, 60, 10), Err(ProtocolError::SpiBadRange));
    assert_eq!(flash.read(0x60, 176, 1), Err(ProtocolError::SpiBadRange));
    // The very edge of the region is still served.
    assert_eq!(flash.read(0x80, 60, 4).unwrap().len(), 4);
}
