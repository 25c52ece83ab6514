use be_strom::registers::{
    decode_device_id, registers_to_bytes, QtyKind, RawDeviceData, RawQty, DEVICE_ID_START,
    MEASUREMENTS_START, REGISTER_COUNT,
};

fn pack(text: &[u8]) -> Vec<u16> {
    text.chunks(2)
        .map(|c| c[0] as u16 | ((*c.get(1).unwrap_or(&0) as u16) << 8))
        .collect()
}

#[test]
fn register_addresses() {
    assert_eq!(DEVICE_ID_START, 0x1000);
    assert_eq!(MEASUREMENTS_START, 0x0000);
    assert_eq!(REGISTER_COUNT, 7);
}

#[test]
fn words_split_low_byte_first() {
    assert_eq!(registers_to_bytes(&[0x4241, 0x0043]), vec![0x41, 0x42, 0x43, 0x00]);
    assert_eq!(registers_to_bytes(&[0xff00, 0x00ff]), vec![0x00, 0xff, 0xff, 0x00]);
    assert_eq!(registers_to_bytes(&[]), Vec::<u8>::new());
}

#[test]
fn split_is_lossless() {
    let words = [0x1234u16, 0xabcd, 0x0001, 0xffff];
    let bytes = registers_to_bytes(&words);
    assert_eq!(bytes.len(), 2 * words.len());
    for (i, w) in words.iter().enumerate() {
        assert_eq!(*w, bytes[2 * i] as u16 + 256 * bytes[2 * i + 1] as u16);
    }
}

#[test]
fn device_id_is_the_register_text() {
    let words = pack(b"UR20-3EM-230V");
    assert_eq!(words.len(), 7);
    let id = decode_device_id(&words).unwrap();
    assert_eq!(id, "UR20-3EM-230V\0");
    assert_eq!(id.as_bytes(), registers_to_bytes(&words).as_slice());
}

#[test]
fn device_id_keeps_multibyte_text() {
    let words = pack("Zähler".as_bytes());
    let id = decode_device_id(&words).unwrap();
    assert_eq!(id, "Zähler\0");
}

#[test]
fn device_id_refuses_invalid_utf8() {
    assert_eq!(decode_device_id(&[0xffff, 0x4141]), None);
    // a lone continuation byte
    assert_eq!(decode_device_id(&[0x4180]), None);
}

#[test]
fn measurements_map_to_quantities() {
    let values = [23000u16, 100, 200, 300, 4000, 5000, 6000, 99];
    let d = RawDeviceData::from_registers("meter".to_string(), &values);
    assert_eq!(d.device, "meter");
    assert_eq!(d.voltage, RawQty { raw: 23000, kind: QtyKind::Voltage });
    assert_eq!(d.current_1, RawQty { raw: 100, kind: QtyKind::Current });
    assert_eq!(d.current_2, RawQty { raw: 200, kind: QtyKind::Current });
    assert_eq!(d.current_3, RawQty { raw: 300, kind: QtyKind::Current });
    assert_eq!(d.power_1, RawQty { raw: 4000, kind: QtyKind::Power });
    assert_eq!(d.power_2, RawQty { raw: 5000, kind: QtyKind::Power });
    assert_eq!(d.power_3, RawQty { raw: 6000, kind: QtyKind::Power });
}

#[test]
fn units() {
    assert_eq!(QtyKind::Voltage.unit(), "V");
    assert_eq!(QtyKind::Current.unit(), "A");
    assert_eq!(QtyKind::Power.unit(), "W");
}
