use hd44780::{DataBus, EightBitBus, FourBitBus, I2CBus, LineOp};

#[test]
fn fourbit_command_write_is_two_pulsed_nibbles() {
    let mut bus = FourBitBus::new();
    let ops = bus.write(0x33, false);
    assert_eq!(
        ops,
        vec![
            LineOp::Rs(false),
            LineOp::Nibble(0x3),
            LineOp::En(true),
            LineOp::Delay(2000),
            LineOp::En(false),
            LineOp::Nibble(0x3),
            LineOp::En(true),
            LineOp::Delay(2000),
            LineOp::En(false),
        ]
    );
}

#[test]
fn fourbit_nibbles_reconstruct_byte() {
    let mut bus = FourBitBus::new();
    for byte in 0..=255u8 {
        let ops = bus.write(byte, false);
        let upper = match ops[1] {
            LineOp::Nibble(n) => n,
            _ => panic!("expected the upper nibble"),
        };
        let lower = match ops[5] {
            LineOp::Nibble(n) => n,
            _ => panic!("expected the lower nibble"),
        };
        assert_eq!((upper << 4) | lower, byte);
    }
}

#[test]
fn fourbit_rs_asymmetry() {
    let mut bus = FourBitBus::new();

    // A command write drives RS low up front and never raises it.
    let cmd = bus.write(0xA5, false);
    assert_eq!(cmd[0], LineOp::Rs(false));
    assert!(cmd[1..].iter().all(|op| !matches!(op, LineOp::Rs(_))));

    // A data write raises RS for the transmission and drives it back low
    // as its final operation.
    let data = bus.write(0xA5, true);
    assert_eq!(data[0], LineOp::Rs(true));
    assert_eq!(data[data.len() - 1], LineOp::Rs(false));
    let last_rs = data
        .iter()
        .rev()
        .find_map(|op| match op {
            LineOp::Rs(level) => Some(*level),
            _ => None,
        })
        .unwrap();
    assert!(!last_rs);
}

#[test]
fn eightbit_write_is_one_pulsed_byte() {
    let mut bus = EightBitBus::new();
    let ops = bus.write(0xA5, true);
    assert_eq!(
        ops,
        vec![
            LineOp::Rs(true),
            LineOp::Byte(0xA5),
            LineOp::En(true),
            LineOp::Delay(2000),
            LineOp::En(false),
        ]
    );
}

#[test]
fn i2c_data_write_frame() {
    let mut bus = I2CBus::new(0x27);
    let ops = bus.write(0x41, true);
    // rs = 0x01, backlight = 0x08, enable = 0x04.
    assert_eq!(
        ops,
        vec![
            LineOp::I2cFrame { address: 0x27, b0: 0x4D, b1: 0x49, b2: 0x1D, b3: 0x19 },
            LineOp::Delay(1000),
        ]
    );
}

#[test]
fn i2c_command_write_frame() {
    let mut bus = I2CBus::new(0x3F);
    let ops = bus.write(0x01, false);
    assert_eq!(
        ops,
        vec![
            LineOp::I2cFrame { address: 0x3F, b0: 0x0C, b1: 0x08, b2: 0x1C, b3: 0x18 },
            LineOp::Delay(1000),
        ]
    );
}

#[test]
fn i2c_frame_properties_for_all_bytes() {
    let mut bus = I2CBus::new(0x27);
    for byte in 0..=255u8 {
        for is_data in [false, true] {
            let ops = bus.write(byte, is_data);
            let (b0, b1, b2, b3) = match ops[0] {
                LineOp::I2cFrame { b0, b1, b2, b3, .. } => (b0, b1, b2, b3),
                _ => panic!("expected the frame first"),
            };
            let rs = if is_data { 0x01 } else { 0x00 };
            assert_eq!(b0, b1 | 0x04);
            assert_eq!(b2, b3 | 0x04);
            assert_eq!(b1 & 0xF0, byte & 0xF0);
            assert_eq!(b3 & 0xF0, (byte & 0x0F) << 4);
            for b in [b0, b1, b2, b3] {
                assert_eq!(b & 0x08, 0x08);
                assert_eq!(b & 0x01, rs);
            }
            assert_eq!(ops[1], LineOp::Delay(1000));
            assert_eq!(ops.len(), 2);
        }
    }
}
