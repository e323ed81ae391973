use gimbal_motion::codec::{
    crc8, encode_read, encode_write, Frame, FrameDecoder, DEVICE_ADDR, SYNC,
};
use gimbal_motion::registers::{
    classify_register, RegisterKind, TmcRegisters, GCONF_PDN_DISABLE, GCONF_SHAFT, REG_GCONF,
    REG_IFCNT, REG_IOIN, REG_VACTUAL,
};

fn decode_all(bytes: &[u8]) -> Option<Frame> {
    let mut dec = FrameDecoder::new();
    let mut out = None;
    for &b in bytes {
        if let Some(f) = dec.push_byte(b) {
            out = Some(f);
        }
    }
    out
}

#[test]
fn crc8_check_value() {
    // The standard check vector for CRC-8 poly 0x07, init 0.
    assert_eq!(crc8(b"123456789"), 0xF4);
    assert_eq!(crc8(b""), 0x00);
}

#[test]
fn encode_write_layout() {
    let f = encode_write(REG_VACTUAL, 0xDEAD_BEEF);
    assert_eq!(f, vec![SYNC, DEVICE_ADDR, 0x22 | 0x80, 0xDE, 0xAD, 0xBE, 0xEF, 0x57]);
}

#[test]
fn encode_read_layout() {
    let f = encode_read(REG_IFCNT);
    assert_eq!(f, vec![SYNC, DEVICE_ADDR, 0x02, 0xCE]);
}

#[test]
fn round_trip_reproduces_register_and_value() {
    let encoded = encode_write(REG_VACTUAL, 0xDEAD_BEEF);
    let frame = decode_all(&encoded).expect("uncorrupted frame must decode");
    assert_eq!(frame.addr, REG_VACTUAL);
    assert_eq!(frame.value, 0xDEAD_BEEF);

    let encoded = encode_write(0x00, 0);
    let frame = decode_all(&encoded).expect("uncorrupted frame must decode");
    assert_eq!(frame.addr, 0x00);
    assert_eq!(frame.value, 0);

    let encoded = encode_write(0x7F, u32::MAX);
    let frame = decode_all(&encoded).expect("uncorrupted frame must decode");
    assert_eq!(frame.addr, 0x7F);
    assert_eq!(frame.value, u32::MAX);
}

#[test]
fn any_single_byte_flip_is_rejected() {
    let encoded = encode_write(REG_VACTUAL, 0xDEAD_BEEF);
    for i in 0..encoded.len() {
        for flip in [0x01u8, 0x80, 0xFF] {
            let mut corrupted = encoded.clone();
            corrupted[i] ^= flip;
            assert_eq!(decode_all(&corrupted), None, "flip at byte {i} must be dropped");
        }
    }
}

#[test]
fn decoder_resynchronizes_after_garbage() {
    // Bytes ahead of a sync marker are discarded; the frame after them
    // still decodes.
    let mut bytes = vec![0x00u8, 0xFF, 0x13];
    bytes.extend_from_slice(&encode_write(REG_GCONF, 0x48));
    let frame = decode_all(&bytes).expect("frame after garbage must decode");
    assert_eq!(frame.addr, REG_GCONF);
    assert_eq!(frame.value, 0x48);
}

#[test]
fn decoder_drops_bad_frame_then_accepts_next() {
    let good = encode_write(REG_VACTUAL, 7);
    let mut bad = good.clone();
    bad[5] ^= 0x10;
    let mut dec = FrameDecoder::new();
    for &b in &bad {
        assert_eq!(dec.push_byte(b), None);
    }
    let mut got = None;
    for &b in &good {
        if let Some(f) = dec.push_byte(b) {
            got = Some(f);
        }
    }
    let frame = got.expect("clean frame after a dropped one must decode");
    assert_eq!(frame.addr, REG_VACTUAL);
    assert_eq!(frame.value, 7);
}

#[test]
fn classify_known_registers() {
    assert_eq!(classify_register(REG_IOIN), RegisterKind::IoStatus);
    assert_eq!(classify_register(REG_IFCNT), RegisterKind::InterfaceCounter);
    assert_eq!(classify_register(0x55), RegisterKind::Unknown);
    assert_eq!(classify_register(REG_VACTUAL), RegisterKind::Unknown);
}

#[test]
fn gconf_bits() {
    let mut regs = TmcRegisters::new();
    assert_eq!(regs.gconf, 0);
    regs.set_shaft(true);
    regs.set_pdn_disable(true);
    assert_eq!(regs.gconf, GCONF_SHAFT | GCONF_PDN_DISABLE);
    regs.set_shaft(false);
    assert_eq!(regs.gconf, GCONF_PDN_DISABLE);
}

#[test]
fn heartbeat_is_two_write_frames() {
    let mut regs = TmcRegisters::new();
    regs.set_shaft(true);
    regs.set_pdn_disable(true);
    regs.set_vactual(400);
    let bytes = regs.heartbeat_frames();
    let mut expected = encode_write(REG_GCONF, 0x48);
    expected.extend_from_slice(&encode_write(REG_VACTUAL, 400));
    assert_eq!(bytes, expected);
    // And the first frame carries the configured GCONF bits.
    let frame = decode_all(&bytes[..8]).expect("heartbeat frame must decode");
    assert_eq!(frame.addr, REG_GCONF);
    assert_eq!(frame.value, GCONF_SHAFT | GCONF_PDN_DISABLE);
}
