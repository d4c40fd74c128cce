use solana_groth16_verifier::error::DecodeError;
use solana_groth16_verifier::record::{decode, VerificationRecord, HASH_LEN, RECORD_LEN};

type Fields = (u8, [u8; 32], [u8; 32], i64, bool);

fn counting(from: u8) -> [u8; 32] {
    let mut out = [0u8; 32];
    for (i, byte) in out.iter_mut().enumerate() {
        *byte = from.wrapping_add(i as u8);
    }
    out
}

fn wire(template_id: u8, timestamp: [u8; 8], flag: u8) -> Vec<u8> {
    let mut bytes = vec![template_id];
    bytes.extend_from_slice(&counting(1));
    bytes.extend_from_slice(&counting(101));
    bytes.extend_from_slice(&timestamp);
    bytes.push(flag);
    bytes
}

fn next(state: &mut u64) -> u8 {
    *state = state
        .wrapping_mul(6364136223846793005)
        .wrapping_add(1442695040888963407);
    (*state >> 56) as u8
}

#[test]
fn record_is_74_bytes_on_the_wire() {
    assert_eq!(RECORD_LEN, 74);
    assert_eq!(HASH_LEN, 32);
    assert_eq!(RECORD_LEN, 1 + HASH_LEN + HASH_LEN + 8 + 1);
}

#[test]
fn decode_reads_every_field() {
    let bytes = wire(7, [0x00, 0xf1, 0x53, 0x65, 0x00, 0x00, 0x00, 0x00], 1);
    assert_eq!(bytes.len(), 74);
    let record = decode(&bytes).unwrap();
    assert_eq!(
        record,
        VerificationRecord {
            template_id: 7,
            proof_hash: counting(1),
            public_signals_hash: counting(101),
            timestamp: 1_700_000_000,
            verified_by_snarkjs: true,
        }
    );
    assert_eq!(record.proof_hash[0], 1);
    assert_eq!(record.proof_hash[31], 32);
    assert_eq!(record.public_signals_hash[0], 101);
    assert_eq!(record.public_signals_hash[31], 132);
}

#[test]
fn decode_reads_flag_zero_as_false() {
    let bytes = wire(0, [0; 8], 0);
    let record = decode(&bytes).unwrap();
    assert!(!record.verified_by_snarkjs);
    assert_eq!(record.template_id, 0);
    assert_eq!(record.timestamp, 0);
}

#[test]
fn decode_keeps_widest_template_id() {
    let record = decode(&wire(255, [0; 8], 1)).unwrap();
    assert_eq!(record.template_id, 255);
}

#[test]
fn decode_timestamp_is_little_endian() {
    let record = decode(&wire(1, [1, 0, 0, 0, 0, 0, 0, 0], 1)).unwrap();
    assert_eq!(record.timestamp, 1);
    let record = decode(&wire(1, [0, 1, 0, 0, 0, 0, 0, 0], 1)).unwrap();
    assert_eq!(record.timestamp, 256);
    let record = decode(&wire(1, [0, 0, 0, 0, 0, 0, 0, 1], 1)).unwrap();
    assert_eq!(record.timestamp, 1 << 56);
    let record = decode(&wire(1, [0x08, 0x07, 0x06, 0x05, 0x04, 0x03, 0x02, 0x01], 1)).unwrap();
    assert_eq!(record.timestamp, 0x0102_0304_0506_0708);
}

#[test]
fn decode_timestamp_is_signed() {
    let record = decode(&wire(1, [0xff; 8], 1)).unwrap();
    assert_eq!(record.timestamp, -1);
    let record = decode(&wire(1, [0, 0, 0, 0, 0, 0, 0, 0x80], 1)).unwrap();
    assert_eq!(record.timestamp, i64::MIN);
    let record = decode(&wire(1, [0xff, 0xff, 0xff, 0xff, 0xff, 0xff, 0xff, 0x7f], 1)).unwrap();
    assert_eq!(record.timestamp, i64::MAX);
    let record = decode(&wire(1, [0xfe, 0xff, 0xff, 0xff, 0xff, 0xff, 0xff, 0xff], 1)).unwrap();
    assert_eq!(record.timestamp, -2);
    let record = decode(&wire(1, [0x00, 0x0f, 0xac, 0x9a, 0xff, 0xff, 0xff, 0xff], 1)).unwrap();
    assert_eq!(record.timestamp, -1_700_000_000);
}

#[test]
fn decode_rejects_empty_input() {
    assert_eq!(decode(&[]), Err(DecodeError::Malformed));
}

#[test]
fn decode_rejects_truncated_input() {
    let bytes = wire(1, [0; 8], 1);
    for len in 0..74 {
        assert_eq!(decode(&bytes[..len]), Err(DecodeError::Malformed), "length {}", len);
    }
}

#[test]
fn decode_rejects_trailing_bytes() {
    let mut bytes = wire(1, [0; 8], 1);
    bytes.push(0);
    assert_eq!(bytes.len(), 75);
    assert_eq!(decode(&bytes), Err(DecodeError::Malformed));
    bytes.extend_from_slice(&[0xaa; 100]);
    assert_eq!(decode(&bytes), Err(DecodeError::Malformed));
}

#[test]
fn decode_rejects_flag_that_is_no_bool() {
    for flag in 2..=255u8 {
        assert_eq!(decode(&wire(1, [0; 8], flag)), Err(DecodeError::Malformed), "flag {}", flag);
    }
}

#[test]
fn decode_accepts_all_zero_hashes() {
    let mut bytes = vec![0u8; 74];
    bytes[73] = 1;
    let record = decode(&bytes).unwrap();
    assert_eq!(record.proof_hash, [0u8; 32]);
    assert_eq!(record.public_signals_hash, [0u8; 32]);
    assert!(record.verified_by_snarkjs);
}

#[test]
fn decode_reads_what_borsh_writes() {
    let fields: Fields = (9, counting(40), counting(80), -123_456_789_012, true);
    let bytes = borsh::to_vec(&fields).unwrap();
    assert_eq!(bytes.len(), 74);
    assert_eq!(
        decode(&bytes),
        Ok(VerificationRecord {
            template_id: 9,
            proof_hash: counting(40),
            public_signals_hash: counting(80),
            timestamp: -123_456_789_012,
            verified_by_snarkjs: true,
        })
    );
}

#[test]
fn decode_agrees_with_borsh_on_arbitrary_buffers() {
    let mut state = 0x1234_5678_9abc_def0u64;
    let mut accepted = 0;
    let mut rejected = 0;
    for round in 0..4000usize {
        let len = match round % 8 {
            0 => 73,
            1 => 75,
            2 => (next(&mut state) as usize) % 160,
            _ => 74,
        };
        let mut bytes: Vec<u8> = (0..len).map(|_| next(&mut state)).collect();
        if len == 74 && round % 2 == 0 {
            bytes[73] = next(&mut state) % 3;
        }
        let ours = decode(&bytes);
        let theirs = borsh::from_slice::<Fields>(&bytes);
        match (ours, theirs) {
            (Ok(record), Ok(fields)) => {
                accepted += 1;
                assert_eq!(record.template_id, fields.0);
                assert_eq!(record.proof_hash, fields.1);
                assert_eq!(record.public_signals_hash, fields.2);
                assert_eq!(record.timestamp, fields.3);
                assert_eq!(record.verified_by_snarkjs, fields.4);
            }
            (Err(e), Err(_)) => {
                rejected += 1;
                assert_eq!(e, DecodeError::Malformed);
            }
            (ours, theirs) => panic!(
                "disagreement on {:?}: {:?} against {:?}",
                bytes,
                ours,
                theirs.is_ok()
            ),
        }
    }
    assert!(accepted > 500);
    assert!(rejected > 500);
}
