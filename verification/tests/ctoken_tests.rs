use base64::Engine;
use bilibili_ticket::ctoken::{ctoken_buffer, generate_ctoken, to_binary, CtokenMode};
use std::time::{SystemTime, UNIX_EPOCH};

fn decode(token: &str) -> Vec<u8> {
    base64::engine::general_purpose::STANDARD.decode(token).unwrap()
}

fn record_of(token: &str) -> Vec<u8> {
    let wide = decode(token);
    assert_eq!(wide.len(), 32);
    for k in 0..16 {
        assert_eq!(wide[2 * k + 1], 0);
    }
    (0..16).map(|k| wide[2 * k]).collect()
}

#[test]
fn to_binary_widens_and_encodes() {
    // [1, 2, 3] -> [1, 0, 2, 0, 3, 0] -> "AQACAAMA"
    assert_eq!(to_binary(&[1, 2, 3]), "AQACAAMA");
    assert_eq!(to_binary(&[]), "");
    assert_eq!(to_binary(&[255]), "/wA=");
    assert_eq!(to_binary(&[0x41, 0x42]), "QQBCAA==");
}

#[test]
fn to_binary_is_standard_base64_of_widened_bytes() {
    let bytes: Vec<u8> = (0..=255u8).collect();
    let mut wide = Vec::new();
    for b in &bytes {
        wide.push(*b);
        wide.push(0);
    }
    let text = to_binary(&bytes);
    assert_eq!(text, base64::engine::general_purpose::STANDARD.encode(&wide));
    assert_eq!(text.len(), 4 * ((2 * bytes.len() + 2) / 3));
}

#[test]
fn buffer_for_other_tokens() {
    let buffer = ctoken_buffer(CtokenMode::Other { touch_event: 7 }, 123, -5, 100, 1500, 50);
    assert_eq!(
        buffer,
        [7, 0, 2, 0, 255, 2, 255, 255, 0, 100, 0, 0, 255, 0, 0, 255]
    );
}

#[test]
fn buffer_for_create_v2_tokens() {
    // difference = 1000 + 5 - 900 = 105, timer = 105 + 10 = 115
    let buffer = ctoken_buffer(CtokenMode::CreateV2 { now_secs: 1000 }, 900, 5, 10, 1000, 1);
    assert_eq!(
        buffer,
        [255, 0, 2, 0, 255, 25, 255, 255, 0, 115, 0, 105, 255, 0, 0, 255]
    );
}

#[test]
fn buffer_time_difference_wraps_to_16_bits() {
    // 100 - 200 = -100, kept as 65436 = 0xFF9C; timer capped at 65535
    let buffer = ctoken_buffer(CtokenMode::CreateV2 { now_secs: 100 }, 200, 0, 1000, 1000, 1);
    assert_eq!(&buffer[8..12], &[0xFF, 0xFF, 0xFF, 0x9C]);
    // 70000 seconds: 70000 mod 65536 = 4464 = 0x1170
    let buffer = ctoken_buffer(CtokenMode::CreateV2 { now_secs: 70000 }, 0, 0, 0, 1000, 1);
    assert_eq!(&buffer[8..12], &[0x11, 0x70, 0x11, 0x70]);
    // a negative server offset
    let buffer = ctoken_buffer(CtokenMode::CreateV2 { now_secs: 1_700_000_000 }, 1_699_999_000, -400, 0, 1000, 1);
    assert_eq!(&buffer[8..12], &[0x02, 0x58, 0x02, 0x58]);
}

#[test]
fn buffer_timer_is_capped() {
    let buffer = ctoken_buffer(CtokenMode::Other { touch_event: 3 }, 0, 0, u64::MAX, 1000, 1);
    assert_eq!(&buffer[8..12], &[0xFF, 0xFF, 0, 0]);
    let buffer = ctoken_buffer(CtokenMode::Other { touch_event: 3 }, 0, 0, 65535, 1000, 1);
    assert_eq!(&buffer[8..12], &[0xFF, 0xFF, 0, 0]);
    let buffer = ctoken_buffer(CtokenMode::Other { touch_event: 3 }, 0, 0, 65534, 1000, 1);
    assert_eq!(&buffer[8..12], &[0xFF, 0xFE, 0, 0]);
    let buffer = ctoken_buffer(CtokenMode::CreateV2 { now_secs: 10 }, 0, 0, u64::MAX, 1000, 1);
    assert_eq!(&buffer[8..12], &[0xFF, 0xFF, 0, 10]);
}

#[test]
fn buffer_touch_events_are_clamped_to_a_byte() {
    let buffer = ctoken_buffer(CtokenMode::Other { touch_event: 300 }, 0, 0, 0, 1000, 1);
    assert_eq!(buffer[0], 255);
}

#[test]
fn buffer_ignores_screen_values() {
    let a = ctoken_buffer(CtokenMode::Other { touch_event: 5 }, 1, 2, 3, 1000, 1);
    let b = ctoken_buffer(CtokenMode::Other { touch_event: 5 }, 1, 2, 3, 3000, 100);
    let c = ctoken_buffer(CtokenMode::Other { touch_event: 5 }, 1, 2, 3, 1004, 77);
    assert_eq!(a, b);
    assert_eq!(a, c);
}

#[test]
fn other_token_has_touch_events_between_3_and_10() {
    for _ in 0..50 {
        let token = generate_ctoken("prepare", 0, 0, 42);
        assert_eq!(token.len(), 44);
        let record = record_of(&token);
        assert!((3..=10).contains(&record[0]));
        let mut expected = [0, 0, 2, 0, 255, 2, 255, 255, 0, 42, 0, 0, 255, 0, 0, 255];
        expected[0] = record[0];
        assert_eq!(record, expected);
    }
}

#[test]
fn create_v2_token_records_elapsed_seconds() {
    let before = SystemTime::now().duration_since(UNIX_EPOCH).unwrap().as_secs();
    let token = generate_ctoken("createV2", before - 100, 0, 20);
    let after = SystemTime::now().duration_since(UNIX_EPOCH).unwrap().as_secs();
    assert_eq!(token.len(), 44);
    let record = record_of(&token);
    assert_eq!(&record[0..8], &[255, 0, 2, 0, 255, 25, 255, 255]);
    assert_eq!(&record[12..16], &[255, 0, 0, 255]);
    let difference = (record[10] as u64) * 256 + record[11] as u64;
    let timer = (record[8] as u64) * 256 + record[9] as u64;
    assert!(difference >= 100 && difference <= 100 + (after - before));
    assert_eq!(timer, difference + 20);
}

#[test]
fn create_v2_is_matched_exactly() {
    let token = generate_ctoken("createv2", 0, 0, 0);
    let record = record_of(&token);
    assert_eq!(record[5], 2);
    let token = generate_ctoken("createV2 ", 0, 0, 0);
    let record = record_of(&token);
    assert_eq!(record[5], 2);
}

#[test]
fn to_binary_splits_after_three_bytes() {
    let a = [9u8, 8, 7, 6, 5, 4];
    let b = [1u8, 2, 3, 4];
    let whole: Vec<u8> = a.iter().chain(b.iter()).copied().collect();
    assert_eq!(to_binary(&whole), to_binary(&a) + &to_binary(&b));
}

#[test]
fn to_binary_tells_buffers_apart() {
    let buffers: Vec<Vec<u8>> = vec![vec![], vec![0], vec![0, 0], vec![0, 0, 0], vec![1], vec![0, 1], vec![255, 0, 0]];
    for (i, x) in buffers.iter().enumerate() {
        for (j, y) in buffers.iter().enumerate() {
            assert_eq!(to_binary(x) == to_binary(y), i == j);
        }
    }
}
