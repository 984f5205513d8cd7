use shadow_reth_rpc::session::encode_rows;
use shadow_reth_rpc::text::{
    be_hex, blob_literal, check_hex_text, i64_to_be_bytes, i64_to_decimal, prefixed_hex,
    push_decimal, u64_to_decimal,
};
use shadow_reth_rpc::{GetLogsResult, RawGetLogsRow};

fn row() -> RawGetLogsRow {
    RawGetLogsRow {
        address: vec![0x12],
        block_hash: vec![0xab, 0xcd, 0x00, 0xef],
        block_log_index: 3,
        block_number: 10,
        data: vec![],
        removed: true,
        topic_0: Some(vec![0x01, 0x02]),
        topic_1: None,
        topic_2: Some(vec![0xff]),
        topic_3: None,
        transaction_hash: vec![0x0f, 0xf0],
        transaction_index: 14,
        transaction_log_index: 5,
    }
}

#[test]
fn binary_columns_become_prefixed_lowercase_hex() {
    assert_eq!(prefixed_hex(&[0x12]), "0x12");
    assert_eq!(prefixed_hex(&[]), "0x");
    assert_eq!(prefixed_hex(&[0x00, 0x0a, 0xa0, 0xff, 0xAB]), "0x000aa0ffab");
    let all: Vec<u8> = (0..=255).collect();
    let expected: String = all.iter().map(|b| format!("{b:02x}")).collect();
    assert_eq!(prefixed_hex(&all), format!("0x{expected}"));
}

#[test]
fn block_number_is_the_hex_of_its_big_endian_bytes() {
    assert_eq!(be_hex(10), "000000000000000a");
    assert_eq!(be_hex(0), "0000000000000000");
    assert_eq!(be_hex(0x0102030405060708), "0102030405060708");
    assert_eq!(be_hex(i64::MAX), "7fffffffffffffff");
    assert_eq!(be_hex(-1), "ffffffffffffffff");
    assert_eq!(be_hex(i64::MIN), "8000000000000000");
    for n in [0i64, 1, 255, 256, 65_535, 1 << 40, -2, i64::MIN + 1, 1_234_567_890_123] {
        assert_eq!(i64_to_be_bytes(n), n.to_be_bytes().to_vec());
    }
}

#[test]
fn indices_are_decimal() {
    assert_eq!(i64_to_decimal(0), "0");
    assert_eq!(i64_to_decimal(7), "7");
    assert_eq!(i64_to_decimal(10), "10");
    assert_eq!(i64_to_decimal(-120), "-120");
    assert_eq!(i64_to_decimal(i64::MAX), "9223372036854775807");
    assert_eq!(i64_to_decimal(i64::MIN), "-9223372036854775808");
    assert_eq!(u64_to_decimal(u64::MAX), "18446744073709551615");
    assert_eq!(u64_to_decimal(1000), "1000");
    let mut text = "n=".to_string();
    push_decimal(&mut text, 409);
    assert_eq!(text, "n=409");
}

#[test]
fn a_row_is_encoded_field_by_field() {
    let entry = GetLogsResult::from(row());
    assert_eq!(
        entry,
        GetLogsResult {
            address: "0x12".to_string(),
            block_hash: "0xabcd00ef".to_string(),
            block_number: "000000000000000a".to_string(),
            data: "0x".to_string(),
            log_index: "3".to_string(),
            removed: true,
            topics: [Some("0x0102".to_string()), None, Some("0xff".to_string()), None],
            transaction_hash: "0x0ff0".to_string(),
            transaction_index: "14".to_string(),
        }
    );
}

#[test]
fn rows_keep_their_order() {
    let mut second = row();
    second.block_log_index = 4;
    second.removed = false;
    let entries = encode_rows(vec![row(), second.clone(), row()]);
    assert_eq!(
        entries,
        vec![GetLogsResult::from(row()), GetLogsResult::from(second), GetLogsResult::from(row())]
    );
    assert_eq!(encode_rows(vec![]), vec![]);
}

#[test]
fn binary_literals_take_hexadecimal_text_only() {
    assert!(check_hex_text("0x"));
    assert!(check_hex_text("0x0123456789abcdefABCDEF"));
    assert!(!check_hex_text(""));
    assert!(!check_hex_text("0"));
    assert!(!check_hex_text("12"));
    assert!(!check_hex_text("0X12"));
    assert!(!check_hex_text("0x12g"));
    assert!(!check_hex_text("0x12 "));
    assert!(!check_hex_text("0x12'"));
    assert!(!check_hex_text("0x12\u{e9}"));
    assert!(!check_hex_text("\u{e9}x12"));
    assert_eq!(blob_literal("0x12aB"), Some("X'12aB'".to_string()));
    assert_eq!(blob_literal("0x123"), Some("X'123'".to_string()));
    assert_eq!(blob_literal("0x"), Some("X''".to_string()));
    assert_eq!(blob_literal("0x12' OR 1=1 --"), None);
    assert_eq!(blob_literal("123"), None);
}

#[test]
fn decimal_agrees_with_the_standard_form() {
    let mut n: u64 = 1;
    loop {
        for m in [n - 1, n, n + 1] {
            assert_eq!(u64_to_decimal(m), m.to_string());
            if m <= i64::MAX as u64 {
                assert_eq!(i64_to_decimal(m as i64), (m as i64).to_string());
                assert_eq!(i64_to_decimal(-(m as i64)), (-(m as i64)).to_string());
            }
        }
        match n.checked_mul(10) {
            Some(next) => n = next,
            None => break,
        }
    }
}

#[test]
fn different_bytes_have_different_hex() {
    let inputs: [&[u8]; 6] = [&[], &[0x00], &[0x01], &[0x10], &[0x00, 0x00], &[0x01, 0x00]];
    for (i, a) in inputs.iter().enumerate() {
        for (j, b) in inputs.iter().enumerate() {
            assert_eq!(prefixed_hex(a) == prefixed_hex(b), i == j);
        }
    }
}
