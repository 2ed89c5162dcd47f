//! Whole-stream decoding: framing, byte-order bootstrap, lenient
//! defaults, failure tolerance, and the accumulated aggregate.

use stdf2pq::parser::parse_bytes;

/// One framed record: little-endian length, type, subtype, payload.
fn rec_le(typ: u8, sub: u8, payload: &[u8]) -> Vec<u8> {
    let mut out = Vec::new();
    let len = payload.len() as u16;
    out.push((len & 0xFF) as u8);
    out.push((len >> 8) as u8);
    out.push(typ);
    out.push(sub);
    out.extend_from_slice(payload);
    out
}

/// A lot-info payload whose lot id is the given ASCII string.
fn mir_payload(lot: &str, start_t: u32) -> Vec<u8> {
    let mut p = Vec::new();
    p.extend_from_slice(&[0, 0, 0, 0]); // setup time
    p.extend_from_slice(&start_t.to_le_bytes());
    p.push(1); // station number
    p.extend_from_slice(&[b' ', b' ', b' ']); // mode, retest, protection codes
    p.extend_from_slice(&[0, 0]); // burn-in time
    p.push(b' '); // command-mode code
    p.push(lot.len() as u8);
    p.extend_from_slice(lot.as_bytes());
    p
}

/// A parametric-test payload: number, flag, one scalar result, no name.
fn ptr_payload(test_num: u32, test_flg: u8, result: f32) -> Vec<u8> {
    let mut p = Vec::new();
    p.extend_from_slice(&test_num.to_le_bytes());
    p.push(1); // head
    p.push(1); // site
    p.push(test_flg);
    p.push(0); // parametric flag
    p.extend_from_slice(&result.to_le_bytes());
    p
}

#[test]
fn test_empty_input_yields_empty_aggregate() {
    let data = parse_bytes(&[]);
    assert_eq!(data.lot_id, "");
    assert_eq!(data.wafers.len(), 0);
    assert_eq!(data.parts.len(), 0);
    assert_eq!(data.test_results.len(), 0);
    assert_eq!(data.tests.len(), 0);
}

#[test]
fn test_end_to_end_single_part() {
    let mut stream = Vec::new();
    stream.extend(rec_le(0, 10, &[2, 4])); // file attributes: cpu 2 = little-endian
    stream.extend(rec_le(1, 10, &mir_payload("X", 1111)));
    // wafer info: head 1, site group 0, start time, wafer id "W1"
    let mut wir = vec![1, 0, 0, 0, 0, 0];
    wir.push(2);
    wir.extend_from_slice(b"W1");
    stream.extend(rec_le(2, 10, &wir));
    stream.extend(rec_le(5, 10, &[1, 1])); // part start
    stream.extend(rec_le(15, 10, &ptr_payload(100, 0, 5.0)));
    // part results: head, site, flag 0 (pass), 3 tests, hard bin 1, soft bin 1
    let prr = [1u8, 1, 0, 3, 0, 1, 0, 1, 0];
    stream.extend(rec_le(5, 20, &prr));
    // wafer results: head, site group, finish, 4 parts, 0 retest, 0 abort, 3 good
    let mut wrr = vec![1, 0];
    wrr.extend_from_slice(&2222u32.to_le_bytes());
    wrr.extend_from_slice(&4u32.to_le_bytes());
    wrr.extend_from_slice(&0u32.to_le_bytes());
    wrr.extend_from_slice(&0u32.to_le_bytes());
    wrr.extend_from_slice(&3u32.to_le_bytes());
    stream.extend(rec_le(2, 20, &wrr));
    let mut mrr = Vec::new();
    mrr.extend_from_slice(&3333u32.to_le_bytes());
    stream.extend(rec_le(1, 20, &mrr));

    let data = parse_bytes(&stream);
    assert_eq!(data.lot_id, "X");
    assert_eq!(data.start_time, 1111);
    assert_eq!(data.finish_time, 3333);
    assert_eq!(data.wafers.len(), 1);
    assert_eq!(data.wafers[0].wafer_id, "W1");
    assert_eq!(data.wafers[0].part_count, 4);
    assert_eq!(data.wafers[0].good_count, 3);
    assert_eq!(data.wafers[0].finish_time, 2222);
    assert_eq!(data.parts.len(), 1);
    assert_eq!(data.parts[0].part_id, "X_W1_1");
    assert!(data.parts[0].passed);
    assert_eq!(data.parts[0].hard_bin, 1);
    assert_eq!(data.test_results.len(), 1);
    assert_eq!(data.test_results[0].test_num, 100);
    assert_eq!(data.test_results[0].result, Some(5.0f32.to_bits()));
    assert!(data.test_results[0].passed);
    assert_eq!(data.tests.len(), 1);
}

#[test]
fn test_big_endian_after_far() {
    let mut stream = Vec::new();
    stream.extend(rec_le(0, 10, &[1, 4])); // cpu 1 = big-endian
    // lot-results record framed big-endian: length 4, finish time 0x01020304
    stream.extend_from_slice(&[0, 4, 1, 20, 1, 2, 3, 4]);
    let data = parse_bytes(&stream);
    assert_eq!(data.finish_time, 0x01020304);
}

#[test]
fn test_little_endian_when_first_byte_not_sentinel() {
    let mut stream = Vec::new();
    stream.extend(rec_le(0, 10, &[2, 4]));
    let mut mrr = Vec::new();
    mrr.extend_from_slice(&0x01020304u32.to_le_bytes());
    stream.extend(rec_le(1, 20, &mrr));
    let data = parse_bytes(&stream);
    assert_eq!(data.finish_time, 0x01020304);
}

#[test]
fn test_part_flag_bit_three_fails_part() {
    let mut stream = Vec::new();
    stream.extend(rec_le(0, 10, &[2, 4]));
    stream.extend(rec_le(5, 20, &[1, 1, 0x08, 0, 0, 1, 0])); // bit 3 set
    stream.extend(rec_le(5, 20, &[1, 1, 0x00, 0, 0, 1, 0])); // bit 3 clear
    let data = parse_bytes(&stream);
    assert_eq!(data.parts.len(), 2);
    assert!(!data.parts[0].passed);
    assert!(data.parts[1].passed);
}

#[test]
fn test_test_flag_bit_seven_fails_test() {
    let mut stream = Vec::new();
    stream.extend(rec_le(0, 10, &[2, 4]));
    stream.extend(rec_le(15, 10, &ptr_payload(7, 0x80, 1.0)));
    // functional test: number, head, site, flag with bit 7 set
    let mut ftr = Vec::new();
    ftr.extend_from_slice(&8u32.to_le_bytes());
    ftr.extend_from_slice(&[1, 1, 0x80]);
    stream.extend(rec_le(15, 20, &ftr));
    let data = parse_bytes(&stream);
    assert_eq!(data.test_results.len(), 2);
    assert!(!data.test_results[0].passed);
    assert!(!data.test_results[1].passed);
    assert_eq!(data.test_results[1].result, None);
}

#[test]
fn test_missing_tail_defaults() {
    let mut stream = Vec::new();
    stream.extend(rec_le(0, 10, &[2, 4]));
    // part results cut after the mandatory prefix: head, site, flag,
    // test count, hard bin
    stream.extend(rec_le(5, 20, &[1, 1, 0, 2, 0, 5, 0]));
    // parametric test cut after the mandatory prefix
    let mut ptr = Vec::new();
    ptr.extend_from_slice(&9u32.to_le_bytes());
    ptr.extend_from_slice(&[1, 1, 0, 0]);
    stream.extend(rec_le(15, 10, &ptr));
    let data = parse_bytes(&stream);
    assert_eq!(data.parts.len(), 1);
    assert_eq!(data.parts[0].x_coord, -32768);
    assert_eq!(data.parts[0].y_coord, -32768);
    assert_eq!(data.parts[0].soft_bin, 0);
    assert_eq!(data.parts[0].hard_bin, 5);
    assert_eq!(data.test_results.len(), 1);
    assert_eq!(data.test_results[0].result, None);
    assert_eq!(data.test_results[0].lo_limit, None);
    assert_eq!(data.test_results[0].hi_limit, None);
    assert_eq!(data.test_results[0].test_name, "");
    assert_eq!(data.test_results[0].units, "");
}

#[test]
fn test_orphan_wafer_results_is_noop() {
    let mut stream = Vec::new();
    stream.extend(rec_le(0, 10, &[2, 4]));
    let mut wrr = vec![1, 0];
    wrr.extend_from_slice(&2222u32.to_le_bytes());
    stream.extend(rec_le(2, 20, &wrr));
    stream.extend(rec_le(1, 20, &[0, 0, 0, 0])); // still parsed afterwards
    let data = parse_bytes(&stream);
    assert_eq!(data.wafers.len(), 0);
    assert_eq!(data.finish_time, 0);
}

#[test]
fn test_shared_test_number_one_definition_two_rows() {
    let mut stream = Vec::new();
    stream.extend(rec_le(0, 10, &[2, 4]));
    stream.extend(rec_le(5, 10, &[1, 1]));
    // first record carries the name; the name never gets overwritten
    let mut p1 = ptr_payload(100, 0, 1.5);
    p1.push(3);
    p1.extend_from_slice(b"Vdd");
    stream.extend(rec_le(15, 10, &p1));
    stream.extend(rec_le(5, 20, &[1, 1, 0, 1, 0, 1, 0]));
    stream.extend(rec_le(5, 10, &[1, 1]));
    let mut p2 = ptr_payload(100, 0, 2.5);
    p2.push(5);
    p2.extend_from_slice(b"Other");
    stream.extend(rec_le(15, 10, &p2));
    stream.extend(rec_le(5, 20, &[1, 1, 0, 1, 0, 1, 0]));
    let data = parse_bytes(&stream);
    assert_eq!(data.tests.len(), 1);
    assert_eq!(data.tests.get(&100).unwrap().test_name, "Vdd");
    assert_eq!(data.test_results.len(), 2);
    assert_eq!(data.test_results[0].test_name, "Vdd");
    assert_eq!(data.test_results[1].test_name, "Vdd");
    assert_eq!(data.test_results[0].result, Some(1.5f32.to_bits()));
    assert_eq!(data.test_results[1].result, Some(2.5f32.to_bits()));
}

#[test]
fn test_truncated_header_returns_accumulated() {
    let mut stream = Vec::new();
    stream.extend(rec_le(0, 10, &[2, 4]));
    stream.extend(rec_le(1, 10, &mir_payload("LOT7", 1)));
    stream.extend_from_slice(&[9, 9]); // two stray bytes: less than a header
    let data = parse_bytes(&stream);
    assert_eq!(data.lot_id, "LOT7");
}

#[test]
fn test_truncated_mid_payload_returns_accumulated() {
    let mut stream = Vec::new();
    stream.extend(rec_le(0, 10, &[2, 4]));
    stream.extend(rec_le(1, 10, &mir_payload("LOT8", 1)));
    // header claims 40 payload bytes; only 3 remain
    stream.extend_from_slice(&[40, 0, 15, 10, 1, 2, 3]);
    let data = parse_bytes(&stream);
    assert_eq!(data.lot_id, "LOT8");
    assert_eq!(data.test_results.len(), 0);
}

#[test]
fn test_bad_record_is_skipped_not_fatal() {
    let mut stream = Vec::new();
    stream.extend(rec_le(0, 10, &[2, 4]));
    stream.extend(rec_le(1, 20, &[7])); // lot results cut inside its field
    stream.extend(rec_le(1, 10, &mir_payload("OK", 1)));
    let data = parse_bytes(&stream);
    assert_eq!(data.finish_time, 0);
    assert_eq!(data.lot_id, "OK");
}

#[test]
fn test_unknown_record_kind_is_skipped() {
    let mut stream = Vec::new();
    stream.extend(rec_le(0, 10, &[2, 4]));
    stream.extend(rec_le(10, 30, &[1, 2, 3, 4, 5])); // unsupported kind
    stream.extend(rec_le(1, 10, &mir_payload("Z", 1)));
    let data = parse_bytes(&stream);
    assert_eq!(data.lot_id, "Z");
}

#[test]
fn test_hard_and_soft_bins_last_write_wins() {
    let mut stream = Vec::new();
    stream.extend(rec_le(0, 10, &[2, 4]));
    let mut hbr = vec![1, 1, 2, 0];
    hbr.extend_from_slice(&10u32.to_le_bytes());
    hbr.push(b'P');
    hbr.push(4);
    hbr.extend_from_slice(b"good");
    stream.extend(rec_le(1, 40, &hbr));
    let mut hbr2 = vec![1, 1, 2, 0];
    hbr2.extend_from_slice(&11u32.to_le_bytes());
    hbr2.push(b'F');
    stream.extend(rec_le(1, 40, &hbr2));
    let mut sbr = vec![1, 1, 7, 0];
    sbr.extend_from_slice(&5u32.to_le_bytes());
    stream.extend(rec_le(1, 50, &sbr));
    let data = parse_bytes(&stream);
    assert_eq!(data.bins_hard.len(), 1);
    let b = data.bins_hard.get(&2).unwrap();
    assert_eq!(b.bin_count, 11);
    assert_eq!(b.bin_pf, "F");
    assert_eq!(b.bin_name, "");
    let s = data.bins_soft.get(&7).unwrap();
    assert_eq!(s.bin_count, 5);
    assert_eq!(s.bin_pf, "");
}

#[test]
fn test_multi_result_keeps_first_result_only() {
    let mut stream = Vec::new();
    stream.extend(rec_le(0, 10, &[2, 4]));
    // multi-result test: number, head, site, flag, parm flag,
    // 2 returned states, 3 results
    let mut mpr = Vec::new();
    mpr.extend_from_slice(&55u32.to_le_bytes());
    mpr.extend_from_slice(&[1, 1, 0, 0]);
    mpr.extend_from_slice(&2u16.to_le_bytes());
    mpr.extend_from_slice(&3u16.to_le_bytes());
    mpr.push(0x21); // nibble-packed states: one byte for two entries
    mpr.extend_from_slice(&7.5f32.to_le_bytes());
    mpr.extend_from_slice(&8.5f32.to_le_bytes());
    mpr.extend_from_slice(&9.5f32.to_le_bytes());
    stream.extend(rec_le(15, 15, &mpr));
    let data = parse_bytes(&stream);
    assert_eq!(data.test_results.len(), 1);
    assert_eq!(data.test_results[0].result, Some(7.5f32.to_bits()));
    assert_eq!(data.tests.get(&55).unwrap().rec_type, "MPR");
}

#[test]
fn test_non_ascii_string_is_replaced_not_rejected() {
    let mut stream = Vec::new();
    stream.extend(rec_le(0, 10, &[2, 4]));
    let mut mir = mir_payload("", 1);
    mir.pop(); // drop the zero-length lot id
    mir.push(2);
    mir.extend_from_slice(&[0xFF, 0xFE]); // not valid text
    stream.extend(rec_le(1, 10, &mir));
    let data = parse_bytes(&stream);
    assert_eq!(data.lot_id, "\u{FFFD}\u{FFFD}");
}
