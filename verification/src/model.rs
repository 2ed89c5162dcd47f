//! Mathematical model of the record stream: primitive field values, a
//! cursor-style reading discipline with lenient trailing-field defaults,
//! and one specification decoder per supported record kind.  The exec
//! parser is proved to compute exactly what these functions describe.

use vstd::prelude::*;

verus! {

// ───────────────────────── primitive field values ─────────────────────────

/// Value of a two-byte unsigned integer under the given byte order.
pub open spec fn u2_val(b0: u8, b1: u8, le: bool) -> int {
    if le {
        (b1 as int) * 0x100 + (b0 as int)
    } else {
        (b0 as int) * 0x100 + (b1 as int)
    }
}

/// Value of a four-byte unsigned integer under the given byte order.
pub open spec fn u4_val(b0: u8, b1: u8, b2: u8, b3: u8, le: bool) -> int {
    if le {
        (b3 as int) * 0x1000000 + (b2 as int) * 0x10000 + (b1 as int) * 0x100 + (b0 as int)
    } else {
        (b0 as int) * 0x1000000 + (b1 as int) * 0x10000 + (b2 as int) * 0x100 + (b3 as int)
    }
}

/// Value of a one-byte signed integer (two's complement).
pub open spec fn i1_val(b: u8) -> int {
    if b >= 0x80 {
        (b as int) - 0x100
    } else {
        b as int
    }
}

/// Value of a two-byte signed integer (two's complement) under the given byte order.
pub open spec fn i2_val(b0: u8, b1: u8, le: bool) -> int {
    let u = u2_val(b0, b1, le);
    if u >= 0x8000 {
        u - 0x10000
    } else {
        u
    }
}

// ───────────────────────── character strings ─────────────────────────

/// What `String::from_utf8_lossy` produces on the given bytes; stated only
/// through the trusted reader wrapper, never given a body here.
pub uninterp spec fn utf8_lossy_of(b: Seq<u8>) -> Seq<char>;

/// The permissive text decoding used for every string field: well-formed
/// UTF-8 decodes to exactly its characters; anything else decodes as the
/// lossy replacement decoding.
pub open spec fn chars_of(b: Seq<u8>) -> Seq<char> {
    if vstd::utf8::valid_utf8(b) {
        vstd::utf8::decode_utf8(b)
    } else {
        utf8_lossy_of(b)
    }
}

// ───────────────────────── cursor reading steps ─────────────────────────
//
// A mandatory read (`req_*`) fails when the payload ends before the field.
// An optional read (`or_*`) instead yields the kind's documented default,
// without moving the cursor, once the cursor has reached the payload's end;
// it still fails when the cursor is inside the payload but the field runs
// past its end.  Each step yields the value and the new cursor position.

pub open spec fn req_u1(p: Seq<u8>, pos: int) -> Option<(int, int)> {
    if 0 <= pos && pos + 1 <= p.len() {
        Some((p[pos] as int, pos + 1))
    } else {
        None
    }
}

pub open spec fn req_u2(p: Seq<u8>, pos: int, le: bool) -> Option<(int, int)> {
    if 0 <= pos && pos + 2 <= p.len() {
        Some((u2_val(p[pos], p[pos + 1], le), pos + 2))
    } else {
        None
    }
}

pub open spec fn req_u4(p: Seq<u8>, pos: int, le: bool) -> Option<(int, int)> {
    if 0 <= pos && pos + 4 <= p.len() {
        Some((u4_val(p[pos], p[pos + 1], p[pos + 2], p[pos + 3], le), pos + 4))
    } else {
        None
    }
}

pub open spec fn req_i1(p: Seq<u8>, pos: int) -> Option<(int, int)> {
    if 0 <= pos && pos + 1 <= p.len() {
        Some((i1_val(p[pos]), pos + 1))
    } else {
        None
    }
}

pub open spec fn req_i2(p: Seq<u8>, pos: int, le: bool) -> Option<(int, int)> {
    if 0 <= pos && pos + 2 <= p.len() {
        Some((i2_val(p[pos], p[pos + 1], le), pos + 2))
    } else {
        None
    }
}

/// A length-prefixed string: one length byte, then that many text bytes.
pub open spec fn req_cn(p: Seq<u8>, pos: int) -> Option<(Seq<char>, int)> {
    if 0 <= pos && pos + 1 <= p.len() {
        let n = p[pos] as int;
        if pos + 1 + n <= p.len() {
            Some((chars_of(p.subrange(pos + 1, pos + 1 + n)), pos + 1 + n))
        } else {
            None
        }
    } else {
        None
    }
}

pub open spec fn or_u1(p: Seq<u8>, pos: int, dflt: int) -> (int, int) {
    if pos >= p.len() {
        (dflt, pos)
    } else {
        (p[pos] as int, pos + 1)
    }
}

pub open spec fn or_i1(p: Seq<u8>, pos: int, dflt: int) -> (int, int) {
    if pos >= p.len() {
        (dflt, pos)
    } else {
        (i1_val(p[pos]), pos + 1)
    }
}

pub open spec fn or_u2(p: Seq<u8>, pos: int, le: bool, dflt: int) -> Option<(int, int)> {
    if pos >= p.len() {
        Some((dflt, pos))
    } else {
        req_u2(p, pos, le)
    }
}

pub open spec fn or_i2(p: Seq<u8>, pos: int, le: bool, dflt: int) -> Option<(int, int)> {
    if pos >= p.len() {
        Some((dflt, pos))
    } else {
        req_i2(p, pos, le)
    }
}

pub open spec fn or_u4(p: Seq<u8>, pos: int, le: bool, dflt: int) -> Option<(int, int)> {
    if pos >= p.len() {
        Some((dflt, pos))
    } else {
        req_u4(p, pos, le)
    }
}

/// A four-byte real, kept as its bit pattern; absent yields `None`, which
/// stands for the not-a-number default.
pub open spec fn or_r4(p: Seq<u8>, pos: int, le: bool) -> Option<(Option<u32>, int)> {
    if pos >= p.len() {
        Some((None, pos))
    } else if pos + 4 <= p.len() {
        Some((Some(u4_val(p[pos], p[pos + 1], p[pos + 2], p[pos + 3], le) as u32), pos + 4))
    } else {
        None
    }
}

pub open spec fn or_cn(p: Seq<u8>, pos: int) -> Option<(Seq<char>, int)> {
    if pos >= p.len() {
        Some((Seq::<char>::empty(), pos))
    } else {
        req_cn(p, pos)
    }
}

/// Cursor position after consuming up to `count` items of `size` bytes,
/// stopping cleanly at the payload's end; `None` when the payload ends
/// inside an item.
pub open spec fn step_array(p_len: int, pos: int, count: int, size: int) -> Option<int>
    decreases count,
{
    if count <= 0 {
        Some(pos)
    } else if pos >= p_len {
        Some(pos)
    } else if pos + size <= p_len {
        step_array(p_len, pos + size, count - 1, size)
    } else {
        None
    }
}

// ───────────────────────── decimal rendering ─────────────────────────

pub open spec fn dec_digit(d: int) -> char {
    if d == 0 { '0' }
    else if d == 1 { '1' }
    else if d == 2 { '2' }
    else if d == 3 { '3' }
    else if d == 4 { '4' }
    else if d == 5 { '5' }
    else if d == 6 { '6' }
    else if d == 7 { '7' }
    else if d == 8 { '8' }
    else { '9' }
}

/// Decimal rendering of a non-negative integer, most significant digit first.
pub open spec fn dec_str(n: int) -> Seq<char>
    decreases n,
{
    if n <= 0 {
        seq!['0']
    } else if n < 10 {
        seq![dec_digit(n)]
    } else {
        dec_str(n / 10) + seq![dec_digit(n % 10)]
    }
}

/// The synthesized part identifier: lot, current wafer and part counter,
/// joined by underscores.
pub open spec fn part_id_of(lot: Seq<char>, wafer: Seq<char>, counter: int) -> Seq<char> {
    lot + seq!['_'] + wafer + seq!['_'] + dec_str(counter)
}

// ───────────────────────── the output model ─────────────────────────

#[verifier::ext_equal]
pub struct WaferModel {
    pub wafer_id: Seq<char>,
    pub lot_id: Seq<char>,
    pub head_num: int,
    pub start_time: int,
    pub finish_time: int,
    pub part_count: int,
    pub good_count: int,
    pub rtst_count: int,
    pub abrt_count: int,
}

#[verifier::ext_equal]
pub struct PartModel {
    pub part_id: Seq<char>,
    pub lot_id: Seq<char>,
    pub wafer_id: Seq<char>,
    pub head_num: int,
    pub site_num: int,
    pub x_coord: int,
    pub y_coord: int,
    pub hard_bin: int,
    pub soft_bin: int,
    pub passed: bool,
    pub test_count: int,
    pub test_time: int,
}

#[verifier::ext_equal]
pub struct TestDefModel {
    pub test_num: int,
    pub test_name: Seq<char>,
    pub rec_type: Seq<char>,
    pub lo_limit: Option<u32>,
    pub hi_limit: Option<u32>,
    pub units: Seq<char>,
}

#[verifier::ext_equal]
pub struct TestResultModel {
    pub lot_id: Seq<char>,
    pub part_id: Seq<char>,
    pub wafer_id: Seq<char>,
    pub x_coord: int,
    pub y_coord: int,
    pub test_num: int,
    pub test_name: Seq<char>,
    pub rec_type: Seq<char>,
    pub lo_limit: Option<u32>,
    pub hi_limit: Option<u32>,
    pub units: Seq<char>,
    pub result: Option<u32>,
    pub passed: bool,
}

#[verifier::ext_equal]
pub struct BinModel {
    pub bin_num: int,
    pub bin_count: int,
    pub bin_name: Seq<char>,
    pub bin_pf: Seq<char>,
}

#[verifier::ext_equal]
pub struct StdfModel {
    pub lot_id: Seq<char>,
    pub part_type: Seq<char>,
    pub job_name: Seq<char>,
    pub job_rev: Seq<char>,
    pub start_time: int,
    pub finish_time: int,
    pub tester_type: Seq<char>,
    pub operator: Seq<char>,
    pub test_code: Seq<char>,
    pub wafers: Seq<WaferModel>,
    pub parts: Seq<PartModel>,
    pub test_results: Seq<TestResultModel>,
    pub tests: Map<i64, TestDefModel>,
    pub bins_hard: Map<i64, BinModel>,
    pub bins_soft: Map<i64, BinModel>,
}

/// Transient parse context around the accumulating output.
#[verifier::ext_equal]
pub struct StateModel {
    pub data: StdfModel,
    pub little_endian: bool,
    pub part_counter: int,
    pub current_wafer: Seq<char>,
}

pub open spec fn init_stdf_model() -> StdfModel {
    StdfModel {
        lot_id: Seq::<char>::empty(),
        part_type: Seq::<char>::empty(),
        job_name: Seq::<char>::empty(),
        job_rev: Seq::<char>::empty(),
        start_time: 0,
        finish_time: 0,
        tester_type: Seq::<char>::empty(),
        operator: Seq::<char>::empty(),
        test_code: Seq::<char>::empty(),
        wafers: Seq::<WaferModel>::empty(),
        parts: Seq::<PartModel>::empty(),
        test_results: Seq::<TestResultModel>::empty(),
        tests: Map::<i64, TestDefModel>::empty(),
        bins_hard: Map::<i64, BinModel>::empty(),
        bins_soft: Map::<i64, BinModel>::empty(),
    }
}

pub open spec fn init_state_model() -> StateModel {
    StateModel {
        data: init_stdf_model(),
        little_endian: true,
        part_counter: 0,
        current_wafer: Seq::<char>::empty(),
    }
}

// ───────────────────────── per-record decoders ─────────────────────────
//
// Each decoder consumes one record's payload, already trimmed to the
// declared record length, and yields the next parse state; `None` is a
// decode error (a field ran past the payload's end), after which the state
// is unchanged.  Fields are decoded strictly in declaration order; fields
// beyond each kind's mandatory prefix fall back to documented defaults
// once the cursor has reached the payload's end.

/// File attributes: the first payload byte selects the byte order for all
/// subsequent records (1 means big-endian, anything else little-endian).
pub open spec fn spec_far(st: StateModel, p: Seq<u8>) -> Option<StateModel> {
    if p.len() < 2 {
        None
    } else {
        Some(StateModel { little_endian: p[0] != 1, ..st })
    }
}

/// Lot info: lot-level scalar fields.
pub open spec fn spec_mir(st: StateModel, p: Seq<u8>) -> Option<StateModel> {
    let le = st.little_endian;
    if p.len() < 9 {
        None
    } else {
        let start_t = u4_val(p[4], p[5], p[6], p[7], le);
        let (_mode_cod, pos) = or_u1(p, 9, 0);
        let (_rtst_cod, pos) = or_u1(p, pos, 0);
        let (_prot_cod, pos) = or_u1(p, pos, 0);
        match or_u2(p, pos, le, 0) {
            None => None,
            Some((_burn_tim, pos)) => {
                let (_cmod_cod, pos) = or_u1(p, pos, 0);
                match or_cn(p, pos) {
                    None => None,
                    Some((lot_id, pos)) => match or_cn(p, pos) {
                        None => None,
                        Some((part_typ, pos)) => match or_cn(p, pos) {
                            None => None,
                            Some((_node_nam, pos)) => match or_cn(p, pos) {
                                None => None,
                                Some((tstr_typ, pos)) => match or_cn(p, pos) {
                                    None => None,
                                    Some((job_nam, pos)) => match or_cn(p, pos) {
                                        None => None,
                                        Some((job_rev, pos)) => match or_cn(p, pos) {
                                            None => None,
                                            Some((_sblot_id, pos)) => match or_cn(p, pos) {
                                                None => None,
                                                Some((oper_nam, pos)) => match or_cn(p, pos) {
                                                    None => None,
                                                    Some((_exec_typ, pos)) => match or_cn(p, pos) {
                                                        None => None,
                                                        Some((_exec_ver, pos)) => match or_cn(
                                                            p,
                                                            pos,
                                                        ) {
                                                            None => None,
                                                            Some((test_cod, _pos)) => Some(
                                                                StateModel {
                                                                    data: StdfModel {
                                                                        lot_id: lot_id,
                                                                        part_type: part_typ,
                                                                        job_name: job_nam,
                                                                        job_rev: job_rev,
                                                                        start_time: start_t,
                                                                        tester_type: tstr_typ,
                                                                        operator: oper_nam,
                                                                        test_code: test_cod,
                                                                        ..st.data
                                                                    },
                                                                    ..st
                                                                },
                                                            ),
                                                        },
                                                    },
                                                },
                                            },
                                        },
                                    },
                                },
                            },
                        },
                    },
                }
            },
        }
    }
}

/// Lot results: the lot's finish time.
pub open spec fn spec_mrr(st: StateModel, p: Seq<u8>) -> Option<StateModel> {
    let le = st.little_endian;
    if p.len() < 4 {
        None
    } else {
        Some(
            StateModel {
                data: StdfModel { finish_time: u4_val(p[0], p[1], p[2], p[3], le), ..st.data },
                ..st
            },
        )
    }
}

/// Wafer info: opens a new wafer entry, which becomes the current wafer.
pub open spec fn spec_wir(st: StateModel, p: Seq<u8>) -> Option<StateModel> {
    let le = st.little_endian;
    if p.len() < 1 {
        None
    } else {
        let (_site_grp, pos) = or_u1(p, 1, 0);
        match or_u4(p, pos, le, 0) {
            None => None,
            Some((start_t, pos)) => match or_cn(p, pos) {
                None => None,
                Some((wafer_id, _pos)) => {
                    let wafer = WaferModel {
                        wafer_id: wafer_id,
                        lot_id: st.data.lot_id,
                        head_num: p[0] as int,
                        start_time: start_t,
                        finish_time: 0,
                        part_count: 0,
                        good_count: 0,
                        rtst_count: 0,
                        abrt_count: 0,
                    };
                    Some(
                        StateModel {
                            data: StdfModel { wafers: st.data.wafers.push(wafer), ..st.data },
                            current_wafer: wafer_id,
                            ..st
                        },
                    )
                },
            },
        }
    }
}

/// Wafer results: counters applied to the most recently opened wafer; a
/// no-op when no wafer exists.
pub open spec fn spec_wrr(st: StateModel, p: Seq<u8>) -> Option<StateModel> {
    let le = st.little_endian;
    if p.len() < 1 {
        None
    } else {
        let (_site_grp, pos) = or_u1(p, 1, 0);
        match or_u4(p, pos, le, 0) {
            None => None,
            Some((finish_t, pos)) => match or_u4(p, pos, le, 0) {
                None => None,
                Some((part_cnt, pos)) => match or_u4(p, pos, le, 0) {
                    None => None,
                    Some((rtst_cnt, pos)) => match or_u4(p, pos, le, 0) {
                        None => None,
                        Some((abrt_cnt, pos)) => match or_u4(p, pos, le, 0) {
                            None => None,
                            Some((good_cnt, _pos)) => {
                                if st.data.wafers.len() == 0 {
                                    Some(st)
                                } else {
                                    let last = st.data.wafers.len() - 1;
                                    let w = WaferModel {
                                        finish_time: finish_t,
                                        part_count: part_cnt,
                                        good_count: good_cnt,
                                        rtst_count: rtst_cnt,
                                        abrt_count: abrt_cnt,
                                        ..st.data.wafers[last]
                                    };
                                    Some(
                                        StateModel {
                                            data: StdfModel {
                                                wafers: st.data.wafers.update(last, w),
                                                ..st.data
                                            },
                                            ..st
                                        },
                                    )
                                }
                            },
                        },
                    },
                },
            },
        }
    }
}

/// Part start: advances the monotonic part counter.
pub open spec fn spec_pir(st: StateModel, p: Seq<u8>) -> Option<StateModel> {
    if p.len() < 2 {
        None
    } else {
        Some(StateModel { part_counter: st.part_counter + 1, ..st })
    }
}

/// The x or y coordinate default: parts on wafers with no coordinate system.
pub open spec fn coord_default() -> int {
    -32768
}

/// Part results: creates one part from the current lot, wafer and counter.
pub open spec fn spec_prr(st: StateModel, p: Seq<u8>) -> Option<StateModel> {
    let le = st.little_endian;
    if p.len() < 7 {
        None
    } else {
        match or_u2(p, 7, le, 0) {
            None => None,
            Some((soft_bin, pos)) => match or_i2(p, pos, le, coord_default()) {
                None => None,
                Some((x_coord, pos)) => match or_i2(p, pos, le, coord_default()) {
                    None => None,
                    Some((y_coord, pos)) => match or_u4(p, pos, le, 0) {
                        None => None,
                        Some((test_t, _pos)) => {
                            let part = PartModel {
                                part_id: part_id_of(
                                    st.data.lot_id,
                                    st.current_wafer,
                                    st.part_counter,
                                ),
                                lot_id: st.data.lot_id,
                                wafer_id: st.current_wafer,
                                head_num: p[0] as int,
                                site_num: p[1] as int,
                                x_coord: x_coord,
                                y_coord: y_coord,
                                hard_bin: u2_val(p[5], p[6], le),
                                soft_bin: soft_bin,
                                passed: p[2] & 0x08 == 0,
                                test_count: u2_val(p[3], p[4], le),
                                test_time: test_t,
                            };
                            Some(
                                StateModel {
                                    data: StdfModel { parts: st.data.parts.push(part), ..st.data },
                                    ..st
                                },
                            )
                        },
                    },
                },
            },
        }
    }
}

/// x coordinate copied onto a test result from the most recently created part.
pub open spec fn last_part_x(d: StdfModel) -> int {
    if d.parts.len() == 0 {
        0
    } else {
        d.parts[d.parts.len() - 1].x_coord
    }
}

/// y coordinate copied onto a test result from the most recently created part.
pub open spec fn last_part_y(d: StdfModel) -> int {
    if d.parts.len() == 0 {
        0
    } else {
        d.parts[d.parts.len() - 1].y_coord
    }
}

/// First occurrence wins: the map unchanged when the key is known, else
/// extended with the new definition.
pub open spec fn upsert_test_def(
    tests: Map<i64, TestDefModel>,
    k: i64,
    def: TestDefModel,
) -> Map<i64, TestDefModel> {
    if tests.contains_key(k) {
        tests
    } else {
        tests.insert(k, def)
    }
}

/// Appends one test result row, copying position context from the state.
pub open spec fn append_result(
    st: StateModel,
    tests: Map<i64, TestDefModel>,
    row: TestResultModel,
) -> StateModel {
    StateModel {
        data: StdfModel {
            tests: tests,
            test_results: st.data.test_results.push(row),
            ..st.data
        },
        ..st
    }
}

/// Parametric test: one scalar result; first occurrence of a test number
/// defines the test.
pub open spec fn spec_ptr(st: StateModel, p: Seq<u8>) -> Option<StateModel> {
    let le = st.little_endian;
    if p.len() < 8 {
        None
    } else {
        let test_num = u4_val(p[0], p[1], p[2], p[3], le);
        match or_r4(p, 8, le) {
            None => None,
            Some((result, pos)) => match or_cn(p, pos) {
                None => None,
                Some((test_txt, pos)) => match or_cn(p, pos) {
                    None => None,
                    Some((_alarm_id, pos)) => {
                        let (_opt_flag, pos) = or_u1(p, pos, 0xFF);
                        let (_res_scal, pos) = or_i1(p, pos, 0);
                        let (_llm_scal, pos) = or_i1(p, pos, 0);
                        let (_hlm_scal, pos) = or_i1(p, pos, 0);
                        match or_r4(p, pos, le) {
                            None => None,
                            Some((lo_limit, pos)) => match or_r4(p, pos, le) {
                                None => None,
                                Some((hi_limit, pos)) => match or_cn(p, pos) {
                                    None => None,
                                    Some((units, _pos)) => {
                                        let k = test_num as i64;
                                        let def = TestDefModel {
                                            test_num: test_num,
                                            test_name: test_txt,
                                            rec_type: "PTR"@,
                                            lo_limit: lo_limit,
                                            hi_limit: hi_limit,
                                            units: units,
                                        };
                                        let tests = upsert_test_def(st.data.tests, k, def);
                                        let row = TestResultModel {
                                            lot_id: st.data.lot_id,
                                            part_id: part_id_of(
                                                st.data.lot_id,
                                                st.current_wafer,
                                                st.part_counter,
                                            ),
                                            wafer_id: st.current_wafer,
                                            x_coord: last_part_x(st.data),
                                            y_coord: last_part_y(st.data),
                                            test_num: test_num,
                                            test_name: tests[k].test_name,
                                            rec_type: "PTR"@,
                                            lo_limit: lo_limit,
                                            hi_limit: hi_limit,
                                            units: units,
                                            result: result,
                                            passed: p[6] & 0x80 == 0,
                                        };
                                        Some(append_result(st, tests, row))
                                    },
                                },
                            },
                        }
                    },
                },
            },
        }
    }
}

/// Multi-result parametric test: the status, result and index arrays are
/// consumed; only the first result is retained as the scalar value.
pub open spec fn spec_mpr(st: StateModel, p: Seq<u8>) -> Option<StateModel> {
    let le = st.little_endian;
    if p.len() < 8 {
        None
    } else {
        let test_num = u4_val(p[0], p[1], p[2], p[3], le);
        match or_u2(p, 8, le, 0) {
            None => None,
            Some((rtn_icnt, pos)) => match or_u2(p, pos, le, 0) {
                None => None,
                Some((rslt_cnt, pos)) => {
                    let nibble_bytes = (rtn_icnt + 1) / 2;
                    match step_array(p.len() as int, pos, nibble_bytes, 1) {
                        None => None,
                        Some(pos) => {
                            let result = if rslt_cnt > 0 && pos + 4 <= p.len() {
                                Some(u4_val(p[pos], p[pos + 1], p[pos + 2], p[pos + 3], le) as u32)
                            } else {
                                None
                            };
                            match step_array(p.len() as int, pos, rslt_cnt, 4) {
                                None => None,
                                Some(pos) => match or_cn(p, pos) {
                                    None => None,
                                    Some((test_txt, pos)) => match or_cn(p, pos) {
                                        None => None,
                                        Some((_alarm_id, pos)) => {
                                            let (_opt_flag, pos) = or_u1(p, pos, 0xFF);
                                            let (_res_scal, pos) = or_i1(p, pos, 0);
                                            let (_llm_scal, pos) = or_i1(p, pos, 0);
                                            let (_hlm_scal, pos) = or_i1(p, pos, 0);
                                            match or_r4(p, pos, le) {
                                                None => None,
                                                Some((lo_limit, pos)) => match or_r4(p, pos, le) {
                                                    None => None,
                                                    Some((hi_limit, pos)) => match or_r4(
                                                        p,
                                                        pos,
                                                        le,
                                                    ) {
                                                        None => None,
                                                        Some((_start_in, pos)) => match or_r4(
                                                            p,
                                                            pos,
                                                            le,
                                                        ) {
                                                            None => None,
                                                            Some((_incr_in, pos)) => match
                                                                step_array(
                                                                p.len() as int,
                                                                pos,
                                                                rtn_icnt,
                                                                2,
                                                            ) {
                                                                None => None,
                                                                Some(pos) => match or_cn(p, pos) {
                                                                    None => None,
                                                                    Some((units, _pos)) => {
                                                                        let k = test_num as i64;
                                                                        let def = TestDefModel {
                                                                            test_num: test_num,
                                                                            test_name: test_txt,
                                                                            rec_type: "MPR"@,
                                                                            lo_limit: lo_limit,
                                                                            hi_limit: hi_limit,
                                                                            units: units,
                                                                        };
                                                                        let tests = upsert_test_def(
                                                                            st.data.tests,
                                                                            k,
                                                                            def,
                                                                        );
                                                                        let row = TestResultModel {
                                                                            lot_id: st.data.lot_id,
                                                                            part_id: part_id_of(
                                                                                st.data.lot_id,
                                                                                st.current_wafer,
                                                                                st.part_counter,
                                                                            ),
                                                                            wafer_id:
                                                                                st.current_wafer,
                                                                            x_coord: last_part_x(
                                                                                st.data,
                                                                            ),
                                                                            y_coord: last_part_y(
                                                                                st.data,
                                                                            ),
                                                                            test_num: test_num,
                                                                            test_name:
                                                                                tests[k].test_name,
                                                                            rec_type: "MPR"@,
                                                                            lo_limit: lo_limit,
                                                                            hi_limit: hi_limit,
                                                                            units: units,
                                                                            result: result,
                                                                            passed: p[6] & 0x80
                                                                                == 0,
                                                                        };
                                                                        Some(
                                                                            append_result(
                                                                                st,
                                                                                tests,
                                                                                row,
                                                                            ),
                                                                        )
                                                                    },
                                                                },
                                                            },
                                                        },
                                                    },
                                                },
                                            }
                                        },
                                    },
                                },
                            }
                        },
                    }
                },
            },
        }
    }
}

/// Functional test: no numeric value; defines the test with empty name,
/// limits and units when the test number is unseen.
pub open spec fn spec_ftr(st: StateModel, p: Seq<u8>) -> Option<StateModel> {
    let le = st.little_endian;
    if p.len() < 7 {
        None
    } else {
        let test_num = u4_val(p[0], p[1], p[2], p[3], le);
        let k = test_num as i64;
        let def = TestDefModel {
            test_num: test_num,
            test_name: Seq::<char>::empty(),
            rec_type: "FTR"@,
            lo_limit: None,
            hi_limit: None,
            units: Seq::<char>::empty(),
        };
        let tests = upsert_test_def(st.data.tests, k, def);
        let row = TestResultModel {
            lot_id: st.data.lot_id,
            part_id: part_id_of(st.data.lot_id, st.current_wafer, st.part_counter),
            wafer_id: st.current_wafer,
            x_coord: last_part_x(st.data),
            y_coord: last_part_y(st.data),
            test_num: test_num,
            test_name: Seq::<char>::empty(),
            rec_type: "FTR"@,
            lo_limit: None,
            hi_limit: None,
            units: Seq::<char>::empty(),
            result: None,
            passed: p[6] & 0x80 == 0,
        };
        Some(append_result(st, tests, row))
    }
}

/// A hard-bin or soft-bin record's fields; shared by the two bin decoders.
pub open spec fn spec_bin_fields(le: bool, p: Seq<u8>) -> Option<BinModel> {
    if p.len() < 8 {
        None
    } else {
        let bin_pf: Seq<char> = if 8 < p.len() {
            seq![p[8] as char]
        } else {
            Seq::<char>::empty()
        };
        let pos: int = if 8 < p.len() {
            9
        } else {
            8
        };
        match or_cn(p, pos) {
            None => None,
            Some((bin_nam, _pos)) => Some(
                BinModel {
                    bin_num: u2_val(p[2], p[3], le),
                    bin_count: u4_val(p[4], p[5], p[6], p[7], le),
                    bin_name: bin_nam,
                    bin_pf: bin_pf,
                },
            ),
        }
    }
}

/// Hard bin: upserts the hard-bin map entry, last write wins.
pub open spec fn spec_hbr(st: StateModel, p: Seq<u8>) -> Option<StateModel> {
    match spec_bin_fields(st.little_endian, p) {
        None => None,
        Some(b) => Some(
            StateModel {
                data: StdfModel {
                    bins_hard: st.data.bins_hard.insert(b.bin_num as i64, b),
                    ..st.data
                },
                ..st
            },
        ),
    }
}

/// Soft bin: upserts the soft-bin map entry, last write wins.
pub open spec fn spec_sbr(st: StateModel, p: Seq<u8>) -> Option<StateModel> {
    match spec_bin_fields(st.little_endian, p) {
        None => None,
        Some(b) => Some(
            StateModel {
                data: StdfModel {
                    bins_soft: st.data.bins_soft.insert(b.bin_num as i64, b),
                    ..st.data
                },
                ..st
            },
        ),
    }
}

// ───────────────────────── framing and the main loop ─────────────────────────

/// Dispatch on (record type, record subtype).  Unrecognized pairs are
/// skipped without a state change.
pub open spec fn spec_decode(st: StateModel, typ: u8, sub: u8, p: Seq<u8>) -> Option<StateModel> {
    if typ == 0 && sub == 10 {
        spec_far(st, p)
    } else if typ == 1 && sub == 10 {
        spec_mir(st, p)
    } else if typ == 1 && sub == 20 {
        spec_mrr(st, p)
    } else if typ == 1 && sub == 40 {
        spec_hbr(st, p)
    } else if typ == 1 && sub == 50 {
        spec_sbr(st, p)
    } else if typ == 2 && sub == 10 {
        spec_wir(st, p)
    } else if typ == 2 && sub == 20 {
        spec_wrr(st, p)
    } else if typ == 5 && sub == 10 {
        spec_pir(st, p)
    } else if typ == 5 && sub == 20 {
        spec_prr(st, p)
    } else if typ == 15 && sub == 10 {
        spec_ptr(st, p)
    } else if typ == 15 && sub == 15 {
        spec_mpr(st, p)
    } else if typ == 15 && sub == 20 {
        spec_ftr(st, p)
    } else {
        Some(st)
    }
}

/// One framed record applied to the state; a decode error is swallowed and
/// leaves the state unchanged.
pub open spec fn spec_step(st: StateModel, typ: u8, sub: u8, p: Seq<u8>) -> StateModel {
    match spec_decode(st, typ, sub, p) {
        Some(st2) => st2,
        None => st,
    }
}

/// The main loop from byte position `pos`: read a 4-byte header under the
/// current byte order, take the declared payload, decode, continue.  The
/// stream ends cleanly when fewer than a header remains, or when the
/// declared payload runs past the input's end (a truncated trailing
/// record); both return the aggregate accumulated so far.
pub open spec fn spec_run(st: StateModel, s: Seq<u8>, pos: int) -> StdfModel
    decreases s.len() - pos,
{
    if pos < 0 || pos + 4 > s.len() {
        st.data
    } else {
        let rec_len = u2_val(s[pos], s[pos + 1], st.little_endian);
        let typ = s[pos + 2];
        let sub = s[pos + 3];
        if pos + 4 + rec_len > s.len() {
            st.data
        } else {
            let p = s.subrange(pos + 4, pos + 4 + rec_len);
            spec_run(spec_step(st, typ, sub, p), s, pos + 4 + rec_len)
        }
    }
}

/// The whole parse: the main loop over the entire input, starting
/// little-endian; the file-attributes record, normally first, switches the
/// byte order for everything after it.
pub open spec fn spec_parse(s: Seq<u8>) -> StdfModel {
    spec_run(init_state_model(), s, 0)
}

} // verus!
