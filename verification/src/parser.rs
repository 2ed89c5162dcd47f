//! Record decoders and the framing loop.  Each decoder reads every field
//! into locals first and commits to the parse state only after the last
//! read, so a payload that ends inside a mandatory field leaves the state
//! untouched; the framing loop swallows such per-record failures and
//! continues with the next frame.

use vstd::prelude::*;
use crate::model::{
    StateModel, TestDefModel, TestResultModel, init_state_model, dec_digit, dec_str, part_id_of,
    spec_far, spec_mir, spec_mrr, spec_wir, spec_wrr, spec_pir, spec_prr, spec_ptr, spec_mpr,
    spec_ftr, spec_hbr, spec_sbr, spec_bin_fields, spec_step, spec_run, spec_parse,
    upsert_test_def, append_result, last_part_x, last_part_y, step_array, u4_val,
};
use crate::reader::{StdfReader, StdfError};
use crate::types::{
    WaferData, PartData, TestDef, TestResult, BinData, StdfData, tests_view, bins_view,
};

verus! {

broadcast use vstd::std_specs::hash::group_hash_axioms;

/// Internal parser state: the accumulating aggregate plus transient
/// context (byte order, part counter, current wafer).
pub struct ParserState {
    pub data: StdfData,
    pub reader: StdfReader,
    pub part_counter: u64,
    pub current_wafer: String,
}

impl View for ParserState {
    type V = StateModel;

    open spec fn view(&self) -> StateModel {
        StateModel {
            data: self.data@,
            little_endian: self.reader.little_endian,
            part_counter: self.part_counter as int,
            current_wafer: self.current_wafer@,
        }
    }
}

/// The one-character string for a decimal digit.
fn digit_str(d: u8) -> (s: &'static str)
    requires
        d < 10,
    ensures
        s@ == seq![dec_digit(d as int)],
{
    proof {
        reveal_strlit("0");
        reveal_strlit("1");
        reveal_strlit("2");
        reveal_strlit("3");
        reveal_strlit("4");
        reveal_strlit("5");
        reveal_strlit("6");
        reveal_strlit("7");
        reveal_strlit("8");
        reveal_strlit("9");
    }
    let s: &'static str = if d == 0 {
        "0"
    } else if d == 1 {
        "1"
    } else if d == 2 {
        "2"
    } else if d == 3 {
        "3"
    } else if d == 4 {
        "4"
    } else if d == 5 {
        "5"
    } else if d == 6 {
        "6"
    } else if d == 7 {
        "7"
    } else if d == 8 {
        "8"
    } else {
        "9"
    };
    proof {
        assert(s@ =~= seq![dec_digit(d as int)]);
    }
    s
}

/// Appends the decimal rendering of `n`.
fn push_decimal(n: u64, out: &mut String)
    ensures
        final(out)@ == old(out)@ + dec_str(n as int),
    decreases n,
{
    if n >= 10 {
        push_decimal(n / 10, out);
    }
    let s = digit_str((n % 10) as u8);
    out.append(s);
    proof {
        assert(final(out)@ =~= old(out)@ + dec_str(n as int));
    }
}

impl ParserState {
    pub fn new() -> (r: Self)
        ensures
            r@ == init_state_model(),
    {
        let r = Self {
            data: StdfData::new(),
            reader: StdfReader::new(),
            part_counter: 0,
            current_wafer: String::new(),
        };
        proof {
            assert(r@ =~~= init_state_model());
        }
        r
    }

    /// The synthesized identifier of the part the counter currently names.
    pub fn current_part_id(&self) -> (r: String)
        ensures
            r@ == part_id_of(self@.data.lot_id, self@.current_wafer, self@.part_counter),
    {
        proof {
            reveal_strlit("_");
        }
        let mut s = self.data.lot_id.clone();
        s.append("_");
        s.append(self.current_wafer.as_str());
        s.append("_");
        push_decimal(self.part_counter, &mut s);
        proof {
            assert(s@ =~= part_id_of(self@.data.lot_id, self@.current_wafer, self@.part_counter));
        }
        s
    }
}

// ── Record decoders ──────────────────────────────────────────────────

/// File attributes: selects the byte order for all subsequent records.
pub fn parse_far(state: &mut ParserState, data: &[u8]) -> (r: Result<(), StdfError>)
    ensures
        match r {
            Ok(_) => spec_far(old(state)@, data@) == Some(final(state)@),
            Err(_) => spec_far(old(state)@, data@) is None && final(state)@ == old(state)@,
        },
{
    let mut pos: usize = 0;
    let cpu_type = match state.reader.read_u1(data, &mut pos) {
        Ok(v) => v,
        Err(e) => {
            return Err(e);
        },
    };
    let _stdf_ver = match state.reader.read_u1(data, &mut pos) {
        Ok(v) => v,
        Err(e) => {
            return Err(e);
        },
    };
    state.reader.little_endian = cpu_type != 1;
    proof {
        assert(spec_far(old(state)@, data@) == Some(state@));
    }
    Ok(())
}

/// Lot info: populates the lot-level scalar fields.
#[verifier::rlimit(100)]
pub fn parse_mir(state: &mut ParserState, data: &[u8]) -> (r: Result<(), StdfError>)
    ensures
        match r {
            Ok(_) => spec_mir(old(state)@, data@) == Some(final(state)@),
            Err(_) => spec_mir(old(state)@, data@) is None && final(state)@ == old(state)@,
        },
{
    let mut pos: usize = 0;
    let rd = &state.reader;
    let _setup_t = match rd.read_u4(data, &mut pos) {
        Ok(v) => v,
        Err(e) => {
            return Err(e);
        },
    };
    let start_t = match rd.read_u4(data, &mut pos) {
        Ok(v) => v,
        Err(e) => {
            return Err(e);
        },
    };
    let _stat_num = match rd.read_u1(data, &mut pos) {
        Ok(v) => v,
        Err(e) => {
            return Err(e);
        },
    };
    let _mode_cod = rd.read_u1_or(data, &mut pos, 0);
    let _rtst_cod = rd.read_u1_or(data, &mut pos, 0);
    let _prot_cod = rd.read_u1_or(data, &mut pos, 0);
    let _burn_tim = match rd.read_u2_or(data, &mut pos, 0) {
        Ok(v) => v,
        Err(e) => {
            return Err(e);
        },
    };
    let _cmod_cod = rd.read_u1_or(data, &mut pos, 0);
    let lot_id = match rd.read_cn_or(data, &mut pos) {
        Ok(v) => v,
        Err(e) => {
            return Err(e);
        },
    };
    let part_typ = match rd.read_cn_or(data, &mut pos) {
        Ok(v) => v,
        Err(e) => {
            return Err(e);
        },
    };
    let _node_nam = match rd.read_cn_or(data, &mut pos) {
        Ok(v) => v,
        Err(e) => {
            return Err(e);
        },
    };
    let tstr_typ = match rd.read_cn_or(data, &mut pos) {
        Ok(v) => v,
        Err(e) => {
            return Err(e);
        },
    };
    let job_nam = match rd.read_cn_or(data, &mut pos) {
        Ok(v) => v,
        Err(e) => {
            return Err(e);
        },
    };
    let job_rev = match rd.read_cn_or(data, &mut pos) {
        Ok(v) => v,
        Err(e) => {
            return Err(e);
        },
    };
    let _sblot_id = match rd.read_cn_or(data, &mut pos) {
        Ok(v) => v,
        Err(e) => {
            return Err(e);
        },
    };
    let oper_nam = match rd.read_cn_or(data, &mut pos) {
        Ok(v) => v,
        Err(e) => {
            return Err(e);
        },
    };
    let _exec_typ = match rd.read_cn_or(data, &mut pos) {
        Ok(v) => v,
        Err(e) => {
            return Err(e);
        },
    };
    let _exec_ver = match rd.read_cn_or(data, &mut pos) {
        Ok(v) => v,
        Err(e) => {
            return Err(e);
        },
    };
    let test_cod = match rd.read_cn_or(data, &mut pos) {
        Ok(v) => v,
        Err(e) => {
            return Err(e);
        },
    };
    state.data.lot_id = lot_id;
    state.data.part_type = part_typ;
    state.data.job_name = job_nam;
    state.data.job_rev = job_rev;
    state.data.start_time = start_t as i64;
    state.data.tester_type = tstr_typ;
    state.data.operator = oper_nam;
    state.data.test_code = test_cod;
    proof {
        assert(spec_mir(old(state)@, data@) == Some(state@));
    }
    Ok(())
}

/// Lot results: sets the lot finish time.
pub fn parse_mrr(state: &mut ParserState, data: &[u8]) -> (r: Result<(), StdfError>)
    ensures
        match r {
            Ok(_) => spec_mrr(old(state)@, data@) == Some(final(state)@),
            Err(_) => spec_mrr(old(state)@, data@) is None && final(state)@ == old(state)@,
        },
{
    let mut pos: usize = 0;
    let finish_t = match state.reader.read_u4(data, &mut pos) {
        Ok(v) => v,
        Err(e) => {
            return Err(e);
        },
    };
    state.data.finish_time = finish_t as i64;
    proof {
        assert(spec_mrr(old(state)@, data@) == Some(state@));
    }
    Ok(())
}

/// Wafer info: opens a new wafer entry, which becomes the current wafer.
pub fn parse_wir(state: &mut ParserState, data: &[u8]) -> (r: Result<(), StdfError>)
    ensures
        match r {
            Ok(_) => spec_wir(old(state)@, data@) == Some(final(state)@),
            Err(_) => spec_wir(old(state)@, data@) is None && final(state)@ == old(state)@,
        },
{
    let mut pos: usize = 0;
    let rd = &state.reader;
    let head_num = match rd.read_u1(data, &mut pos) {
        Ok(v) => v,
        Err(e) => {
            return Err(e);
        },
    };
    let _site_grp = rd.read_u1_or(data, &mut pos, 0);
    let start_t = match rd.read_u4_or(data, &mut pos, 0) {
        Ok(v) => v,
        Err(e) => {
            return Err(e);
        },
    };
    let wafer_id = match rd.read_cn_or(data, &mut pos) {
        Ok(v) => v,
        Err(e) => {
            return Err(e);
        },
    };
    state.current_wafer = wafer_id.clone();
    state.data.wafers.push(
        WaferData {
            wafer_id,
            lot_id: state.data.lot_id.clone(),
            head_num: head_num as i64,
            start_time: start_t as i64,
            finish_time: 0,
            part_count: 0,
            good_count: 0,
            rtst_count: 0,
            abrt_count: 0,
        },
    );
    proof {
        let st2 = spec_wir(old(state)@, data@).unwrap();
        assert(state@.data.wafers =~= st2.data.wafers);
        assert(state@.data == st2.data);
        assert(state@ == st2);
    }
    Ok(())
}

/// Wafer results: counters applied to the most recently opened wafer; a
/// no-op when none exists.
pub fn parse_wrr(state: &mut ParserState, data: &[u8]) -> (r: Result<(), StdfError>)
    ensures
        match r {
            Ok(_) => spec_wrr(old(state)@, data@) == Some(final(state)@),
            Err(_) => spec_wrr(old(state)@, data@) is None && final(state)@ == old(state)@,
        },
{
    let mut pos: usize = 0;
    let rd = &state.reader;
    let _head_num = match rd.read_u1(data, &mut pos) {
        Ok(v) => v,
        Err(e) => {
            return Err(e);
        },
    };
    let _site_grp = rd.read_u1_or(data, &mut pos, 0);
    let finish_t = match rd.read_u4_or(data, &mut pos, 0) {
        Ok(v) => v,
        Err(e) => {
            return Err(e);
        },
    };
    let part_cnt = match rd.read_u4_or(data, &mut pos, 0) {
        Ok(v) => v,
        Err(e) => {
            return Err(e);
        },
    };
    let rtst_cnt = match rd.read_u4_or(data, &mut pos, 0) {
        Ok(v) => v,
        Err(e) => {
            return Err(e);
        },
    };
    let abrt_cnt = match rd.read_u4_or(data, &mut pos, 0) {
        Ok(v) => v,
        Err(e) => {
            return Err(e);
        },
    };
    let good_cnt = match rd.read_u4_or(data, &mut pos, 0) {
        Ok(v) => v,
        Err(e) => {
            return Err(e);
        },
    };
    let n = state.data.wafers.len();
    if n > 0 {
        let w = &state.data.wafers[n - 1];
        let updated = WaferData {
            wafer_id: w.wafer_id.clone(),
            lot_id: w.lot_id.clone(),
            head_num: w.head_num,
            start_time: w.start_time,
            finish_time: finish_t as i64,
            part_count: part_cnt as i64,
            good_count: good_cnt as i64,
            rtst_count: rtst_cnt as i64,
            abrt_count: abrt_cnt as i64,
        };
        state.data.wafers[n - 1] = updated;
    }
    proof {
        let st2 = spec_wrr(old(state)@, data@).unwrap();
        assert(state@.data.wafers =~= st2.data.wafers);
        assert(state@.data == st2.data);
        assert(state@ == st2);
    }
    Ok(())
}

/// Part start: advances the part counter used to build the next part's
/// identifier.
pub fn parse_pir(state: &mut ParserState, data: &[u8]) -> (r: Result<(), StdfError>)
    requires
        old(state).part_counter < u64::MAX,
    ensures
        match r {
            Ok(_) => spec_pir(old(state)@, data@) == Some(final(state)@),
            Err(_) => spec_pir(old(state)@, data@) is None && final(state)@ == old(state)@,
        },
{
    let mut pos: usize = 0;
    let _head_num = match state.reader.read_u1(data, &mut pos) {
        Ok(v) => v,
        Err(e) => {
            return Err(e);
        },
    };
    let _site_num = match state.reader.read_u1(data, &mut pos) {
        Ok(v) => v,
        Err(e) => {
            return Err(e);
        },
    };
    state.part_counter = state.part_counter + 1;
    proof {
        assert(spec_pir(old(state)@, data@) == Some(state@));
    }
    Ok(())
}

/// Part results: creates one part from the current lot, wafer and counter.
pub fn parse_prr(state: &mut ParserState, data: &[u8]) -> (r: Result<(), StdfError>)
    ensures
        match r {
            Ok(_) => spec_prr(old(state)@, data@) == Some(final(state)@),
            Err(_) => spec_prr(old(state)@, data@) is None && final(state)@ == old(state)@,
        },
{
    let mut pos: usize = 0;
    let rd = &state.reader;
    let head_num = match rd.read_u1(data, &mut pos) {
        Ok(v) => v,
        Err(e) => {
            return Err(e);
        },
    };
    let site_num = match rd.read_u1(data, &mut pos) {
        Ok(v) => v,
        Err(e) => {
            return Err(e);
        },
    };
    let part_flg = match rd.read_u1(data, &mut pos) {
        Ok(v) => v,
        Err(e) => {
            return Err(e);
        },
    };
    let num_test = match rd.read_u2(data, &mut pos) {
        Ok(v) => v,
        Err(e) => {
            return Err(e);
        },
    };
    let hard_bin = match rd.read_u2(data, &mut pos) {
        Ok(v) => v,
        Err(e) => {
            return Err(e);
        },
    };
    let soft_bin = match rd.read_u2_or(data, &mut pos, 0) {
        Ok(v) => v,
        Err(e) => {
            return Err(e);
        },
    };
    let x_coord = match rd.read_i2_or(data, &mut pos, -32768) {
        Ok(v) => v,
        Err(e) => {
            return Err(e);
        },
    };
    let y_coord = match rd.read_i2_or(data, &mut pos, -32768) {
        Ok(v) => v,
        Err(e) => {
            return Err(e);
        },
    };
    let test_t = match rd.read_u4_or(data, &mut pos, 0) {
        Ok(v) => v,
        Err(e) => {
            return Err(e);
        },
    };
    let passed = (part_flg & 0x08) == 0;
    let part = PartData {
        part_id: state.current_part_id(),
        lot_id: state.data.lot_id.clone(),
        wafer_id: state.current_wafer.clone(),
        head_num: head_num as i64,
        site_num: site_num as i64,
        x_coord: x_coord as i64,
        y_coord: y_coord as i64,
        hard_bin: hard_bin as i64,
        soft_bin: soft_bin as i64,
        passed,
        test_count: num_test as i64,
        test_time: test_t as i64,
    };
    state.data.parts.push(part);
    proof {
        let st2 = spec_prr(old(state)@, data@).unwrap();
        assert(state@.data.parts =~= st2.data.parts);
        assert(state@.data == st2.data);
        assert(state@ == st2);
    }
    Ok(())
}

/// The commit phase shared by the test-record decoders: a
/// first-occurrence-wins definition update plus one appended result row.
/// The row's name comes from the definition map when `row_name_from_defs`
/// holds, else it stays the given (empty) name.
#[verifier::rlimit(100)]
fn commit_test(
    state: &mut ParserState,
    test_num: u32,
    rec_type: String,
    new_name: String,
    lo_limit: Option<u32>,
    hi_limit: Option<u32>,
    units: String,
    result: Option<u32>,
    passed: bool,
    row_name_from_defs: bool,
)
    ensures
        ({
            let def = TestDefModel {
                test_num: test_num as int,
                test_name: new_name@,
                rec_type: rec_type@,
                lo_limit: lo_limit,
                hi_limit: hi_limit,
                units: units@,
            };
            let tests = upsert_test_def(old(state)@.data.tests, test_num as i64, def);
            let row = TestResultModel {
                lot_id: old(state)@.data.lot_id,
                part_id: part_id_of(
                    old(state)@.data.lot_id,
                    old(state)@.current_wafer,
                    old(state)@.part_counter,
                ),
                wafer_id: old(state)@.current_wafer,
                x_coord: last_part_x(old(state)@.data),
                y_coord: last_part_y(old(state)@.data),
                test_num: test_num as int,
                test_name: if row_name_from_defs {
                    tests[test_num as i64].test_name
                } else {
                    new_name@
                },
                rec_type: rec_type@,
                lo_limit: lo_limit,
                hi_limit: hi_limit,
                units: units@,
                result: result,
                passed: passed,
            };
            final(state)@ == append_result(old(state)@, tests, row)
        }),
{
    let k = test_num as i64;
    let ghost tests0 = old(state)@.data.tests;
    if !state.data.tests.contains_key(&k) {
        let def = TestDef {
            test_num: k,
            test_name: new_name.clone(),
            rec_type: rec_type.clone(),
            lo_limit,
            hi_limit,
            units: units.clone(),
        };
        state.data.tests.insert(k, def);
    }
    proof {
        assert(tests_view(state.data.tests@) =~= upsert_test_def(
            tests0,
            k,
            TestDefModel {
                test_num: test_num as int,
                test_name: new_name@,
                rec_type: rec_type@,
                lo_limit: lo_limit,
                hi_limit: hi_limit,
                units: units@,
            },
        ));
    }
    let test_name: String = if row_name_from_defs {
        match state.data.tests.get(&k) {
            Some(d) => d.test_name.clone(),
            None => String::new(),
        }
    } else {
        new_name
    };
    let np = state.data.parts.len();
    let x_coord: i64 = if np > 0 {
        state.data.parts[np - 1].x_coord
    } else {
        0
    };
    let y_coord: i64 = if np > 0 {
        state.data.parts[np - 1].y_coord
    } else {
        0
    };
    let row = TestResult {
        lot_id: state.data.lot_id.clone(),
        part_id: state.current_part_id(),
        wafer_id: state.current_wafer.clone(),
        x_coord,
        y_coord,
        test_num: k,
        test_name,
        rec_type,
        lo_limit,
        hi_limit,
        units,
        result,
        passed,
    };
    state.data.test_results.push(row);
    proof {
        let def = TestDefModel {
            test_num: test_num as int,
            test_name: new_name@,
            rec_type: rec_type@,
            lo_limit: lo_limit,
            hi_limit: hi_limit,
            units: units@,
        };
        let tests = upsert_test_def(tests0, k, def);
        let target = append_result(old(state)@, tests, TestResultModel {
            lot_id: old(state)@.data.lot_id,
            part_id: part_id_of(
                old(state)@.data.lot_id,
                old(state)@.current_wafer,
                old(state)@.part_counter,
            ),
            wafer_id: old(state)@.current_wafer,
            x_coord: last_part_x(old(state)@.data),
            y_coord: last_part_y(old(state)@.data),
            test_num: test_num as int,
            test_name: if row_name_from_defs {
                tests[k].test_name
            } else {
                new_name@
            },
            rec_type: rec_type@,
            lo_limit: lo_limit,
            hi_limit: hi_limit,
            units: units@,
            result: result,
            passed: passed,
        });
        assert(state@.data.tests =~= target.data.tests);
        assert(state@.data.test_results =~= target.data.test_results);
        assert(state@.data == target.data);
        assert(state@ == target);
    }
}

/// Parametric test: one scalar result; the first record for a test number
/// defines the test, later ones never overwrite it.
pub fn parse_ptr(state: &mut ParserState, data: &[u8]) -> (r: Result<(), StdfError>)
    ensures
        match r {
            Ok(_) => spec_ptr(old(state)@, data@) == Some(final(state)@),
            Err(_) => spec_ptr(old(state)@, data@) is None && final(state)@ == old(state)@,
        },
{
    let mut pos: usize = 0;
    let rd = &state.reader;
    let test_num = match rd.read_u4(data, &mut pos) {
        Ok(v) => v,
        Err(e) => {
            return Err(e);
        },
    };
    let _head_num = match rd.read_u1(data, &mut pos) {
        Ok(v) => v,
        Err(e) => {
            return Err(e);
        },
    };
    let _site_num = match rd.read_u1(data, &mut pos) {
        Ok(v) => v,
        Err(e) => {
            return Err(e);
        },
    };
    let test_flg = match rd.read_u1(data, &mut pos) {
        Ok(v) => v,
        Err(e) => {
            return Err(e);
        },
    };
    let _parm_flg = match rd.read_u1(data, &mut pos) {
        Ok(v) => v,
        Err(e) => {
            return Err(e);
        },
    };
    let result = match rd.read_r4_bits_or(data, &mut pos) {
        Ok(v) => v,
        Err(e) => {
            return Err(e);
        },
    };
    let test_txt = match rd.read_cn_or(data, &mut pos) {
        Ok(v) => v,
        Err(e) => {
            return Err(e);
        },
    };
    let _alarm_id = match rd.read_cn_or(data, &mut pos) {
        Ok(v) => v,
        Err(e) => {
            return Err(e);
        },
    };
    let _opt_flag = rd.read_u1_or(data, &mut pos, 0xFF);
    let _res_scal = rd.read_i1_or(data, &mut pos, 0);
    let _llm_scal = rd.read_i1_or(data, &mut pos, 0);
    let _hlm_scal = rd.read_i1_or(data, &mut pos, 0);
    let lo_limit = match rd.read_r4_bits_or(data, &mut pos) {
        Ok(v) => v,
        Err(e) => {
            return Err(e);
        },
    };
    let hi_limit = match rd.read_r4_bits_or(data, &mut pos) {
        Ok(v) => v,
        Err(e) => {
            return Err(e);
        },
    };
    let units = match rd.read_cn_or(data, &mut pos) {
        Ok(v) => v,
        Err(e) => {
            return Err(e);
        },
    };
    let passed = (test_flg & 0x80) == 0;
    commit_test(
        state,
        test_num,
        "PTR".to_owned(),
        test_txt,
        lo_limit,
        hi_limit,
        units,
        result,
        passed,
        true,
    );
    proof {
        assert(state@ == spec_ptr(old(state)@, data@).unwrap());
    }
    Ok(())
}

/// Functional test: carries no numeric value; defines the test with empty
/// name, limits and units when the test number is unseen.
pub fn parse_ftr(state: &mut ParserState, data: &[u8]) -> (r: Result<(), StdfError>)
    ensures
        match r {
            Ok(_) => spec_ftr(old(state)@, data@) == Some(final(state)@),
            Err(_) => spec_ftr(old(state)@, data@) is None && final(state)@ == old(state)@,
        },
{
    let mut pos: usize = 0;
    let rd = &state.reader;
    let test_num = match rd.read_u4(data, &mut pos) {
        Ok(v) => v,
        Err(e) => {
            return Err(e);
        },
    };
    let _head_num = match rd.read_u1(data, &mut pos) {
        Ok(v) => v,
        Err(e) => {
            return Err(e);
        },
    };
    let _site_num = match rd.read_u1(data, &mut pos) {
        Ok(v) => v,
        Err(e) => {
            return Err(e);
        },
    };
    let test_flg = match rd.read_u1(data, &mut pos) {
        Ok(v) => v,
        Err(e) => {
            return Err(e);
        },
    };
    let passed = (test_flg & 0x80) == 0;
    commit_test(
        state,
        test_num,
        "FTR".to_owned(),
        String::new(),
        None,
        None,
        String::new(),
        None,
        passed,
        false,
    );
    proof {
        assert(state@ == spec_ftr(old(state)@, data@).unwrap());
    }
    Ok(())
}

/// Relies on `char::to_string`: the one-character string holding exactly
/// the given character.
#[verifier::external_body]
fn char_to_string(c: char) -> (r: String)
    ensures
        r@ == seq![c],
{
    c.to_string()
}

/// The fields shared by hard-bin and soft-bin records.
fn read_bin_fields(rd: &StdfReader, data: &[u8]) -> (r: Result<BinData, StdfError>)
    ensures
        match r {
            Ok(b) => spec_bin_fields(rd.little_endian, data@) == Some(b@),
            Err(_) => spec_bin_fields(rd.little_endian, data@) is None,
        },
{
    let mut pos: usize = 0;
    let _head_num = match rd.read_u1(data, &mut pos) {
        Ok(v) => v,
        Err(e) => {
            return Err(e);
        },
    };
    let _site_num = match rd.read_u1(data, &mut pos) {
        Ok(v) => v,
        Err(e) => {
            return Err(e);
        },
    };
    let bin_num = match rd.read_u2(data, &mut pos) {
        Ok(v) => v,
        Err(e) => {
            return Err(e);
        },
    };
    let bin_cnt = match rd.read_u4(data, &mut pos) {
        Ok(v) => v,
        Err(e) => {
            return Err(e);
        },
    };
    let bin_pf: String = if pos < data.len() {
        let b = match rd.read_u1(data, &mut pos) {
            Ok(v) => v,
            Err(e) => {
                return Err(e);
            },
        };
        char_to_string(b as char)
    } else {
        String::new()
    };
    let bin_nam = match rd.read_cn_or(data, &mut pos) {
        Ok(v) => v,
        Err(e) => {
            return Err(e);
        },
    };
    Ok(
        BinData {
            bin_num: bin_num as i64,
            bin_count: bin_cnt as i64,
            bin_name: bin_nam,
            bin_pf,
        },
    )
}

/// Hard bin: upserts the hard-bin map entry, last write wins.
pub fn parse_hbr(state: &mut ParserState, data: &[u8]) -> (r: Result<(), StdfError>)
    ensures
        match r {
            Ok(_) => spec_hbr(old(state)@, data@) == Some(final(state)@),
            Err(_) => spec_hbr(old(state)@, data@) is None && final(state)@ == old(state)@,
        },
{
    let b = match read_bin_fields(&state.reader, data) {
        Ok(b) => b,
        Err(e) => {
            return Err(e);
        },
    };
    let k = b.bin_num;
    state.data.bins_hard.insert(k, b);
    proof {
        assert(bins_view(state.data.bins_hard@) =~= old(state)@.data.bins_hard.insert(
            k,
            spec_bin_fields(old(state)@.little_endian, data@).unwrap(),
        ));
        let st2 = spec_hbr(old(state)@, data@).unwrap();
        assert(state@.data.bins_hard =~= st2.data.bins_hard);
        assert(state@.data == st2.data);
        assert(state@ == st2);
    }
    Ok(())
}

/// Soft bin: upserts the soft-bin map entry, last write wins.
pub fn parse_sbr(state: &mut ParserState, data: &[u8]) -> (r: Result<(), StdfError>)
    ensures
        match r {
            Ok(_) => spec_sbr(old(state)@, data@) == Some(final(state)@),
            Err(_) => spec_sbr(old(state)@, data@) is None && final(state)@ == old(state)@,
        },
{
    let b = match read_bin_fields(&state.reader, data) {
        Ok(b) => b,
        Err(e) => {
            return Err(e);
        },
    };
    let k = b.bin_num;
    state.data.bins_soft.insert(k, b);
    proof {
        assert(bins_view(state.data.bins_soft@) =~= old(state)@.data.bins_soft.insert(
            k,
            spec_bin_fields(old(state)@.little_endian, data@).unwrap(),
        ));
        let st2 = spec_sbr(old(state)@, data@).unwrap();
        assert(state@.data.bins_soft =~= st2.data.bins_soft);
        assert(state@.data == st2.data);
        assert(state@ == st2);
    }
    Ok(())
}

/// Multi-result parametric test: the status, result and index arrays are
/// consumed and discarded except the first result, which becomes the
/// scalar value.
#[verifier::rlimit(100)]
#[verifier::loop_isolation(false)]
pub fn parse_mpr(state: &mut ParserState, data: &[u8]) -> (r: Result<(), StdfError>)
    ensures
        match r {
            Ok(_) => spec_mpr(old(state)@, data@) == Some(final(state)@),
            Err(_) => spec_mpr(old(state)@, data@) is None && final(state)@ == old(state)@,
        },
{
    let mut pos: usize = 0;
    let rd = &state.reader;
    let ghost le = rd.little_endian;
    let test_num = match rd.read_u4(data, &mut pos) {
        Ok(v) => v,
        Err(e) => {
            return Err(e);
        },
    };
    let _head_num = match rd.read_u1(data, &mut pos) {
        Ok(v) => v,
        Err(e) => {
            return Err(e);
        },
    };
    let _site_num = match rd.read_u1(data, &mut pos) {
        Ok(v) => v,
        Err(e) => {
            return Err(e);
        },
    };
    let test_flg = match rd.read_u1(data, &mut pos) {
        Ok(v) => v,
        Err(e) => {
            return Err(e);
        },
    };
    let _parm_flg = match rd.read_u1(data, &mut pos) {
        Ok(v) => v,
        Err(e) => {
            return Err(e);
        },
    };
    let rtn_icnt = match rd.read_u2_or(data, &mut pos, 0) {
        Ok(v) => v,
        Err(e) => {
            return Err(e);
        },
    };
    let rslt_cnt = match rd.read_u2_or(data, &mut pos, 0) {
        Ok(v) => v,
        Err(e) => {
            return Err(e);
        },
    };
    // The returned-state nibble array: consumed, value unused.
    let nibble_bytes: usize = (rtn_icnt as usize + 1) / 2;
    let ghost pos_nib = pos as int;
    let mut i: usize = 0;
    while i < nibble_bytes && pos < data.len()
        invariant
            pos <= data@.len(),
            i <= nibble_bytes,
            step_array(data@.len() as int, pos_nib, nibble_bytes as int, 1) == step_array(
                data@.len() as int,
                pos as int,
                nibble_bytes - i,
                1,
            ),
        decreases nibble_bytes - i,
    {
        pos = pos + 1;
        i = i + 1;
    }
    proof {
        assert(step_array(data@.len() as int, pos_nib, nibble_bytes as int, 1) == Some(
            pos as int,
        ));
    }
    // The result array: only the first entry is retained.
    let ghost pos_res = pos as int;
    let ghost first_spec = if rslt_cnt > 0 && pos_res + 4 <= data@.len() {
        Some(u4_val(data@[pos_res], data@[pos_res + 1], data@[pos_res + 2], data@[pos_res + 3], le)
            as u32)
    } else {
        None::<u32>
    };
    let mut first: Option<u32> = None;
    let mut j: usize = 0;
    while j < rslt_cnt as usize && pos < data.len()
        invariant
            pos <= data@.len(),
            j <= rslt_cnt,
            step_array(data@.len() as int, pos_res, rslt_cnt as int, 4) == step_array(
                data@.len() as int,
                pos as int,
                rslt_cnt - j,
                4,
            ),
            j == 0 ==> first is None && pos as int == pos_res,
            j > 0 ==> first == first_spec,
        decreases rslt_cnt - j,
    {
        match rd.read_u4(data, &mut pos) {
            Ok(v) => {
                if j == 0 {
                    first = Some(v);
                }
            },
            Err(e) => {
                proof {
                    assert(spec_mpr(old(state)@, data@) is None);
                }
                return Err(e);
            },
        }
        j = j + 1;
    }
    proof {
        assert(step_array(data@.len() as int, pos_res, rslt_cnt as int, 4) == Some(pos as int));
        assert(first == first_spec);
    }
    let test_txt = match rd.read_cn_or(data, &mut pos) {
        Ok(v) => v,
        Err(e) => {
            return Err(e);
        },
    };
    let _alarm_id = match rd.read_cn_or(data, &mut pos) {
        Ok(v) => v,
        Err(e) => {
            return Err(e);
        },
    };
    let _opt_flag = rd.read_u1_or(data, &mut pos, 0xFF);
    let _res_scal = rd.read_i1_or(data, &mut pos, 0);
    let _llm_scal = rd.read_i1_or(data, &mut pos, 0);
    let _hlm_scal = rd.read_i1_or(data, &mut pos, 0);
    let lo_limit = match rd.read_r4_bits_or(data, &mut pos) {
        Ok(v) => v,
        Err(e) => {
            return Err(e);
        },
    };
    let hi_limit = match rd.read_r4_bits_or(data, &mut pos) {
        Ok(v) => v,
        Err(e) => {
            return Err(e);
        },
    };
    let _start_in = match rd.read_r4_bits_or(data, &mut pos) {
        Ok(v) => v,
        Err(e) => {
            return Err(e);
        },
    };
    let _incr_in = match rd.read_r4_bits_or(data, &mut pos) {
        Ok(v) => v,
        Err(e) => {
            return Err(e);
        },
    };
    // The returned-state index array: consumed, value unused.
    let ghost pos_idx = pos as int;
    let mut m: usize = 0;
    while m < rtn_icnt as usize && pos < data.len()
        invariant
            pos <= data@.len(),
            m <= rtn_icnt,
            step_array(data@.len() as int, pos_idx, rtn_icnt as int, 2) == step_array(
                data@.len() as int,
                pos as int,
                rtn_icnt - m,
                2,
            ),
        decreases rtn_icnt - m,
    {
        match rd.read_u2(data, &mut pos) {
            Ok(_) => {},
            Err(e) => {
                proof {
                    assert(spec_mpr(old(state)@, data@) is None);
                }
                return Err(e);
            },
        }
        m = m + 1;
    }
    proof {
        assert(step_array(data@.len() as int, pos_idx, rtn_icnt as int, 2) == Some(pos as int));
    }
    let units = match rd.read_cn_or(data, &mut pos) {
        Ok(v) => v,
        Err(e) => {
            return Err(e);
        },
    };
    let passed = (test_flg & 0x80) == 0;
    commit_test(
        state,
        test_num,
        "MPR".to_owned(),
        test_txt,
        lo_limit,
        hi_limit,
        units,
        first,
        passed,
        true,
    );
    proof {
        assert(state@ == spec_mpr(old(state)@, data@).unwrap());
    }
    Ok(())
}

// ── The main loop ────────────────────────────────────────────────────

/// Parse a whole record stream.  The framer reads 4-byte headers under
/// the current byte order (little-endian until a file-attributes record
/// says otherwise), hands each declared payload to the matching decoder,
/// skips unrecognized kinds, swallows per-record decode failures, and
/// stops cleanly at the end of the input or at a truncated trailing
/// record, returning everything accumulated up to that point.
pub fn parse_bytes(data: &[u8]) -> (out: StdfData)
    ensures
        out@ == spec_parse(data@),
{
    let mut state = ParserState::new();
    let mut pos: usize = 0;
    loop
        invariant_except_break
            pos <= data@.len(),
            4 * state@.part_counter <= pos as int,
            spec_run(state@, data@, pos as int) == spec_parse(data@),
        ensures
            state@.data == spec_parse(data@),
        decreases data@.len() - pos,
    {
        if data.len() - pos < 4 {
            proof {
                assert(spec_run(state@, data@, pos as int) == state@.data);
            }
            break;
        }
        let ghost pos0 = pos as int;
        let ghost st0 = state@;
        let (rec_len, rec_typ, rec_sub) = match state.reader.read_header(data, &mut pos) {
            Ok(h) => h,
            Err(_) => {
                proof {
                    assert(false);
                }
                break;
            },
        };
        if data.len() - pos < rec_len as usize {
            proof {
                assert(spec_run(st0, data@, pos0) == st0.data);
            }
            break;
        }
        let payload = vstd::slice::slice_subrange(data, pos, pos + rec_len as usize);
        let ghost p = payload@;
        match (rec_typ, rec_sub) {
            (0, 10) => {
                let _r = parse_far(&mut state, payload);
            },
            (1, 10) => {
                let _r = parse_mir(&mut state, payload);
            },
            (1, 20) => {
                let _r = parse_mrr(&mut state, payload);
            },
            (1, 40) => {
                let _r = parse_hbr(&mut state, payload);
            },
            (1, 50) => {
                let _r = parse_sbr(&mut state, payload);
            },
            (2, 10) => {
                let _r = parse_wir(&mut state, payload);
            },
            (2, 20) => {
                let _r = parse_wrr(&mut state, payload);
            },
            (5, 10) => {
                proof {
                    assert(state.part_counter < u64::MAX);
                }
                let _r = parse_pir(&mut state, payload);
            },
            (5, 20) => {
                let _r = parse_prr(&mut state, payload);
            },
            (15, 10) => {
                let _r = parse_ptr(&mut state, payload);
            },
            (15, 15) => {
                let _r = parse_mpr(&mut state, payload);
            },
            (15, 20) => {
                let _r = parse_ftr(&mut state, payload);
            },
            _ => {},
        }
        pos = pos + rec_len as usize;
        proof {
            assert(state@ == spec_step(st0, rec_typ, rec_sub, p));
            assert(spec_run(st0, data@, pos0) == spec_run(state@, data@, pos as int));
        }
    }
    state.data
}

} // verus!
