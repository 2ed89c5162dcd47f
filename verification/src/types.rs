//! The output model: data structures accumulated by the parser and
//! returned to the caller.  Four-byte real fields are carried as IEEE 754
//! single-precision bit patterns, `None` standing for an absent field
//! (the not-a-number default of the interchange format).

use vstd::prelude::*;
use std::collections::HashMap;
use crate::model::{
    WaferModel, PartModel, TestDefModel, TestResultModel, BinModel, StdfModel, init_stdf_model,
};

verus! {

/// Wafer record data.
#[derive(Clone, Debug)]
pub struct WaferData {
    pub wafer_id: String,
    pub lot_id: String,
    pub head_num: i64,
    pub start_time: i64,
    pub finish_time: i64,
    pub part_count: i64,
    pub good_count: i64,
    pub rtst_count: i64,
    pub abrt_count: i64,
}

impl View for WaferData {
    type V = WaferModel;

    open spec fn view(&self) -> WaferModel {
        WaferModel {
            wafer_id: self.wafer_id@,
            lot_id: self.lot_id@,
            head_num: self.head_num as int,
            start_time: self.start_time as int,
            finish_time: self.finish_time as int,
            part_count: self.part_count as int,
            good_count: self.good_count as int,
            rtst_count: self.rtst_count as int,
            abrt_count: self.abrt_count as int,
        }
    }
}

/// Part (die) record data.
#[derive(Clone, Debug)]
pub struct PartData {
    pub part_id: String,
    pub lot_id: String,
    pub wafer_id: String,
    pub head_num: i64,
    pub site_num: i64,
    pub x_coord: i64,
    pub y_coord: i64,
    pub hard_bin: i64,
    pub soft_bin: i64,
    pub passed: bool,
    pub test_count: i64,
    pub test_time: i64,
}

impl View for PartData {
    type V = PartModel;

    open spec fn view(&self) -> PartModel {
        PartModel {
            part_id: self.part_id@,
            lot_id: self.lot_id@,
            wafer_id: self.wafer_id@,
            head_num: self.head_num as int,
            site_num: self.site_num as int,
            x_coord: self.x_coord as int,
            y_coord: self.y_coord as int,
            hard_bin: self.hard_bin as int,
            soft_bin: self.soft_bin as int,
            passed: self.passed,
            test_count: self.test_count as int,
            test_time: self.test_time as int,
        }
    }
}

/// Test definition: the canonical record for one test number.
#[derive(Clone, Debug)]
pub struct TestDef {
    pub test_num: i64,
    pub test_name: String,
    pub rec_type: String,
    pub lo_limit: Option<u32>,
    pub hi_limit: Option<u32>,
    pub units: String,
}

impl View for TestDef {
    type V = TestDefModel;

    open spec fn view(&self) -> TestDefModel {
        TestDefModel {
            test_num: self.test_num as int,
            test_name: self.test_name@,
            rec_type: self.rec_type@,
            lo_limit: self.lo_limit,
            hi_limit: self.hi_limit,
            units: self.units@,
        }
    }
}

/// Single test result row.
#[derive(Clone, Debug)]
pub struct TestResult {
    pub lot_id: String,
    pub part_id: String,
    pub wafer_id: String,
    pub x_coord: i64,
    pub y_coord: i64,
    pub test_num: i64,
    pub test_name: String,
    pub rec_type: String,
    pub lo_limit: Option<u32>,
    pub hi_limit: Option<u32>,
    pub units: String,
    pub result: Option<u32>,
    pub passed: bool,
}

impl View for TestResult {
    type V = TestResultModel;

    open spec fn view(&self) -> TestResultModel {
        TestResultModel {
            lot_id: self.lot_id@,
            part_id: self.part_id@,
            wafer_id: self.wafer_id@,
            x_coord: self.x_coord as int,
            y_coord: self.y_coord as int,
            test_num: self.test_num as int,
            test_name: self.test_name@,
            rec_type: self.rec_type@,
            lo_limit: self.lo_limit,
            hi_limit: self.hi_limit,
            units: self.units@,
            result: self.result,
            passed: self.passed,
        }
    }
}

/// Bin record.
#[derive(Clone, Debug)]
pub struct BinData {
    pub bin_num: i64,
    pub bin_count: i64,
    pub bin_name: String,
    pub bin_pf: String,
}

impl View for BinData {
    type V = BinModel;

    open spec fn view(&self) -> BinModel {
        BinModel {
            bin_num: self.bin_num as int,
            bin_count: self.bin_count as int,
            bin_name: self.bin_name@,
            bin_pf: self.bin_pf@,
        }
    }
}

/// The view of a map of bin records, keyed by bin number.
pub open spec fn bins_view(m: Map<i64, BinData>) -> Map<i64, BinModel> {
    Map::new(|k: i64| m.contains_key(k), |k: i64| m[k]@)
}

/// The view of the test-definition map, keyed by test number.
pub open spec fn tests_view(m: Map<i64, TestDef>) -> Map<i64, TestDefModel> {
    Map::new(|k: i64| m.contains_key(k), |k: i64| m[k]@)
}

/// Top-level parsed aggregate returned to the caller.
#[derive(Clone, Debug)]
pub struct StdfData {
    pub lot_id: String,
    pub part_type: String,
    pub job_name: String,
    pub job_rev: String,
    pub start_time: i64,
    pub finish_time: i64,
    pub tester_type: String,
    pub operator: String,
    pub test_code: String,
    pub wafers: Vec<WaferData>,
    pub parts: Vec<PartData>,
    pub test_results: Vec<TestResult>,
    pub tests: HashMap<i64, TestDef>,
    pub bins_hard: HashMap<i64, BinData>,
    pub bins_soft: HashMap<i64, BinData>,
}

impl View for StdfData {
    type V = StdfModel;

    open spec fn view(&self) -> StdfModel {
        StdfModel {
            lot_id: self.lot_id@,
            part_type: self.part_type@,
            job_name: self.job_name@,
            job_rev: self.job_rev@,
            start_time: self.start_time as int,
            finish_time: self.finish_time as int,
            tester_type: self.tester_type@,
            operator: self.operator@,
            test_code: self.test_code@,
            wafers: self.wafers@.map_values(|w: WaferData| w@),
            parts: self.parts@.map_values(|p: PartData| p@),
            test_results: self.test_results@.map_values(|t: TestResult| t@),
            tests: tests_view(self.tests@),
            bins_hard: bins_view(self.bins_hard@),
            bins_soft: bins_view(self.bins_soft@),
        }
    }
}

impl StdfData {
    /// An empty aggregate: empty strings, zero times, no entries.
    pub fn new() -> (r: Self)
        ensures
            r@ == init_stdf_model(),
    {
        let r = Self {
            lot_id: String::new(),
            part_type: String::new(),
            job_name: String::new(),
            job_rev: String::new(),
            start_time: 0,
            finish_time: 0,
            tester_type: String::new(),
            operator: String::new(),
            test_code: String::new(),
            wafers: Vec::new(),
            parts: Vec::new(),
            test_results: Vec::new(),
            tests: HashMap::new(),
            bins_hard: HashMap::new(),
            bins_soft: HashMap::new(),
        };
        proof {
            assert(r@ =~~= init_stdf_model());
        }
        r
    }
}

} // verus!
