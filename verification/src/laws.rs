//! Properties of the decoder, stated over the specification model and
//! proved once for all inputs.

use vstd::prelude::*;
use crate::model::{
    StateModel, init_stdf_model, spec_far, spec_prr, spec_ptr, spec_mpr, spec_ftr, spec_wrr,
    spec_step, spec_run, spec_parse, u2_val, u4_val, req_cn, coord_default,
};
use vstd::utf8::{valid_utf8, decode_utf8, encode_utf8};

verus! {

/// Byte-order selection: a two-byte field decoded after a file-attributes
/// record whose first payload byte equals the big-endian sentinel (1)
/// takes its high byte first; after any other first byte it takes its low
/// byte first.
pub proof fn lemma_endianness_after_far(st: StateModel, p: Seq<u8>, b0: u8, b1: u8)
    requires
        p.len() >= 2,
    ensures
        spec_far(st, p) is Some,
        ({
            let le2 = spec_far(st, p).unwrap().little_endian;
            &&& le2 == (p[0] != 1)
            &&& u2_val(b0, b1, le2) == if p[0] == 1 {
                (b0 as int) * 0x100 + (b1 as int)
            } else {
                (b1 as int) * 0x100 + (b0 as int)
            }
        }),
{
}

/// String round trip: a length byte L followed by L bytes decodes to the
/// characters those bytes spell, and those characters encode back to
/// exactly the original bytes, for every L from 0 to 255.  Stated for
/// well-formed text: a byte sequence that is not valid UTF-8 decodes to
/// its lossy replacement decoding instead of byte-for-byte.
pub proof fn lemma_string_round_trip(b: Seq<u8>)
    requires
        b.len() <= 255,
        valid_utf8(b),
    ensures
        ({
            let encoded = seq![b.len() as u8] + b;
            &&& req_cn(encoded, 0) == Some((decode_utf8(b), encoded.len() as int))
            &&& encode_utf8(decode_utf8(b)) == b
        }),
{
    broadcast use vstd::utf8::decode_utf8_encode_utf8;

    let encoded = seq![b.len() as u8] + b;
    assert(encoded[0] == b.len() as u8);
    assert(encoded.subrange(1, 1 + (encoded[0] as int)) =~= b);
}

/// Part outcome: a part-results payload with bit 3 of the part-flag byte
/// set yields a failed part; with it cleared, a passing part.  One part
/// is appended either way.
pub proof fn lemma_part_outcome(st: StateModel, p: Seq<u8>)
    requires
        spec_prr(st, p) is Some,
    ensures
        ({
            let d = spec_prr(st, p).unwrap().data;
            &&& d.parts.len() == st.data.parts.len() + 1
            &&& d.parts.last().passed == ((p[2] & 0x08) == 0)
        }),
{
}

/// Test outcome: a parametric, multi-result or functional test payload
/// with bit 7 of its test-flag byte set yields a failed test result; with
/// it cleared, a passing one.  One result row is appended either way.
pub proof fn lemma_test_outcome(st: StateModel, p: Seq<u8>)
    ensures
        spec_ptr(st, p) is Some ==> ({
            let d = spec_ptr(st, p).unwrap().data;
            &&& d.test_results.len() == st.data.test_results.len() + 1
            &&& d.test_results.last().passed == ((p[6] & 0x80) == 0)
        }),
        spec_mpr(st, p) is Some ==> ({
            let d = spec_mpr(st, p).unwrap().data;
            &&& d.test_results.len() == st.data.test_results.len() + 1
            &&& d.test_results.last().passed == ((p[6] & 0x80) == 0)
        }),
        spec_ftr(st, p) is Some ==> ({
            let d = spec_ftr(st, p).unwrap().data;
            &&& d.test_results.len() == st.data.test_results.len() + 1
            &&& d.test_results.last().passed == ((p[6] & 0x80) == 0)
        }),
{
}

/// Missing-tail defaults: a part-results payload that ends right after
/// its mandatory prefix still decodes, with the coordinate sentinel for
/// x and y and zero for the optional counters; a parametric-test payload
/// that ends right after its mandatory prefix still decodes, with absent
/// (not-a-number) result and limits and empty units.
pub proof fn lemma_missing_tail_defaults(st: StateModel, p7: Seq<u8>, p8: Seq<u8>)
    requires
        p7.len() == 7,
        p8.len() == 8,
    ensures
        spec_prr(st, p7) is Some,
        ({
            let part = spec_prr(st, p7).unwrap().data.parts.last();
            &&& part.x_coord == coord_default()
            &&& part.y_coord == coord_default()
            &&& part.soft_bin == 0
            &&& part.test_time == 0
        }),
        spec_ptr(st, p8) is Some,
        ({
            let row = spec_ptr(st, p8).unwrap().data.test_results.last();
            &&& row.result is None
            &&& row.lo_limit is None
            &&& row.hi_limit is None
            &&& row.units == Seq::<char>::empty()
        }),
{
}

/// Orphan wafer-results: with no wafer open, a wafer-results record
/// changes nothing and never fails the parse, whatever its payload.
pub proof fn lemma_orphan_wafer_results(st: StateModel, p: Seq<u8>)
    requires
        st.data.wafers.len() == 0,
    ensures
        spec_wrr(st, p) is Some ==> spec_wrr(st, p).unwrap() == st,
        spec_step(st, 2, 20, p) == st,
{
}

/// Shared test number: a second parametric-test record for an
/// already-defined test number appends a second result row but leaves the
/// definition map exactly as the first record made it.
pub proof fn lemma_shared_test_number(st: StateModel, p1: Seq<u8>, p2: Seq<u8>)
    requires
        spec_ptr(st, p1) is Some,
        spec_ptr(spec_ptr(st, p1).unwrap(), p2) is Some,
        p2[0] == p1[0] && p2[1] == p1[1] && p2[2] == p1[2] && p2[3] == p1[3],
        !st.data.tests.contains_key(
            u4_val(p1[0], p1[1], p1[2], p1[3], st.little_endian) as i64,
        ),
        st.data.tests.dom().finite(),
    ensures
        ({
            let st1 = spec_ptr(st, p1).unwrap();
            let st2 = spec_ptr(st1, p2).unwrap();
            let k = u4_val(p1[0], p1[1], p1[2], p1[3], st.little_endian) as i64;
            &&& st2.data.tests == st1.data.tests
            &&& st2.data.tests.contains_key(k)
            &&& st2.data.tests[k].test_name == st1.data.tests[k].test_name
            &&& st2.data.tests.dom().len() == st.data.tests.dom().len() + 1
            &&& st2.data.test_results.len() == st.data.test_results.len() + 2
        }),
{
    broadcast use vstd::set::axiom_set_insert_len;

    let st1 = spec_ptr(st, p1).unwrap();
    let k = u4_val(p1[0], p1[1], p1[2], p1[3], st.little_endian) as i64;
    assert(st1.data.tests.dom() =~= st.data.tests.dom().insert(k));
}

/// A zero-byte input yields the empty aggregate, not an error.
pub proof fn lemma_empty_input()
    ensures
        spec_parse(Seq::<u8>::empty()) == init_stdf_model(),
{
}

/// Truncated trailing record: when a header declares more payload than
/// the input still holds, the parse stops at that header and returns
/// exactly the aggregate accumulated before it.
pub proof fn lemma_truncated_tail(st: StateModel, s: Seq<u8>, pos: int)
    requires
        0 <= pos,
        pos + 4 <= s.len(),
        pos + 4 + u2_val(s[pos], s[pos + 1], st.little_endian) > s.len(),
    ensures
        spec_run(st, s, pos) == st.data,
{
}

} // verus!
