//! The fixed filesystem layout the judge works in: one input file and one
//! captured-output file per case, and a single result file. In development
//! mode each absolute root is remapped to a relative one under the current
//! directory.

use vstd::prelude::*;
use vstd::string::StringExecFns;
use crate::decimal::{dec_str, u32_to_dec};

verus! {

/// The input path for a case: `/case/{id}.in`, or `./case/{id}.in` in
/// development mode.
pub open spec fn case_path_spec(case_id: nat, dev_mode: bool) -> Seq<char> {
    (if dev_mode {
        "./case/"@
    } else {
        "/case/"@
    }) + dec_str(case_id) + ".in"@
}

/// The captured-stdout path for a case: `/output/{id}.out`, or
/// `./output/{id}.out` in development mode.
pub open spec fn output_path_spec(case_id: nat, dev_mode: bool) -> Seq<char> {
    (if dev_mode {
        "./output/"@
    } else {
        "/output/"@
    }) + dec_str(case_id) + ".out"@
}

/// The verdict-vector path: `/result/info.json`, or `./result/info.json` in
/// development mode.
pub open spec fn result_file_spec(dev_mode: bool) -> Seq<char> {
    if dev_mode {
        "./result/info.json"@
    } else {
        "/result/info.json"@
    }
}

/// Where case `case_id`'s input file stands.
pub fn docker_case_path(case_id: u32, dev_mode: bool) -> (p: String)
    ensures
        p@ == case_path_spec(case_id as nat, dev_mode),
{
    let mut p = if dev_mode {
        String::from_str("./case/")
    } else {
        String::from_str("/case/")
    };
    let digits = u32_to_dec(case_id);
    p.append(digits.as_str());
    p.append(".in");
    p
}

/// Where case `case_id`'s captured stdout goes.
pub fn docker_output_path(case_id: u32, dev_mode: bool) -> (p: String)
    ensures
        p@ == output_path_spec(case_id as nat, dev_mode),
{
    let mut p = if dev_mode {
        String::from_str("./output/")
    } else {
        String::from_str("/output/")
    };
    let digits = u32_to_dec(case_id);
    p.append(digits.as_str());
    p.append(".out");
    p
}

/// Where the verdict vector goes.
pub fn docker_result_file(dev_mode: bool) -> (p: String)
    ensures
        p@ == result_file_spec(dev_mode),
{
    if dev_mode {
        String::from_str("./result/info.json")
    } else {
        String::from_str("/result/info.json")
    }
}

} // verus!
