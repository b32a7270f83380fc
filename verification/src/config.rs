//! The run's parameters, read once per invocation: the case count, the
//! wall-clock limit in milliseconds, the memory limit (given in KiB on the
//! wire, held in bytes here, matching the sampler's unit), the executable
//! command, and the development-mode flag. The environment itself is read
//! outside the library; its values arrive here as plain strings.

use vstd::prelude::*;
use crate::command::{CommandError, exec_command, json_string_list};
use crate::decimal::{dec_val, is_dec_string};

verus! {

/// The parameters of one judge invocation.
pub struct RunConfig {
    /// How many cases to judge; at least one.
    pub case_count: u32,
    /// Wall-clock limit per case, in milliseconds.
    pub time_limit: u64,
    /// Resident-memory limit per case, in bytes.
    pub space_limit: u64,
    /// The program path and its argv tail; never empty.
    pub command: Vec<String>,
    /// Whether to remap paths under the current directory and be verbose.
    pub dev_mode: bool,
}

/// A usable configuration: at least one case, and a program to run.
pub open spec fn config_wf(c: RunConfig) -> bool {
    c.case_count >= 1 && c.command@.len() > 0
}

/// Why a configuration was rejected.
#[derive(Clone, Copy, Debug, PartialEq, Eq, Structural)]
pub enum ConfigError {
    /// The case count is not a decimal number that fits.
    BadCaseCount,
    /// The case count is zero.
    NoCases,
    /// The time limit is not a decimal number that fits.
    BadTimeLimit,
    /// The space limit is not a decimal number whose byte value fits.
    BadSpaceLimit,
    /// The command string is not a usable command.
    BadCommand(CommandError),
}

/// A decimal string whose value fits a `u32`.
pub open spec fn dec_fits_u32(s: Seq<char>) -> bool {
    is_dec_string(s) && dec_val(s) <= u32::MAX
}

/// A decimal string whose value fits a `u64`.
pub open spec fn dec_fits_u64(s: Seq<char>) -> bool {
    is_dec_string(s) && dec_val(s) <= u64::MAX
}

/// A decimal string naming a KiB count whose byte value fits a `u64`.
pub open spec fn dec_fits_space(s: Seq<char>) -> bool {
    is_dec_string(s) && dec_val(s) * 1024 <= u64::MAX
}

/// Scales the on-the-wire memory limit (KiB) to the sampler's unit (bytes).
pub fn scale_space_limit(kib: u64) -> (r: Option<u64>)
    ensures
        match r {
            Some(b) => kib * 1024 <= u64::MAX && b == kib * 1024,
            None => kib * 1024 > u64::MAX,
        },
{
    kib.checked_mul(1024)
}

/// The launcher's argument-vector policy: only a bare program path, with no
/// argv tail, is first made executable; a command with arguments is run as
/// it stands.
pub fn should_make_executable(command: &Vec<String>) -> (r: bool)
    ensures
        r == (command@.len() == 1),
{
    command.len() == 1
}

/// Builds the run's configuration from the raw parameter strings, checking
/// them in order: case count, time limit, space limit, command. Each value
/// must be a plain decimal; the space limit is scaled from KiB to bytes;
/// the command must be a non-empty JSON array of strings.
pub fn ingest(
    case_count_s: &str,
    time_limit_s: &str,
    space_limit_s: &str,
    exec_command_s: &str,
    dev_mode: bool,
) -> (r: Result<RunConfig, ConfigError>)
    ensures
        match r {
            Ok(c) => {
                &&& config_wf(c)
                &&& is_dec_string(case_count_s@) && c.case_count == dec_val(case_count_s@)
                &&& is_dec_string(time_limit_s@) && c.time_limit == dec_val(time_limit_s@)
                &&& is_dec_string(space_limit_s@) && c.space_limit == dec_val(space_limit_s@)
                    * 1024
                &&& json_string_list(exec_command_s@) == Some(
                    c.command@.map_values(|t: String| t@),
                )
                &&& c.dev_mode == dev_mode
            },
            Err(e) => match e {
                ConfigError::BadCaseCount => !dec_fits_u32(case_count_s@),
                ConfigError::NoCases => dec_fits_u32(case_count_s@) && dec_val(case_count_s@)
                    == 0,
                ConfigError::BadTimeLimit => {
                    &&& dec_fits_u32(case_count_s@) && dec_val(case_count_s@) > 0
                    &&& !dec_fits_u64(time_limit_s@)
                },
                ConfigError::BadSpaceLimit => {
                    &&& dec_fits_u32(case_count_s@) && dec_val(case_count_s@) > 0
                    &&& dec_fits_u64(time_limit_s@)
                    &&& !dec_fits_space(space_limit_s@)
                },
                ConfigError::BadCommand(ce) => {
                    &&& dec_fits_u32(case_count_s@) && dec_val(case_count_s@) > 0
                    &&& dec_fits_u64(time_limit_s@)
                    &&& dec_fits_space(space_limit_s@)
                    &&& match ce {
                        CommandError::Empty => exec_command_s@.len() == 0,
                        CommandError::Unparsable => exec_command_s@.len() > 0 && json_string_list(
                            exec_command_s@,
                        ) is None,
                        CommandError::NoProgram => exec_command_s@.len() > 0 && json_string_list(
                            exec_command_s@,
                        ) == Some(Seq::<Seq<char>>::empty()),
                    }
                },
            },
        },
{
    let case_count = match crate::decimal::parse_u32(case_count_s) {
        Some(n) => n,
        None => {
            return Err(ConfigError::BadCaseCount);
        },
    };
    if case_count == 0 {
        return Err(ConfigError::NoCases);
    }
    let time_limit = match crate::decimal::parse_u64(time_limit_s) {
        Some(n) => n,
        None => {
            return Err(ConfigError::BadTimeLimit);
        },
    };
    let space_limit_kib = match crate::decimal::parse_u64(space_limit_s) {
        Some(n) => n,
        None => {
            return Err(ConfigError::BadSpaceLimit);
        },
    };
    let space_limit = match scale_space_limit(space_limit_kib) {
        Some(b) => b,
        None => {
            return Err(ConfigError::BadSpaceLimit);
        },
    };
    let command = match exec_command(exec_command_s) {
        Ok(v) => v,
        Err(e) => {
            return Err(ConfigError::BadCommand(e));
        },
    };
    Ok(RunConfig { case_count, time_limit, space_limit, command, dev_mode })
}

} // verus!
