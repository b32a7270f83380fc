use judge::cases::{count, CaseCheckError};
use judge::command::{exec_command, CommandError};
use judge::config::{ingest, scale_space_limit, should_make_executable, ConfigError};
use judge::decimal::{parse_u32, parse_u64, u32_to_dec, u64_to_dec};
use judge::paths::{docker_case_path, docker_output_path, docker_result_file};
use judge::probe::process;
use judge::record::TestResult;
use judge::render::{render_result, render_results};
use judge::verdict::Verdict;

#[test]
fn decimal_rendering() {
    assert_eq!(u64_to_dec(0), "0");
    assert_eq!(u64_to_dec(7), "7");
    assert_eq!(u64_to_dec(1024), "1024");
    assert_eq!(u64_to_dec(u64::MAX), "18446744073709551615");
    assert_eq!(u32_to_dec(4_294_967_295), "4294967295");
}

#[test]
fn decimal_parsing() {
    assert_eq!(parse_u64("0"), Some(0));
    assert_eq!(parse_u64("1000"), Some(1000));
    assert_eq!(parse_u64("007"), Some(7));
    assert_eq!(parse_u64("18446744073709551615"), Some(u64::MAX));
    assert_eq!(parse_u64("18446744073709551616"), None);
    assert_eq!(parse_u64(""), None);
    assert_eq!(parse_u64("12a"), None);
    assert_eq!(parse_u64("-1"), None);
    assert_eq!(parse_u32("4294967295"), Some(u32::MAX));
    assert_eq!(parse_u32("4294967296"), None);
}

#[test]
fn decimal_round_trip() {
    for n in [0u64, 1, 9, 10, 99, 100, 4096, 123_456_789, u64::MAX] {
        assert_eq!(parse_u64(&u64_to_dec(n)), Some(n));
    }
}

#[test]
fn paths_production_and_dev() {
    assert_eq!(docker_case_path(1, false), "/case/1.in");
    assert_eq!(docker_case_path(12, true), "./case/12.in");
    assert_eq!(docker_output_path(3, false), "/output/3.out");
    assert_eq!(docker_output_path(3, true), "./output/3.out");
    assert_eq!(docker_result_file(false), "/result/info.json");
    assert_eq!(docker_result_file(true), "./result/info.json");
}

#[test]
fn render_one_record() {
    let r = TestResult {
        case_id: 1,
        status: Verdict::Accepted,
        time_used: 5,
        space_used: 256,
    };
    assert_eq!(
        render_result(r),
        "{\"case_id\":1,\"status\":\"OK\",\"time_used\":5,\"space_used\":256}"
    );
}

#[test]
fn render_whole_file() {
    let rs = vec![
        TestResult {
            case_id: 1,
            status: Verdict::TimeLimit,
            time_used: 1_000,
            space_used: 42,
        },
        TestResult {
            case_id: 2,
            status: Verdict::MemoryLimit,
            time_used: 37,
            space_used: 134_217_728,
        },
    ];
    assert_eq!(
        render_results(&rs),
        "[{\"case_id\":1,\"status\":\"TLE\",\"time_used\":1000,\"space_used\":42},\
         {\"case_id\":2,\"status\":\"MLE\",\"time_used\":37,\"space_used\":134217728}]"
    );
    assert_eq!(render_results(&Vec::<TestResult>::new()), "[]");
}

#[test]
fn rendered_file_reads_back_as_json() {
    let rs = vec![
        TestResult {
            case_id: 1,
            status: Verdict::Accepted,
            time_used: 12,
            space_used: 1024,
        },
        TestResult {
            case_id: 2,
            status: Verdict::RuntimeError,
            time_used: 0,
            space_used: 0,
        },
    ];
    let text = render_results(&rs);
    let parsed: serde_json::Value = serde_json::from_str(&text).unwrap();
    let arr = parsed.as_array().unwrap();
    assert_eq!(arr.len(), 2);
    assert_eq!(arr[0]["case_id"], serde_json::Value::from(1u32));
    assert_eq!(arr[0]["status"], serde_json::Value::from("OK"));
    assert_eq!(arr[1]["status"], serde_json::Value::from("RE"));
    assert_eq!(arr[1]["time_used"], serde_json::Value::from(0u64));
    assert_eq!(arr[1]["space_used"], serde_json::Value::from(0u64));
    // Parsing the re-serialized text reads back the same value.
    let reparsed: serde_json::Value =
        serde_json::from_str(&serde_json::to_string(&parsed).unwrap()).unwrap();
    assert_eq!(reparsed, parsed);
}

#[test]
fn exec_command_parses_a_command_vector() {
    let v = exec_command("[\"./prog\",\"-x\",\"7\"]").unwrap();
    assert_eq!(v, vec!["./prog".to_string(), "-x".to_string(), "7".to_string()]);
}

#[test]
fn exec_command_rejects_bad_input() {
    assert_eq!(exec_command(""), Err(CommandError::Empty));
    assert_eq!(exec_command("not json"), Err(CommandError::Unparsable));
    assert_eq!(exec_command("[1,2]"), Err(CommandError::Unparsable));
    assert_eq!(exec_command("{\"a\":1}"), Err(CommandError::Unparsable));
    assert_eq!(exec_command("[]"), Err(CommandError::NoProgram));
}

#[test]
fn space_limit_scaling() {
    assert_eq!(scale_space_limit(128 * 1024), Some(128 * 1024 * 1024));
    assert_eq!(scale_space_limit(0), Some(0));
    assert_eq!(scale_space_limit(u64::MAX), None);
}

#[test]
fn ingest_accepts_a_full_configuration() {
    let c = ingest("2", "1000", "131072", "[\"./test/ok.o\"]", true).unwrap();
    assert_eq!(c.case_count, 2);
    assert_eq!(c.time_limit, 1000);
    assert_eq!(c.space_limit, 131072 * 1024);
    assert_eq!(c.command, vec!["./test/ok.o".to_string()]);
    assert!(c.dev_mode);
}

#[test]
fn ingest_rejects_bad_parameters() {
    assert!(matches!(
        ingest("two", "1000", "1", "[\"p\"]", false),
        Err(ConfigError::BadCaseCount)
    ));
    assert!(matches!(
        ingest("0", "1000", "1", "[\"p\"]", false),
        Err(ConfigError::NoCases)
    ));
    assert!(matches!(
        ingest("1", "", "1", "[\"p\"]", false),
        Err(ConfigError::BadTimeLimit)
    ));
    assert!(matches!(
        ingest("1", "1000", "18446744073709551615", "[\"p\"]", false),
        Err(ConfigError::BadSpaceLimit)
    ));
    assert!(matches!(
        ingest("1", "1000", "1", "", false),
        Err(ConfigError::BadCommand(CommandError::Empty))
    ));
    assert!(matches!(
        ingest("1", "1000", "1", "[]", false),
        Err(ConfigError::BadCommand(CommandError::NoProgram))
    ));
}

#[test]
fn chmod_policy_only_for_bare_program() {
    assert!(should_make_executable(&vec!["./p".to_string()]));
    assert!(!should_make_executable(&vec!["./p".to_string(), "-v".to_string()]));
}

#[test]
fn count_checks_presence() {
    assert_eq!(count(2, &vec![true, true]), Ok(()));
    assert_eq!(count(0, &vec![]), Err(CaseCheckError::NoCases));
    assert_eq!(
        count(3, &vec![true, false, true]),
        Err(CaseCheckError::MissingCase(2))
    );
}

#[test]
fn probe_reports_missing_process_as_absent() {
    assert_eq!(process(i32::MAX), None);
}
