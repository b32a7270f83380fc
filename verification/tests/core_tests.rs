use judge::driver::CaseDriver;
use judge::observer::MemoryObserver;
use judge::record::TestResult;
use judge::supervisor::{
    completion_verdict, finish_case, needs_kill, resolve_case, select_winner, spawn_failure,
};
use judge::verdict::Verdict;

#[test]
fn completion_maps_success_to_ok() {
    assert_eq!(completion_verdict(Some(true)), Verdict::Accepted);
}

#[test]
fn completion_maps_failure_to_re() {
    assert_eq!(completion_verdict(Some(false)), Verdict::RuntimeError);
    assert_eq!(completion_verdict(None), Verdict::RuntimeError);
}

#[test]
fn winner_is_first_when_first_is_final() {
    assert_eq!(
        select_winner(Verdict::TimeLimit, Verdict::Accepted),
        Verdict::TimeLimit
    );
    assert_eq!(
        select_winner(Verdict::MemoryLimit, Verdict::RuntimeError),
        Verdict::MemoryLimit
    );
    assert_eq!(
        select_winner(Verdict::Accepted, Verdict::Accepted),
        Verdict::Accepted
    );
}

#[test]
fn sentinel_defers_to_second_observer() {
    assert_eq!(
        select_winner(Verdict::ProcessVanished, Verdict::Accepted),
        Verdict::Accepted
    );
    assert_eq!(
        select_winner(Verdict::ProcessVanished, Verdict::RuntimeError),
        Verdict::RuntimeError
    );
}

#[test]
fn kill_fires_exactly_on_non_ok() {
    assert!(!needs_kill(Verdict::Accepted));
    assert!(needs_kill(Verdict::RuntimeError));
    assert!(needs_kill(Verdict::TimeLimit));
    assert!(needs_kill(Verdict::MemoryLimit));
}

#[test]
fn finish_case_fills_the_record() {
    let r = finish_case(3, Verdict::Accepted, 1_000, 1_250, 4096);
    assert_eq!(r.case_id, 3);
    assert_eq!(r.status, Verdict::Accepted);
    assert_eq!(r.time_used, 250);
    assert_eq!(r.space_used, 4096);
}

#[test]
fn spawn_failure_charges_nothing() {
    let r = spawn_failure(2);
    assert_eq!(r.case_id, 2);
    assert_eq!(r.status, Verdict::RuntimeError);
    assert_eq!(r.time_used, 0);
    assert_eq!(r.space_used, 0);
}

#[test]
fn resolve_ok_case_does_not_kill() {
    let (r, kill) = resolve_case(1, Verdict::Accepted, Verdict::Accepted, 100, 150, 512);
    assert_eq!(r.status, Verdict::Accepted);
    assert_eq!(r.time_used, 50);
    assert_eq!(r.space_used, 512);
    assert!(!kill);
}

#[test]
fn resolve_tle_case_kills() {
    let (r, kill) = resolve_case(1, Verdict::TimeLimit, Verdict::Accepted, 0, 1_005, 64);
    assert_eq!(r.status, Verdict::TimeLimit);
    assert_eq!(r.time_used, 1_005);
    assert!(kill);
}

#[test]
fn resolve_vanished_child_takes_completion_verdict() {
    let (r, kill) = resolve_case(1, Verdict::ProcessVanished, Verdict::Accepted, 0, 40, 128);
    assert_eq!(r.status, Verdict::Accepted);
    assert!(!kill);
}

#[test]
fn observer_tracks_peak_and_stays_quiet_under_limit() {
    let mut obs = MemoryObserver::new(1_000);
    assert_eq!(obs.step(Some(10)), None);
    assert_eq!(obs.peak, 10);
    assert_eq!(obs.step(Some(30)), None);
    assert_eq!(obs.peak, 30);
    assert_eq!(obs.step(Some(20)), None);
    assert_eq!(obs.peak, 30);
}

#[test]
fn observer_raises_mle_strictly_over_limit() {
    let mut obs = MemoryObserver::new(100);
    assert_eq!(obs.step(Some(100)), None);
    assert_eq!(obs.step(Some(101)), Some(Verdict::MemoryLimit));
    assert_eq!(obs.peak, 101);
}

#[test]
fn observer_defers_when_process_is_gone() {
    let mut obs = MemoryObserver::new(100);
    assert_eq!(obs.step(Some(42)), None);
    assert_eq!(obs.step(None), Some(Verdict::ProcessVanished));
    assert_eq!(obs.peak, 42);
}

#[test]
fn driver_hands_out_cases_in_order() {
    let mut driver = CaseDriver::new(2);
    assert_eq!(driver.next_case(), Some(1));
    driver.record_case(TestResult {
        case_id: 1,
        status: Verdict::Accepted,
        time_used: 5,
        space_used: 100,
    });
    assert!(!driver.is_done());
    assert_eq!(driver.next_case(), Some(2));
    driver.record_case(TestResult {
        case_id: 2,
        status: Verdict::TimeLimit,
        time_used: 1_000,
        space_used: 200,
    });
    assert!(driver.is_done());
    assert_eq!(driver.next_case(), None);
    let results = driver.into_results();
    assert_eq!(results.len(), 2);
    assert_eq!(results[0].case_id, 1);
    assert_eq!(results[1].case_id, 2);
    assert_eq!(results[0].status, Verdict::Accepted);
    assert_eq!(results[1].status, Verdict::TimeLimit);
}

#[test]
fn verdict_labels() {
    assert_eq!(Verdict::Accepted.label(), "OK");
    assert_eq!(Verdict::RuntimeError.label(), "RE");
    assert_eq!(Verdict::TimeLimit.label(), "TLE");
    assert_eq!(Verdict::MemoryLimit.label(), "MLE");
    assert_eq!(Verdict::ProcessVanished.label(), "CONTINUE");
}
