use auditor::client_benchmark::{fibonacci, fibonacci_loop, ClientBenchmark};
use auditor::client_requests::build_post_statistics;
use auditor::client_statistics::ClientStatistics;
use auditor::config::Config;
use auditor::db_statistics::DbStatistics;
use auditor::mode::Mode;
use auditor::score::{partial_score, SCORE_DENOM};

fn observation(
    cpu_usage: u32,
    mem_usage: u32,
    mt_2: u32,
    mt_4: u32,
    mt_8: u32,
    st: u32,
    loads: u32,
    uptime: u64,
) -> DbStatistics {
    DbStatistics::new(
        String::new(),
        4,
        10000 - cpu_usage,
        0,
        0,
        0,
        cpu_usage,
        0,
        "obs".to_string(),
        0,
        mem_usage,
        0,
        mt_2,
        mt_4,
        mt_8,
        st,
        loads,
        loads,
        loads,
        uptime,
        0,
        false,
    )
}

#[test]
fn scenario_score_is_exact() {
    let obs = observation(1000, 5000, 50, 50, 50, 50, 100, 3600);
    // 0.10 * 0.50 * 0.5 * 0.5 * 0.5 * 0.5 * 1.0 * 1.0 * 1.0 * 3600 = 11.25
    assert_eq!(partial_score(&obs), 112500000000000000000000);
    assert_eq!(SCORE_DENOM, 10000000000000000000000);
}

#[test]
fn zero_usage_is_floored() {
    // Every factor floored to 0.01 except the loads at 1.0: the score is
    // 0.01^6 * 1.0^3 * 10 = 0.00000000001.
    let obs = observation(0, 0, 100, 150, 200, 1000, 100, 10);
    // 10^-11 of the denominator 10^22 is 10^11.
    assert_eq!(partial_score(&obs), 100000000000);
}

#[test]
fn zero_load_is_floored() {
    // Loads of zero contribute 0.01 each: 0.1 * 0.5 * 0.5^4 * 0.01^3 * 1600.
    let obs = observation(1000, 5000, 50, 50, 50, 50, 0, 1600);
    // 0.003125 * 1e-6 * 1600 = 5e-6 -> 5e-6 * 1e22 = 5e16.
    assert_eq!(partial_score(&obs), 50000000000000000);
}

#[test]
fn faster_benchmark_scores_strictly_higher() {
    let slower = observation(1000, 5000, 50, 50, 50, 50, 100, 3600);
    let faster = observation(1000, 5000, 40, 50, 50, 50, 100, 3600);
    assert!(partial_score(&faster) > partial_score(&slower));
    let faster_st = observation(1000, 5000, 50, 50, 50, 10, 100, 3600);
    assert!(partial_score(&faster_st) > partial_score(&slower));
}

#[test]
fn zero_uptime_gives_zero_score() {
    let obs = observation(1000, 5000, 50, 50, 50, 50, 100, 0);
    assert_eq!(partial_score(&obs), 0);
}

#[test]
fn fibonacci_matches_the_sequence() {
    assert_eq!(fibonacci(0), 1);
    assert_eq!(fibonacci(1), 1);
    assert_eq!(fibonacci(2), 2);
    assert_eq!(fibonacci(10), 89);
    assert_eq!(fibonacci_loop(&0), 0);
    assert_eq!(fibonacci_loop(&5), 5);
    assert_eq!(fibonacci_loop(&11), 89);
}

#[test]
fn request_builder_copies_every_field() {
    let benchmark = ClientBenchmark::new(11, 22, 33, 44);
    let statistics = ClientStatistics::new(8, 9000, 1, 2, 3, 4, 100, 5000, 200, 5, 6, 7, 3600);
    let config = Config::new(
        "/data/".to_string(),
        "/etc/".to_string(),
        "node-1".to_string(),
        Mode::Client,
    );
    let request = build_post_statistics(&benchmark, &statistics, &config, "KEY".to_string());
    assert_eq!(request.cpu_count(), 8);
    assert_eq!(request.cpu_idle(), 9000);
    assert_eq!(request.cpu_interrupt(), 1);
    assert_eq!(request.cpu_nice(), 2);
    assert_eq!(request.cpu_system(), 3);
    assert_eq!(request.cpu_user(), 4);
    assert_eq!(request.host_id().as_str(), "node-1");
    assert_eq!(request.mem_free(), 100);
    assert_eq!(request.mem_usage(), 5000);
    assert_eq!(request.mem_total(), 200);
    assert_eq!(request.mt_2_result(), 11);
    assert_eq!(request.mt_4_result(), 22);
    assert_eq!(request.mt_8_result(), 33);
    assert_eq!(request.public_key().as_str(), "KEY");
    assert_eq!(request.st_result(), 44);
    assert_eq!(request.sys_load_average_fifteen(), 5);
    assert_eq!(request.sys_load_average_five(), 6);
    assert_eq!(request.sys_load_average_one(), 7);
    assert_eq!(request.sys_uptime(), 3600);
    assert!(request.is_well_formed());
}
