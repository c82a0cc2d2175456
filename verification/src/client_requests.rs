use crate::client_benchmark::ClientBenchmark;
use crate::client_statistics::ClientStatistics;
use crate::config::Config;
use crate::request_post_statistics::{RequestPostStatistics, RequestPostStatisticsV};
use vstd::prelude::*;

verus! {

/// Assembles the body of a "submit observation" request from a local
/// telemetry sample, the benchmark outcome, this node's identity and its
/// public key text.  Sending it, signing the serialized body and handling
/// the reply are the binary's job.
pub fn build_post_statistics(
    client_benchmark: &ClientBenchmark,
    client_statistics: &ClientStatistics,
    config: &Config,
    public_key_string: String,
) -> (r: RequestPostStatistics)
    ensures
        r@ == (RequestPostStatisticsV {
            cpu_count: client_statistics@.cpu_count,
            cpu_idle: client_statistics@.cpu_idle,
            cpu_interrupt: client_statistics@.cpu_interrupt,
            cpu_nice: client_statistics@.cpu_nice,
            cpu_system: client_statistics@.cpu_system,
            cpu_user: client_statistics@.cpu_user,
            host_id: config@.host_id,
            mem_free: client_statistics@.mem_free,
            mem_usage: client_statistics@.mem_usage,
            mem_total: client_statistics@.mem_total,
            mt_2_result: client_benchmark@.mt_2_result,
            mt_4_result: client_benchmark@.mt_4_result,
            mt_8_result: client_benchmark@.mt_8_result,
            public_key: public_key_string@,
            st_result: client_benchmark@.st_result,
            sys_load_average_fifteen: client_statistics@.sys_load_average_fifteen,
            sys_load_average_five: client_statistics@.sys_load_average_five,
            sys_load_average_one: client_statistics@.sys_load_average_one,
            sys_uptime: client_statistics@.sys_uptime,
        }),
{
    RequestPostStatistics::new(
        client_statistics.cpu_count(),
        client_statistics.cpu_idle(),
        client_statistics.cpu_interrupt(),
        client_statistics.cpu_nice(),
        client_statistics.cpu_system(),
        client_statistics.cpu_user(),
        config.host_id().clone(),
        client_statistics.mem_free(),
        client_statistics.mem_usage(),
        client_statistics.mem_total(),
        client_benchmark.mt_2_result(),
        client_benchmark.mt_4_result(),
        client_benchmark.mt_8_result(),
        public_key_string,
        client_benchmark.st_result(),
        client_statistics.sys_load_average_fifteen(),
        client_statistics.sys_load_average_five(),
        client_statistics.sys_load_average_one(),
        client_statistics.sys_uptime(),
    )
}

} // verus!
