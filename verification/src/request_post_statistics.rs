use crate::db_statistics::{CENTI_CAP, UPTIME_CAP};
use vstd::prelude::*;

verus! {

/// Mathematical model of `RequestPostStatistics`.
pub ghost struct RequestPostStatisticsV {
    pub cpu_count: int,
    pub cpu_idle: int,
    pub cpu_interrupt: int,
    pub cpu_nice: int,
    pub cpu_system: int,
    pub cpu_user: int,
    pub host_id: Seq<char>,
    pub mem_free: int,
    pub mem_usage: int,
    pub mem_total: int,
    pub mt_2_result: int,
    pub mt_4_result: int,
    pub mt_8_result: int,
    pub public_key: Seq<char>,
    pub st_result: int,
    pub sys_load_average_fifteen: int,
    pub sys_load_average_five: int,
    pub sys_load_average_one: int,
    pub sys_uptime: int,
}

/// The bounds under which an inbound report can be ingested exactly: the
/// percentages and load averages that enter the score are at most 100.00
/// and the uptime is at most `UPTIME_CAP` seconds.
pub open spec fn req_well_formed(v: RequestPostStatisticsV) -> bool {
    &&& 0 <= v.cpu_idle <= CENTI_CAP
    &&& 0 <= v.mem_usage <= CENTI_CAP
    &&& 0 <= v.sys_load_average_fifteen <= CENTI_CAP
    &&& 0 <= v.sys_load_average_five <= CENTI_CAP
    &&& 0 <= v.sys_load_average_one <= CENTI_CAP
    &&& 0 <= v.sys_uptime <= UPTIME_CAP
}

/// Body of one "submit observation" request, as a reporting node builds it
/// and the collector ingests it.  Fractional quantities travel in
/// hundredths (see `DbStatisticsV`).
#[derive(Debug)]
pub struct RequestPostStatistics {
    cpu_count: u16,
    cpu_idle: u32,
    cpu_interrupt: u32,
    cpu_nice: u32,
    cpu_system: u32,
    cpu_user: u32,
    host_id: String,
    mem_free: u64,
    mem_usage: u32,
    mem_total: u64,
    mt_2_result: u32,
    mt_4_result: u32,
    mt_8_result: u32,
    public_key: String,
    st_result: u32,
    sys_load_average_fifteen: u32,
    sys_load_average_five: u32,
    sys_load_average_one: u32,
    sys_uptime: u64,
}

impl View for RequestPostStatistics {
    type V = RequestPostStatisticsV;

    closed spec fn view(&self) -> RequestPostStatisticsV {
        RequestPostStatisticsV {
            cpu_count: self.cpu_count as int,
            cpu_idle: self.cpu_idle as int,
            cpu_interrupt: self.cpu_interrupt as int,
            cpu_nice: self.cpu_nice as int,
            cpu_system: self.cpu_system as int,
            cpu_user: self.cpu_user as int,
            host_id: self.host_id@,
            mem_free: self.mem_free as int,
            mem_usage: self.mem_usage as int,
            mem_total: self.mem_total as int,
            mt_2_result: self.mt_2_result as int,
            mt_4_result: self.mt_4_result as int,
            mt_8_result: self.mt_8_result as int,
            public_key: self.public_key@,
            st_result: self.st_result as int,
            sys_load_average_fifteen: self.sys_load_average_fifteen as int,
            sys_load_average_five: self.sys_load_average_five as int,
            sys_load_average_one: self.sys_load_average_one as int,
            sys_uptime: self.sys_uptime as int,
        }
    }
}

impl RequestPostStatistics {
    #[allow(clippy::too_many_arguments)]
    pub fn new(
        cpu_count: u16,
        cpu_idle: u32,
        cpu_interrupt: u32,
        cpu_nice: u32,
        cpu_system: u32,
        cpu_user: u32,
        host_id: String,
        mem_free: u64,
        mem_usage: u32,
        mem_total: u64,
        mt_2_result: u32,
        mt_4_result: u32,
        mt_8_result: u32,
        public_key: String,
        st_result: u32,
        sys_load_average_fifteen: u32,
        sys_load_average_five: u32,
        sys_load_average_one: u32,
        sys_uptime: u64,
    ) -> (r: RequestPostStatistics)
        ensures
            r@ == (RequestPostStatisticsV {
                cpu_count: cpu_count as int,
                cpu_idle: cpu_idle as int,
                cpu_interrupt: cpu_interrupt as int,
                cpu_nice: cpu_nice as int,
                cpu_system: cpu_system as int,
                cpu_user: cpu_user as int,
                host_id: host_id@,
                mem_free: mem_free as int,
                mem_usage: mem_usage as int,
                mem_total: mem_total as int,
                mt_2_result: mt_2_result as int,
                mt_4_result: mt_4_result as int,
                mt_8_result: mt_8_result as int,
                public_key: public_key@,
                st_result: st_result as int,
                sys_load_average_fifteen: sys_load_average_fifteen as int,
                sys_load_average_five: sys_load_average_five as int,
                sys_load_average_one: sys_load_average_one as int,
                sys_uptime: sys_uptime as int,
            }),
    {
        RequestPostStatistics {
            cpu_count,
            cpu_idle,
            cpu_interrupt,
            cpu_nice,
            cpu_system,
            cpu_user,
            host_id,
            mem_free,
            mem_usage,
            mem_total,
            mt_2_result,
            mt_4_result,
            mt_8_result,
            public_key,
            st_result,
            sys_load_average_fifteen,
            sys_load_average_five,
            sys_load_average_one,
            sys_uptime,
        }
    }

    /// Whether this report is within the bounds under which ingestion and
    /// scoring are exact.
    pub fn is_well_formed(&self) -> (r: bool)
        ensures
            r == req_well_formed(self@),
    {
        self.cpu_idle <= CENTI_CAP && self.mem_usage <= CENTI_CAP
            && self.sys_load_average_fifteen <= CENTI_CAP && self.sys_load_average_five <= CENTI_CAP
            && self.sys_load_average_one <= CENTI_CAP && self.sys_uptime <= UPTIME_CAP
    }

    pub fn cpu_count(&self) -> (r: u16)
        ensures
            r == self@.cpu_count,
    {
        self.cpu_count
    }

    pub fn cpu_idle(&self) -> (r: u32)
        ensures
            r == self@.cpu_idle,
    {
        self.cpu_idle
    }

    pub fn cpu_interrupt(&self) -> (r: u32)
        ensures
            r == self@.cpu_interrupt,
    {
        self.cpu_interrupt
    }

    pub fn cpu_nice(&self) -> (r: u32)
        ensures
            r == self@.cpu_nice,
    {
        self.cpu_nice
    }

    pub fn cpu_system(&self) -> (r: u32)
        ensures
            r == self@.cpu_system,
    {
        self.cpu_system
    }

    pub fn cpu_user(&self) -> (r: u32)
        ensures
            r == self@.cpu_user,
    {
        self.cpu_user
    }

    pub fn host_id(&self) -> (r: &String)
        ensures
            r@ == self@.host_id,
    {
        &self.host_id
    }

    pub fn mem_free(&self) -> (r: u64)
        ensures
            r == self@.mem_free,
    {
        self.mem_free
    }

    pub fn mem_usage(&self) -> (r: u32)
        ensures
            r == self@.mem_usage,
    {
        self.mem_usage
    }

    pub fn mem_total(&self) -> (r: u64)
        ensures
            r == self@.mem_total,
    {
        self.mem_total
    }

    pub fn mt_2_result(&self) -> (r: u32)
        ensures
            r == self@.mt_2_result,
    {
        self.mt_2_result
    }

    pub fn mt_4_result(&self) -> (r: u32)
        ensures
            r == self@.mt_4_result,
    {
        self.mt_4_result
    }

    pub fn mt_8_result(&self) -> (r: u32)
        ensures
            r == self@.mt_8_result,
    {
        self.mt_8_result
    }

    pub fn public_key(&self) -> (r: &String)
        ensures
            r@ == self@.public_key,
    {
        &self.public_key
    }

    pub fn st_result(&self) -> (r: u32)
        ensures
            r == self@.st_result,
    {
        self.st_result
    }

    pub fn sys_load_average_fifteen(&self) -> (r: u32)
        ensures
            r == self@.sys_load_average_fifteen,
    {
        self.sys_load_average_fifteen
    }

    pub fn sys_load_average_five(&self) -> (r: u32)
        ensures
            r == self@.sys_load_average_five,
    {
        self.sys_load_average_five
    }

    pub fn sys_load_average_one(&self) -> (r: u32)
        ensures
            r == self@.sys_load_average_one,
    {
        self.sys_load_average_one
    }

    pub fn sys_uptime(&self) -> (r: u64)
        ensures
            r == self@.sys_uptime,
    {
        self.sys_uptime
    }
}

} // verus!
