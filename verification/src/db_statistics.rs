use vstd::prelude::*;

verus! {

/// Upper bound, in hundredths, for the percentage and load-average fields
/// that enter the score (100.00% and a load average of 100.00).
pub const CENTI_CAP: u32 = 10000;

/// Upper bound for an uptime in seconds (several centuries); keeps the
/// score's 128-bit arithmetic exact.
pub const UPTIME_CAP: u64 = 10000000000;

/// Mathematical model of one stored observation.  Quantities that the
/// original telemetry reports as fractional numbers are carried in
/// hundredths: percentages and load averages as value x 100, benchmark
/// ratios (seconds per unit of work) as value x 100.
pub ghost struct DbStatisticsV {
    pub blockchain_hash: Seq<char>,
    pub cpu_count: int,
    pub cpu_idle: int,
    pub cpu_interrupt: int,
    pub cpu_nice: int,
    pub cpu_system: int,
    pub cpu_usage: int,
    pub cpu_user: int,
    pub id: Seq<char>,
    pub mem_free: int,
    pub mem_usage: int,
    pub mem_total: int,
    pub mt_2_result: int,
    pub mt_4_result: int,
    pub mt_8_result: int,
    pub st_result: int,
    pub sys_load_average_fifteen: int,
    pub sys_load_average_five: int,
    pub sys_load_average_one: int,
    pub sys_uptime: int,
    pub timestamp: int,
    pub used_for_proof: bool,
}

/// The numeric fields fit the machine types an observation is stored in.
/// Every view of a `DbStatistics` satisfies this (`lemma_view_in_range`).
pub open spec fn obs_in_range(v: DbStatisticsV) -> bool {
    &&& 0 <= v.cpu_count <= u16::MAX
    &&& 0 <= v.cpu_idle <= u32::MAX
    &&& 0 <= v.cpu_interrupt <= u32::MAX
    &&& 0 <= v.cpu_nice <= u32::MAX
    &&& 0 <= v.cpu_system <= u32::MAX
    &&& 0 <= v.cpu_usage <= u32::MAX
    &&& 0 <= v.cpu_user <= u32::MAX
    &&& 0 <= v.mem_free <= u64::MAX
    &&& 0 <= v.mem_usage <= u32::MAX
    &&& 0 <= v.mem_total <= u64::MAX
    &&& 0 <= v.mt_2_result <= u32::MAX
    &&& 0 <= v.mt_4_result <= u32::MAX
    &&& 0 <= v.mt_8_result <= u32::MAX
    &&& 0 <= v.st_result <= u32::MAX
    &&& 0 <= v.sys_load_average_fifteen <= u32::MAX
    &&& 0 <= v.sys_load_average_five <= u32::MAX
    &&& 0 <= v.sys_load_average_one <= u32::MAX
    &&& 0 <= v.sys_uptime <= u64::MAX
    &&& 0 <= v.timestamp <= u64::MAX
}

/// The bounds under which scoring is exact: the scored percentages and load
/// averages are at most 100.00 and the uptime is at most `UPTIME_CAP`.
pub open spec fn obs_well_formed(v: DbStatisticsV) -> bool {
    &&& 0 <= v.cpu_usage <= CENTI_CAP
    &&& 0 <= v.mem_usage <= CENTI_CAP
    &&& 0 <= v.mt_2_result
    &&& 0 <= v.mt_4_result
    &&& 0 <= v.mt_8_result
    &&& 0 <= v.st_result
    &&& 0 <= v.sys_load_average_fifteen <= CENTI_CAP
    &&& 0 <= v.sys_load_average_five <= CENTI_CAP
    &&& 0 <= v.sys_load_average_one <= CENTI_CAP
    &&& 0 <= v.sys_uptime <= UPTIME_CAP
}

/// One stored observation: a server-stamped snapshot of one reporting
/// cycle.  Immutable after creation; the store only ever appends whole
/// values of this type.
#[derive(Clone, Debug)]
pub struct DbStatistics {
    blockchain_hash: String,
    cpu_count: u16,
    cpu_idle: u32,
    cpu_interrupt: u32,
    cpu_nice: u32,
    cpu_system: u32,
    cpu_usage: u32,
    cpu_user: u32,
    id: String,
    mem_free: u64,
    mem_usage: u32,
    mem_total: u64,
    mt_2_result: u32,
    mt_4_result: u32,
    mt_8_result: u32,
    st_result: u32,
    sys_load_average_fifteen: u32,
    sys_load_average_five: u32,
    sys_load_average_one: u32,
    sys_uptime: u64,
    timestamp: u64,
    used_for_proof: bool,
}

impl View for DbStatistics {
    type V = DbStatisticsV;

    closed spec fn view(&self) -> DbStatisticsV {
        DbStatisticsV {
            blockchain_hash: self.blockchain_hash@,
            cpu_count: self.cpu_count as int,
            cpu_idle: self.cpu_idle as int,
            cpu_interrupt: self.cpu_interrupt as int,
            cpu_nice: self.cpu_nice as int,
            cpu_system: self.cpu_system as int,
            cpu_usage: self.cpu_usage as int,
            cpu_user: self.cpu_user as int,
            id: self.id@,
            mem_free: self.mem_free as int,
            mem_usage: self.mem_usage as int,
            mem_total: self.mem_total as int,
            mt_2_result: self.mt_2_result as int,
            mt_4_result: self.mt_4_result as int,
            mt_8_result: self.mt_8_result as int,
            st_result: self.st_result as int,
            sys_load_average_fifteen: self.sys_load_average_fifteen as int,
            sys_load_average_five: self.sys_load_average_five as int,
            sys_load_average_one: self.sys_load_average_one as int,
            sys_uptime: self.sys_uptime as int,
            timestamp: self.timestamp as int,
            used_for_proof: self.used_for_proof,
        }
    }
}

impl DbStatistics {
    #[allow(clippy::too_many_arguments)]
    pub fn new(
        blockchain_hash: String,
        cpu_count: u16,
        cpu_idle: u32,
        cpu_interrupt: u32,
        cpu_nice: u32,
        cpu_system: u32,
        cpu_usage: u32,
        cpu_user: u32,
        id: String,
        mem_free: u64,
        mem_usage: u32,
        mem_total: u64,
        mt_2_result: u32,
        mt_4_result: u32,
        mt_8_result: u32,
        st_result: u32,
        sys_load_average_fifteen: u32,
        sys_load_average_five: u32,
        sys_load_average_one: u32,
        sys_uptime: u64,
        timestamp: u64,
        used_for_proof: bool,
    ) -> (r: DbStatistics)
        ensures
            r@ == (DbStatisticsV {
                blockchain_hash: blockchain_hash@,
                cpu_count: cpu_count as int,
                cpu_idle: cpu_idle as int,
                cpu_interrupt: cpu_interrupt as int,
                cpu_nice: cpu_nice as int,
                cpu_system: cpu_system as int,
                cpu_usage: cpu_usage as int,
                cpu_user: cpu_user as int,
                id: id@,
                mem_free: mem_free as int,
                mem_usage: mem_usage as int,
                mem_total: mem_total as int,
                mt_2_result: mt_2_result as int,
                mt_4_result: mt_4_result as int,
                mt_8_result: mt_8_result as int,
                st_result: st_result as int,
                sys_load_average_fifteen: sys_load_average_fifteen as int,
                sys_load_average_five: sys_load_average_five as int,
                sys_load_average_one: sys_load_average_one as int,
                sys_uptime: sys_uptime as int,
                timestamp: timestamp as int,
                used_for_proof,
            }),
    {
        DbStatistics {
            blockchain_hash,
            cpu_count,
            cpu_idle,
            cpu_interrupt,
            cpu_nice,
            cpu_system,
            cpu_usage,
            cpu_user,
            id,
            mem_free,
            mem_usage,
            mem_total,
            mt_2_result,
            mt_4_result,
            mt_8_result,
            st_result,
            sys_load_average_fifteen,
            sys_load_average_five,
            sys_load_average_one,
            sys_uptime,
            timestamp,
            used_for_proof,
        }
    }

    pub proof fn lemma_view_in_range(&self)
        ensures
            obs_in_range(self@),
    {
    }

    /// Whether the scored fields are within the bounds under which scoring
    /// is exact.
    pub fn is_well_formed(&self) -> (r: bool)
        ensures
            r == obs_well_formed(self@),
    {
        self.cpu_usage <= CENTI_CAP && self.mem_usage <= CENTI_CAP
            && self.sys_load_average_fifteen <= CENTI_CAP && self.sys_load_average_five <= CENTI_CAP
            && self.sys_load_average_one <= CENTI_CAP && self.sys_uptime <= UPTIME_CAP
    }

    pub fn blockchain_hash(&self) -> (r: &String)
        ensures
            r@ == self@.blockchain_hash,
    {
        &self.blockchain_hash
    }

    pub fn cpu_count(&self) -> (r: u16)
        ensures
            r == self@.cpu_count,
    {
        self.cpu_count
    }

    pub fn cpu_idle(&self) -> (r: u32)
        ensures
            r == self@.cpu_idle,
    {
        self.cpu_idle
    }

    pub fn cpu_interrupt(&self) -> (r: u32)
        ensures
            r == self@.cpu_interrupt,
    {
        self.cpu_interrupt
    }

    pub fn cpu_nice(&self) -> (r: u32)
        ensures
            r == self@.cpu_nice,
    {
        self.cpu_nice
    }

    pub fn cpu_system(&self) -> (r: u32)
        ensures
            r == self@.cpu_system,
    {
        self.cpu_system
    }

    pub fn cpu_usage(&self) -> (r: u32)
        ensures
            r == self@.cpu_usage,
    {
        self.cpu_usage
    }

    pub fn cpu_user(&self) -> (r: u32)
        ensures
            r == self@.cpu_user,
    {
        self.cpu_user
    }

    pub fn id(&self) -> (r: &String)
        ensures
            r@ == self@.id,
    {
        &self.id
    }

    pub fn mem_free(&self) -> (r: u64)
        ensures
            r == self@.mem_free,
    {
        self.mem_free
    }

    pub fn mem_usage(&self) -> (r: u32)
        ensures
            r == self@.mem_usage,
    {
        self.mem_usage
    }

    pub fn mem_total(&self) -> (r: u64)
        ensures
            r == self@.mem_total,
    {
        self.mem_total
    }

    pub fn mt_2_result(&self) -> (r: u32)
        ensures
            r == self@.mt_2_result,
    {
        self.mt_2_result
    }

    pub fn mt_4_result(&self) -> (r: u32)
        ensures
            r == self@.mt_4_result,
    {
        self.mt_4_result
    }

    pub fn mt_8_result(&self) -> (r: u32)
        ensures
            r == self@.mt_8_result,
    {
        self.mt_8_result
    }

    pub fn st_result(&self) -> (r: u32)
        ensures
            r == self@.st_result,
    {
        self.st_result
    }

    pub fn sys_load_average_fifteen(&self) -> (r: u32)
        ensures
            r == self@.sys_load_average_fifteen,
    {
        self.sys_load_average_fifteen
    }

    pub fn sys_load_average_five(&self) -> (r: u32)
        ensures
            r == self@.sys_load_average_five,
    {
        self.sys_load_average_five
    }

    pub fn sys_load_average_one(&self) -> (r: u32)
        ensures
            r == self@.sys_load_average_one,
    {
        self.sys_load_average_one
    }

    pub fn sys_uptime(&self) -> (r: u64)
        ensures
            r == self@.sys_uptime,
    {
        self.sys_uptime
    }

    pub fn timestamp(&self) -> (r: u64)
        ensures
            r == self@.timestamp,
    {
        self.timestamp
    }

    pub fn used_for_proof(&self) -> (r: bool)
        ensures
            r == self@.used_for_proof,
    {
        self.used_for_proof
    }
}

} // verus!
