use vstd::prelude::*;

verus! {

/// Mathematical model of `ClientStatistics`.
pub ghost struct ClientStatisticsV {
    pub cpu_count: int,
    pub cpu_idle: int,
    pub cpu_interrupt: int,
    pub cpu_nice: int,
    pub cpu_system: int,
    pub cpu_user: int,
    pub mem_free: int,
    pub mem_usage: int,
    pub mem_total: int,
    pub sys_load_average_fifteen: int,
    pub sys_load_average_five: int,
    pub sys_load_average_one: int,
    pub sys_uptime: int,
}

/// One sample of local machine telemetry, as a reporting node gathers it.
/// Percentages and load averages are in hundredths; sampling the operating
/// system is the binary's job, the library carries the values.
#[derive(Clone, Copy, Debug)]
pub struct ClientStatistics {
    cpu_count: u16,
    cpu_idle: u32,
    cpu_interrupt: u32,
    cpu_nice: u32,
    cpu_system: u32,
    cpu_user: u32,
    mem_free: u64,
    mem_usage: u32,
    mem_total: u64,
    sys_load_average_fifteen: u32,
    sys_load_average_five: u32,
    sys_load_average_one: u32,
    sys_uptime: u64,
}

impl View for ClientStatistics {
    type V = ClientStatisticsV;

    closed spec fn view(&self) -> ClientStatisticsV {
        ClientStatisticsV {
            cpu_count: self.cpu_count as int,
            cpu_idle: self.cpu_idle as int,
            cpu_interrupt: self.cpu_interrupt as int,
            cpu_nice: self.cpu_nice as int,
            cpu_system: self.cpu_system as int,
            cpu_user: self.cpu_user as int,
            mem_free: self.mem_free as int,
            mem_usage: self.mem_usage as int,
            mem_total: self.mem_total as int,
            sys_load_average_fifteen: self.sys_load_average_fifteen as int,
            sys_load_average_five: self.sys_load_average_five as int,
            sys_load_average_one: self.sys_load_average_one as int,
            sys_uptime: self.sys_uptime as int,
        }
    }
}

impl ClientStatistics {
    #[allow(clippy::too_many_arguments)]
    pub fn new(
        cpu_count: u16,
        cpu_idle: u32,
        cpu_interrupt: u32,
        cpu_nice: u32,
        cpu_system: u32,
        cpu_user: u32,
        mem_free: u64,
        mem_usage: u32,
        mem_total: u64,
        sys_load_average_fifteen: u32,
        sys_load_average_five: u32,
        sys_load_average_one: u32,
        sys_uptime: u64,
    ) -> (r: ClientStatistics)
        ensures
            r@ == (ClientStatisticsV {
                cpu_count: cpu_count as int,
                cpu_idle: cpu_idle as int,
                cpu_interrupt: cpu_interrupt as int,
                cpu_nice: cpu_nice as int,
                cpu_system: cpu_system as int,
                cpu_user: cpu_user as int,
                mem_free: mem_free as int,
                mem_usage: mem_usage as int,
                mem_total: mem_total as int,
                sys_load_average_fifteen: sys_load_average_fifteen as int,
                sys_load_average_five: sys_load_average_five as int,
                sys_load_average_one: sys_load_average_one as int,
                sys_uptime: sys_uptime as int,
            }),
    {
        ClientStatistics {
            cpu_count,
            cpu_idle,
            cpu_interrupt,
            cpu_nice,
            cpu_system,
            cpu_user,
            mem_free,
            mem_usage,
            mem_total,
            sys_load_average_fifteen,
            sys_load_average_five,
            sys_load_average_one,
            sys_uptime,
        }
    }

    pub fn cpu_count(&self) -> (r: u16)
        ensures
            r == self@.cpu_count,
    {
        self.cpu_count
    }

    pub fn cpu_idle(&self) -> (r: u32)
        ensures
            r == self@.cpu_idle,
    {
        self.cpu_idle
    }

    pub fn cpu_interrupt(&self) -> (r: u32)
        ensures
            r == self@.cpu_interrupt,
    {
        self.cpu_interrupt
    }

    pub fn cpu_nice(&self) -> (r: u32)
        ensures
            r == self@.cpu_nice,
    {
        self.cpu_nice
    }

    pub fn cpu_system(&self) -> (r: u32)
        ensures
            r == self@.cpu_system,
    {
        self.cpu_system
    }

    pub fn cpu_user(&self) -> (r: u32)
        ensures
            r == self@.cpu_user,
    {
        self.cpu_user
    }

    pub fn mem_free(&self) -> (r: u64)
        ensures
            r == self@.mem_free,
    {
        self.mem_free
    }

    pub fn mem_usage(&self) -> (r: u32)
        ensures
            r == self@.mem_usage,
    {
        self.mem_usage
    }

    pub fn mem_total(&self) -> (r: u64)
        ensures
            r == self@.mem_total,
    {
        self.mem_total
    }

    pub fn sys_load_average_fifteen(&self) -> (r: u32)
        ensures
            r == self@.sys_load_average_fifteen,
    {
        self.sys_load_average_fifteen
    }

    pub fn sys_load_average_five(&self) -> (r: u32)
        ensures
            r == self@.sys_load_average_five,
    {
        self.sys_load_average_five
    }

    pub fn sys_load_average_one(&self) -> (r: u32)
        ensures
            r == self@.sys_load_average_one,
    {
        self.sys_load_average_one
    }

    pub fn sys_uptime(&self) -> (r: u64)
        ensures
            r == self@.sys_uptime,
    {
        self.sys_uptime
    }
}

} // verus!
