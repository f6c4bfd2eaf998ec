//! Resource-usage sampling: the OS-counter handle and the percentage rules.

use vstd::prelude::*;

verus! {

/// The usage percentage shown for a counter pair: zero when the total is
/// zero (a missing counter reads as no usage, never as an error), the
/// whole-number percentage otherwise, capped at one hundred.
pub open spec fn percent_spec(used: int, total: int) -> int {
    if total == 0 {
        0
    } else if used >= total {
        100
    } else {
        (used * 100) / total
    }
}

/// A raw per-core reading capped at one hundred percent.
pub open spec fn clamp_percent_spec(v: int) -> int {
    if v > 100 {
        100
    } else {
        v
    }
}

/// Law: for any non-negative used count at most the total, the usage
/// percentage lies between zero and one hundred, and a zero total yields
/// exactly zero.
pub proof fn lemma_percent_bounds(used: int, total: int)
    requires
        0 <= used <= total,
    ensures
        0 <= percent_spec(used, total) <= 100,
        total == 0 ==> percent_spec(used, total) == 0,
{
    if total != 0 && used < total {
        assert(0 <= used * 100) by (nonlinear_arith)
            requires 0 <= used;
        assert(used * 100 < total * 100) by (nonlinear_arith)
            requires used < total;
        vstd::arithmetic::div_mod::lemma_multiply_divide_lt(used * 100, total, 100);
        vstd::arithmetic::div_mod::lemma_div_is_ordered(0, used * 100, total);
    }
}

/// Computes the usage percentage of a counter pair, guarded against a
/// zero total.
pub fn usage_percent(used: u64, total: u64) -> (r: u8)
    ensures
        r as int == percent_spec(used as int, total as int),
        r <= 100,
{
    if total == 0 {
        0
    } else if used >= total {
        100
    } else {
        let q: u128 = (used as u128) * 100 / (total as u128);
        proof {
            lemma_percent_bounds(used as int, total as int);
        }
        q as u8
    }
}

/// Caps a raw per-core reading at one hundred percent.
pub fn clamp_percent(v: u64) -> (r: u8)
    ensures
        r as int == clamp_percent_spec(v as int),
        r <= 100,
{
    if v > 100 {
        100
    } else {
        v as u8
    }
}

/// One display-ready resource sample: a percentage per logical core and
/// the memory and swap percentages.
pub struct UsageSample {
    pub per_core: Vec<u8>,
    pub memory_percent: u8,
    pub swap_percent: u8,
}

/// The mathematical value of a [`UsageSample`].
#[verifier::ext_equal]
pub struct UsageSampleView {
    pub per_core: Seq<int>,
    pub memory_percent: int,
    pub swap_percent: int,
}

impl View for UsageSample {
    type V = UsageSampleView;

    open spec fn view(&self) -> UsageSampleView {
        UsageSampleView {
            per_core: self.per_core@.map(|i: int, v: u8| v as int),
            memory_percent: self.memory_percent as int,
            swap_percent: self.swap_percent as int,
        }
    }
}

impl UsageSample {
    /// Every percentage lies between zero and one hundred.
    pub open spec fn wf(&self) -> bool {
        &&& forall|i: int| 0 <= i < self.per_core@.len() ==> self.per_core@[i] <= 100
        &&& self.memory_percent <= 100
        &&& self.swap_percent <= 100
    }
}

/// The one usage sample a given set of raw counter readings derives to.
pub open spec fn usage_sample_of(
    per_core_raw: Seq<u64>,
    used_mem: int,
    total_mem: int,
    used_swap: int,
    total_swap: int,
) -> UsageSampleView {
    UsageSampleView {
        per_core: per_core_raw.map(|i: int, v: u64| clamp_percent_spec(v as int)),
        memory_percent: percent_spec(used_mem, total_mem),
        swap_percent: percent_spec(used_swap, total_swap),
    }
}

/// Derives the display-ready usage sample from raw counter readings: one
/// capped percentage per core, in the given order, and the guarded
/// memory and swap percentages.
pub fn derive_usage(
    per_core_raw: &Vec<u64>,
    used_mem: u64,
    total_mem: u64,
    used_swap: u64,
    total_swap: u64,
) -> (s: UsageSample)
    ensures
        s@ == usage_sample_of(
            per_core_raw@,
            used_mem as int,
            total_mem as int,
            used_swap as int,
            total_swap as int,
        ),
        s.wf(),
        s.per_core@.len() == per_core_raw@.len(),
{
    let mut per_core: Vec<u8> = Vec::new();
    let mut i: usize = 0;
    while i < per_core_raw.len()
        invariant
            i <= per_core_raw@.len(),
            per_core@.len() == i,
            forall|j: int|
                0 <= j < i ==> per_core@[j] as int == clamp_percent_spec(per_core_raw@[j] as int),
        decreases per_core_raw@.len() - i,
    {
        per_core.push(clamp_percent(per_core_raw[i]));
        i += 1;
    }
    let s = UsageSample {
        per_core,
        memory_percent: usage_percent(used_mem, total_mem),
        swap_percent: usage_percent(used_swap, total_swap),
    };
    proof {
        let expected = usage_sample_of(
            per_core_raw@,
            used_mem as int,
            total_mem as int,
            used_swap as int,
            total_swap as int,
        );
        assert(s@.per_core =~= expected.per_core);
        assert(s@ =~= expected);
        assert forall|k: int| 0 <= k < s.per_core@.len() implies s.per_core@[k] <= 100 by {
            assert(s.per_core@[k] as int == clamp_percent_spec(per_core_raw@[k] as int));
        }
    }
    s
}

#[verifier::external_type_specification]
#[verifier::external_body]
pub struct ExSystem(sysinfo::System);

/// The raw per-core usage values the handle's CPU list holds, in the
/// OS-reported order, each truncated to a whole percentage: a pure
/// projection of the handle value.
pub uninterp spec fn cpu_usages_of(s: sysinfo::System) -> Seq<u64>;

/// The number of logical cores the handle's CPU list holds.
pub open spec fn cpu_count_of(s: sysinfo::System) -> nat {
    cpu_usages_of(s).len()
}

/// The used-RAM counter the handle holds, in bytes.
pub uninterp spec fn used_memory_of(s: sysinfo::System) -> u64;

/// The RAM-size counter the handle holds, in bytes.
pub uninterp spec fn total_memory_of(s: sysinfo::System) -> u64;

/// The used-swap counter the handle holds, in bytes.
pub uninterp spec fn used_swap_of(s: sysinfo::System) -> u64;

/// The swap-size counter the handle holds, in bytes.
pub uninterp spec fn total_swap_of(s: sysinfo::System) -> u64;

/// Creates the long-lived OS-counter handle, with CPU-usage tracking and
/// full memory and swap tracking enabled and refreshed once.
///
/// Relies on sysinfo::System::new_with_specifics, handed a
/// sysinfo::RefreshKind that enables CPU usage and every memory counter.
#[verifier::external_body]
fn new_system() -> sysinfo::System {
    sysinfo::System::new_with_specifics(
        sysinfo::RefreshKind::nothing().with_cpu(
            sysinfo::CpuRefreshKind::nothing().with_cpu_usage(),
        ).with_memory(sysinfo::MemoryRefreshKind::everything()),
    )
}

/// Relies on sysinfo::System::refresh_cpu_usage: on a non-empty CPU list
/// it re-reads the usage of the CPUs already listed, in place, and
/// neither adds nor removes entries (only refresh_cpu_list changes the
/// list); on a list still empty it may fill the list from scratch.
#[verifier::external_body]
fn refresh_cpu(sys: &mut sysinfo::System)
    ensures
        cpu_count_of(*old(sys)) == 0 || cpu_count_of(*final(sys)) == cpu_count_of(*old(sys)),
{
    sys.refresh_cpu_usage();
}

/// Relies on sysinfo::System::cpus and sysinfo::Cpu::cpu_usage: one raw
/// usage value per listed CPU, in the OS-reported order, each the stored
/// percentage truncated to a whole number.
#[verifier::external_body]
fn cpu_usages(sys: &sysinfo::System) -> (r: Vec<u64>)
    ensures
        r@ == cpu_usages_of(*sys),
{
    sys.cpus().iter().map(|cpu| cpu.cpu_usage() as u64).collect()
}

/// Relies on sysinfo::System::used_memory: the used RAM in bytes as last
/// refreshed, zero where the counter was never read.
#[verifier::external_body]
fn read_used_memory(sys: &sysinfo::System) -> (r: u64)
    ensures
        r == used_memory_of(*sys),
{
    sys.used_memory()
}

/// Relies on sysinfo::System::total_memory: the RAM size in bytes as last
/// refreshed, zero where the counter was never read.
#[verifier::external_body]
fn read_total_memory(sys: &sysinfo::System) -> (r: u64)
    ensures
        r == total_memory_of(*sys),
{
    sys.total_memory()
}

/// Relies on sysinfo::System::used_swap: the used swap in bytes as last
/// refreshed, zero where the counter was never read.
#[verifier::external_body]
fn read_used_swap(sys: &sysinfo::System) -> (r: u64)
    ensures
        r == used_swap_of(*sys),
{
    sys.used_swap()
}

/// Relies on sysinfo::System::total_swap: the swap size in bytes as last
/// refreshed, zero where the counter was never read.
#[verifier::external_body]
fn read_total_swap(sys: &sysinfo::System) -> (r: u64)
    ensures
        r == total_swap_of(*sys),
{
    sys.total_swap()
}

/// The stateful probe around the OS-counter handle: created once at
/// startup, refreshed in place on every tick, and read as percentages.
pub struct SystemProbe {
    sys: sysinfo::System,
    cores: usize,
}

impl SystemProbe {
    /// The number of logical cores the probe reports on; fixed for the
    /// probe's lifetime.
    pub closed spec fn core_count(&self) -> nat {
        self.cores as nat
    }

    /// The recorded core count matches the handle's CPU list.
    pub closed spec fn wf(&self) -> bool {
        cpu_count_of(self.sys) == self.cores as nat
    }

    /// The display sample the handle's current counters project to:
    /// reading the probe is a pure projection of its value.
    pub closed spec fn usage_view(&self) -> UsageSampleView {
        usage_sample_of(
            cpu_usages_of(self.sys),
            used_memory_of(self.sys) as int,
            total_memory_of(self.sys) as int,
            used_swap_of(self.sys) as int,
            total_swap_of(self.sys) as int,
        )
    }

    /// Initializes the OS-counter handle and records its core count.
    pub fn new() -> (p: SystemProbe)
        ensures
            p.wf(),
    {
        let sys = new_system();
        let cores = cpu_usages(&sys).len();
        SystemProbe { sys, cores }
    }

    /// Pulls fresh CPU counters into the handle; the core count is
    /// unchanged. A probe that recorded no cores skips the pull: on an
    /// empty CPU list a refresh could fill the list and break the
    /// recorded count.
    pub fn refresh(&mut self)
        requires
            old(self).wf(),
        ensures
            final(self).wf(),
            final(self).core_count() == old(self).core_count(),
    {
        if self.cores > 0 {
            refresh_cpu(&mut self.sys);
        }
    }

    /// Projects the handle's current counters into one display-ready
    /// sample, with one entry per logical core: a pure projection of the
    /// probe's value.
    pub fn read(&self) -> (s: UsageSample)
        requires
            self.wf(),
        ensures
            s.wf(),
            s.per_core@.len() == self.core_count(),
            s@ == self.usage_view(),
    {
        let raw = cpu_usages(&self.sys);
        derive_usage(
            &raw,
            read_used_memory(&self.sys),
            read_total_memory(&self.sys),
            read_used_swap(&self.sys),
            read_total_swap(&self.sys),
        )
    }
}

} // verus!
