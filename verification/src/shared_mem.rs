//! The three shared-memory page layouts the kernel exposes to userspace, and
//! the lock-free clock conversion that turns the hardware cycle counter into
//! a wall-clock timestamp.
//!
//! Each page is written by the kernel and read by user code at memory-read
//! cost; no operation here blocks or crosses the privilege boundary. The
//! counters and the per-thread CPU index live in single machine words so a
//! concurrent reader sees either the old or the new value of a word, never a
//! torn one; fields owned by one side are never written by the other.

use vstd::prelude::*;
use vstd::arithmetic::power2::{
    pow2,
    lemma_pow2_pos,
    lemma_pow2_adds,
    lemma_pow2_strictly_increases,
    lemma2_to64,
    lemma2_to64_rest,
};
use vstd::arithmetic::div_mod::{lemma_basic_div, lemma_div_is_ordered};
use vstd::bits::{lemma_u64_shl_is_mul, lemma_u128_shr_is_div};

verus! {

/// Start of the address region (1 TiB wide) that the kernel never allocates
/// from, left to userspace for its own fixed mappings.
pub const CUSTOM_USERSPACE_REGION_START: u64 = 0x210000000000;

/// End of the userspace-owned address region.
pub const CUSTOM_USERSPACE_REGION_END: u64 = 0x220000000000;

/// The elapsed-nanoseconds value that the fixed-point clock parameters assign
/// to `delta` elapsed cycles: multiply by `mul`, then shift by `shift`
/// (a negative `shift` divides, a non-negative one multiplies).
pub open spec fn scaled_elapsed(shift: i8, mul: u32, delta: int) -> int {
    if shift >= 0 {
        delta * mul * pow2(shift as nat)
    } else {
        (delta * mul) / (pow2((-(shift as int)) as nat) as int)
    }
}

/// The global static page the kernel populates once at boot and refreshes on
/// clock recalibration; mapped read-only at a fixed address in every process.
pub struct KernelStaticPage {
    /// Layout version stamped by the kernel.
    pub version: u64,
    /// Binary exponent of the cycle-counter scale: the product of elapsed
    /// cycles and `tsc_mul` is shifted left by this amount, or right when it
    /// is negative.
    pub tsc_shift: i8,
    /// Fixed-point multiplier applied to elapsed cycles.
    pub tsc_mul: u32,
    /// Cycle-counter ticks per second, as calibrated.
    pub tsc_in_sec: u64,
    /// Reference cycle-counter reading for the conversion formula.
    pub tsc_ts: u64,
    /// Elapsed nanoseconds the kernel had accumulated at `tsc_ts`.
    pub system_time: u64,
    /// Wall-clock base in nanoseconds, added on top of `system_time`.
    pub base_nsec: u64,
    /// Cycle-counter reading the kernel recorded at system start.
    pub system_start_time_tsc: u64,
    /// Number of processors in the system.
    pub num_cpus: u32,
}

impl KernelStaticPage {
    /// Size of the hardware page the structure must fit in.
    pub const PAGE_SIZE: u64 = 4096;

    /// The fixed virtual address the kernel maps this page at.
    pub const VADDR: u64 = 0x3F7FFFE00000;

    /// The absolute wall-clock nanosecond value that this page's parameters
    /// assign to the cycle-counter reading `cycles`.
    pub open spec fn wall_clock_at(&self, cycles: u64) -> int {
        scaled_elapsed(self.tsc_shift, self.tsc_mul, cycles - self.tsc_ts) + self.system_time
            + self.base_nsec
    }

    /// Converts a raw cycle-counter reading into an absolute wall-clock
    /// nanosecond value, without a lock or a syscall: scale the elapsed
    /// cycles by the calibrated fixed-point factor, then add the kernel's
    /// reference time and the wall-clock base.
    pub fn cycles_to_nanoseconds(&self, cycles: u64) -> (r: u64)
        requires
            cycles >= self.tsc_ts,
            self.wall_clock_at(cycles) <= u64::MAX,
        ensures
            r == self.wall_clock_at(cycles),
    {
        let delta: u64 = cycles - self.tsc_ts;
        proof {
            assert(delta as int * self.tsc_mul as int <= u64::MAX as int * u32::MAX as int)
                by (nonlinear_arith)
                requires
                    delta <= u64::MAX && self.tsc_mul <= u32::MAX,
            ;
        }
        let prod: u128 = (delta as u128) * (self.tsc_mul as u128);
        let ghost spec_e = scaled_elapsed(self.tsc_shift, self.tsc_mul, delta as int);
        let elapsed: u64;
        if self.tsc_shift >= 0 {
            let sh: u64 = self.tsc_shift as u64;
            proof {
                assert(sh as nat == self.tsc_shift as nat);
                lemma_pow2_pos(sh as nat);
                assert(spec_e == (delta as int * self.tsc_mul as int) * (pow2(sh as nat) as int));
                assert(prod * 1 <= prod * pow2(sh as nat)) by (nonlinear_arith)
                    requires
                        prod >= 0 && 1 <= pow2(sh as nat),
                ;
            }
            let p: u64 = prod as u64;
            if p == 0 {
                elapsed = 0;
                proof {
                    assert(spec_e == (0int) * (pow2(sh as nat) as int));
                    assert((0int) * (pow2(sh as nat) as int) == 0) by (nonlinear_arith);
                }
            } else {
                proof {
                    if sh >= 64 {
                        lemma2_to64();
                        lemma2_to64_rest();
                        if sh > 64 {
                            lemma_pow2_strictly_increases(64, sh as nat);
                        }
                        assert(p * pow2(sh as nat) >= 1 * pow2(sh as nat)) by (nonlinear_arith)
                            requires
                                p >= 1 && pow2(sh as nat) >= 0,
                        ;
                        assert(false);
                    }
                    lemma_u64_shl_is_mul(p, sh);
                }
                elapsed = p << sh;
                proof {
                    assert(elapsed == spec_e);
                }
            }
        } else {
            let k: u32 = (-(self.tsc_shift as i32)) as u32;
            proof {
                assert(k as nat == (-(self.tsc_shift as int)) as nat);
                lemma2_to64();
                lemma2_to64_rest();
                lemma_pow2_adds(64, 32);
                assert((u64::MAX as int * u32::MAX as int) < pow2(96));
                assert(spec_e == (delta as int * self.tsc_mul as int) / (pow2(k as nat) as int));
            }
            if k >= 128 {
                elapsed = 0;
                proof {
                    lemma_pow2_adds(96, 32);
                    assert(pow2(96) * 1 <= pow2(96) * pow2(32)) by (nonlinear_arith)
                        requires
                            pow2(96) >= 0 && 1 <= pow2(32),
                    ;
                    lemma_basic_div(prod as int, pow2(128) as int);
                    assert(spec_e == 0);
                }
            } else {
                proof {
                    lemma_u128_shr_is_div(prod, k as u128);
                    lemma_pow2_pos(k as nat);
                }
                elapsed = (prod >> (k as u128)) as u64;
                proof {
                    assert(elapsed == spec_e);
                }
            }
        }
        elapsed + self.system_time + self.base_nsec
    }
}

/// At the reference cycle-counter reading no cycles have elapsed, so the
/// conversion yields exactly the kernel's reference time plus the wall-clock
/// base.
pub proof fn lemma_clock_at_reference(page: &KernelStaticPage)
    ensures
        page.wall_clock_at(page.tsc_ts) == page.system_time + page.base_nsec,
{
    assert((0int) * (page.tsc_mul as int) == 0) by (nonlinear_arith);
    if page.tsc_shift >= 0 {
        assert((0int) * (pow2(page.tsc_shift as nat) as int) == 0) by (nonlinear_arith);
    } else {
        lemma_pow2_pos((-(page.tsc_shift as int)) as nat);
        lemma_basic_div(0, pow2((-(page.tsc_shift as int)) as nat) as int);
    }
}

/// For fixed clock parameters the conversion is monotone: a later
/// cycle-counter reading never maps to an earlier wall-clock value.
pub proof fn lemma_clock_monotonic(page: &KernelStaticPage, c1: u64, c2: u64)
    requires
        page.tsc_ts <= c1 <= c2,
    ensures
        page.wall_clock_at(c1) <= page.wall_clock_at(c2),
{
    let d1 = c1 - page.tsc_ts;
    let d2 = c2 - page.tsc_ts;
    let m = page.tsc_mul as int;
    assert(d1 * m <= d2 * m) by (nonlinear_arith)
        requires
            d1 <= d2 && m >= 0,
    ;
    if page.tsc_shift >= 0 {
        let p = pow2(page.tsc_shift as nat) as int;
        assert(d1 * m * p <= d2 * m * p) by (nonlinear_arith)
            requires
                d1 * m <= d2 * m && p >= 0,
        ;
    } else {
        let p = pow2((-(page.tsc_shift as int)) as nat) as int;
        lemma_pow2_pos((-(page.tsc_shift as int)) as nat);
        lemma_div_is_ordered(d1 * m, d2 * m, p);
    }
}

/// The per-process page: capability bits fixed at creation, plus live memory
/// accounting in three independently written machine words.
pub struct ProcessStaticPage {
    /// Layout version stamped by the kernel.
    pub version: u64,
    /// Capability bitmask granted at process creation; never changes.
    pub capabilities: u64,
    /// Memory ceiling of the process; immutable after creation.
    pub max_memory: u64,
    /// Bytes the kernel has attributed to this process for kernel needs.
    pub kernel_memory_used: u64,
    /// Bytes the process itself has in use.
    pub user_memory_used: u64,
}

impl ProcessStaticPage {
    /// Size of the hardware page the structure must fit in.
    pub const PAGE_SIZE: u64 = 4096;

    /// The fixed virtual address the page is mapped at: two mid-size (2 MiB)
    /// pages below the top of the lower canonical address half.
    pub const VADDR: u64 = 0x3FFFFFC00000;

    /// The page as the kernel sets it up at process creation: both usage
    /// counters start at zero.
    pub fn new(version: u64, capabilities: u64, max_memory: u64) -> (r: Self)
        ensures
            r.version == version,
            r.capabilities == capabilities,
            r.max_memory == max_memory,
            r.kernel_memory_used == 0,
            r.user_memory_used == 0,
    {
        ProcessStaticPage {
            version,
            capabilities,
            max_memory,
            kernel_memory_used: 0,
            user_memory_used: 0,
        }
    }

    /// True when every capability bit of `cap` is granted to the process.
    pub fn has_capability(&self, cap: u64) -> (r: bool)
        ensures
            r == (self.capabilities & cap == cap),
    {
        self.capabilities & cap == cap
    }

    /// Kernel-side accounting update of the kernel-attributed counter. The
    /// write touches that one word alone: every other field reads back
    /// unchanged, so a concurrent reader of another counter is unaffected.
    pub fn set_kernel_memory_used(&mut self, bytes: u64)
        ensures
            final(self).kernel_memory_used == bytes,
            final(self).version == old(self).version,
            final(self).capabilities == old(self).capabilities,
            final(self).max_memory == old(self).max_memory,
            final(self).user_memory_used == old(self).user_memory_used,
    {
        self.kernel_memory_used = bytes;
    }

    /// Kernel-side accounting update of the user-attributed counter; touches
    /// that one word alone.
    pub fn set_user_memory_used(&mut self, bytes: u64)
        ensures
            final(self).user_memory_used == bytes,
            final(self).version == old(self).version,
            final(self).capabilities == old(self).capabilities,
            final(self).max_memory == old(self).max_memory,
            final(self).kernel_memory_used == old(self).kernel_memory_used,
    {
        self.user_memory_used = bytes;
    }
}

/// The friendly thread id derived from a raw kernel handle: far away from
/// small human-meaningful numbers, so a recycled handle is not mistaken for
/// an id from another space.
pub open spec fn friendly_id(handle: u64) -> u64 {
    (u64::MAX - handle) as u64
}

/// The derivation is injective: two distinct live handles never share a
/// friendly id, and the id is exactly the distance of the handle from the
/// largest 64-bit value.
pub proof fn lemma_friendly_id_injective(h1: u64, h2: u64)
    ensures
        friendly_id(h1) == u64::MAX - h1,
        friendly_id(h1) == friendly_id(h2) ==> h1 == h2,
{
}

/// The per-thread control block, placed near the top of the thread's stack
/// and reached through a processor segment-base register. The kernel writes
/// its own fields; `tls` and `user_version` belong to the owning thread.
pub struct UserThreadControlBlock {
    /// Kernel bookkeeping; opaque to userspace.
    pub guard: u64,
    /// The layout version the kernel implements, stamped by the kernel.
    pub kernel_version: u32,
    /// The layout version this userspace build understands, stamped by it.
    pub user_version: u32,
    /// Raw kernel handle of the thread; may be reused after the thread exits.
    pub self_handle: u64,
    /// Thread-local-storage pointer, owned and written by userspace alone.
    pub tls: usize,
    /// Index of the processor the thread last ran on; kernel-written on
    /// every migration.
    pub current_cpu: u32,
    /// Reserved for future layout versions.
    pub reserved0: u32,
}

impl UserThreadControlBlock {
    /// The user-friendly thread id of this thread.
    pub fn __utid(&self) -> (r: u64)
        ensures
            r == friendly_id(self.self_handle),
            r == u64::MAX - self.self_handle,
    {
        u64::MAX - self.self_handle
    }

    /// Userspace's plain store to its own TLS word; no other field moves.
    pub fn set_tls(&mut self, tls: usize)
        ensures
            final(self).tls == tls,
            final(self).guard == old(self).guard,
            final(self).kernel_version == old(self).kernel_version,
            final(self).user_version == old(self).user_version,
            final(self).self_handle == old(self).self_handle,
            final(self).current_cpu == old(self).current_cpu,
            final(self).reserved0 == old(self).reserved0,
    {
        self.tls = tls;
    }

    /// Userspace's one-way announcement of the layout version it
    /// understands; no other field moves.
    pub fn set_user_version(&mut self, version: u32)
        ensures
            final(self).user_version == version,
            final(self).guard == old(self).guard,
            final(self).kernel_version == old(self).kernel_version,
            final(self).self_handle == old(self).self_handle,
            final(self).tls == old(self).tls,
            final(self).current_cpu == old(self).current_cpu,
            final(self).reserved0 == old(self).reserved0,
    {
        self.user_version = version;
    }
}

/// The friendly id of the calling thread, read from its control block.
pub fn __utid(tcb: &UserThreadControlBlock) -> (r: u64)
    ensures
        r == friendly_id(tcb.self_handle),
{
    tcb.__utid()
}

/// The processor the calling thread last ran on, read from its control
/// block.
pub fn current_cpu(tcb: &UserThreadControlBlock) -> (r: u32)
    ensures
        r == tcb.current_cpu,
{
    tcb.current_cpu
}

/// The number of processors, read from the kernel static page.
pub fn num_cpus(page: &KernelStaticPage) -> (r: u32)
    ensures
        r == page.num_cpus,
{
    page.num_cpus
}

} // verus!
