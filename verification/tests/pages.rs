use sys_abi::KernelStaticPage;
use sys_abi::ProcessStaticPage;
use sys_abi::UserThreadControlBlock;
use sys_abi::__utid;
use sys_abi::current_cpu;
use sys_abi::num_cpus;

fn page_with_clock(tsc_shift: i8, tsc_mul: u32, tsc_ts: u64, system_time: u64, base_nsec: u64) -> KernelStaticPage {
    KernelStaticPage {
        version: 1,
        tsc_shift,
        tsc_mul,
        tsc_in_sec: 1_000_000_000,
        tsc_ts,
        system_time,
        base_nsec,
        system_start_time_tsc: 0,
        num_cpus: 4,
    }
}

#[test]
fn structures_fit_in_one_hardware_page() {
    assert!(core::mem::size_of::<KernelStaticPage>() <= 4096);
    assert!(core::mem::size_of::<ProcessStaticPage>() <= 4096);
    assert!(core::mem::size_of::<UserThreadControlBlock>() <= 4096);
}

#[test]
fn zero_elapsed_cycles_yield_the_reference_time() {
    let p = page_with_clock(0, 1, 100, 200, 300);
    assert_eq!(p.cycles_to_nanoseconds(100), 500);
    let q = page_with_clock(-5, 1000, 77, 1_000, 24);
    assert_eq!(q.cycles_to_nanoseconds(77), 1_024);
}

#[test]
fn positive_shift_multiplies() {
    // 10 elapsed cycles * 5, shifted left by 3: 400 ns elapsed.
    let p = page_with_clock(3, 5, 1_000, 1_000, 24);
    assert_eq!(p.cycles_to_nanoseconds(1_010), 1_424);
}

#[test]
fn negative_shift_divides() {
    // 10 elapsed cycles * 3, shifted right by 2: 30 / 4 = 7 ns elapsed.
    let p = page_with_clock(-2, 3, 0, 100, 1);
    assert_eq!(p.cycles_to_nanoseconds(10), 108);
}

#[test]
fn conversion_is_monotone_in_the_cycle_counter() {
    let p = page_with_clock(-3, 7, 50, 900, 11);
    let mut last = p.cycles_to_nanoseconds(50);
    for c in 51..300u64 {
        let t = p.cycles_to_nanoseconds(c);
        assert!(t >= last);
        last = t;
    }
}

#[test]
fn process_page_accounting_scenario() {
    let mut page = ProcessStaticPage::new(1, 0b101, 1_000_000);
    assert_eq!(page.max_memory, 1_000_000);
    assert_eq!(page.kernel_memory_used, 0);
    assert_eq!(page.user_memory_used, 0);

    page.set_user_memory_used(500_000);
    assert_eq!(page.user_memory_used, 500_000);
    // The update touched one counter word alone.
    assert_eq!(page.kernel_memory_used, 0);
    assert_eq!(page.max_memory, 1_000_000);
    assert_eq!(page.version, 1);
    assert_eq!(page.capabilities, 0b101);
}

#[test]
fn capability_bits_gate_access() {
    let page = ProcessStaticPage::new(1, 0b101, 0);
    assert!(page.has_capability(0b001));
    assert!(page.has_capability(0b100));
    assert!(page.has_capability(0b101));
    assert!(!page.has_capability(0b010));
    assert!(!page.has_capability(0b111));
}

#[test]
fn friendly_thread_id_is_the_handle_complement() {
    let mut tcb = UserThreadControlBlock {
        guard: 0,
        kernel_version: 1,
        user_version: 1,
        self_handle: 7,
        tls: 0,
        current_cpu: 2,
        reserved0: 0,
    };
    assert_eq!(tcb.__utid(), u64::MAX - 7);
    assert_eq!(__utid(&tcb), u64::MAX - 7);
    tcb.self_handle = 0;
    assert_eq!(tcb.__utid(), u64::MAX);
    tcb.self_handle = u64::MAX;
    assert_eq!(tcb.__utid(), 0);
}

#[test]
fn friendly_thread_ids_of_distinct_handles_differ() {
    let handles = [0u64, 1, 2, 7, 1 << 32, u64::MAX - 1, u64::MAX];
    for (i, a) in handles.iter().enumerate() {
        for (j, b) in handles.iter().enumerate() {
            assert_eq!(i == j, u64::MAX - a == u64::MAX - b);
        }
    }
}

#[test]
fn thread_owned_writes_touch_one_field() {
    let mut tcb = UserThreadControlBlock {
        guard: 9,
        kernel_version: 3,
        user_version: 1,
        self_handle: 42,
        tls: 0,
        current_cpu: 1,
        reserved0: 0,
    };
    tcb.set_tls(0xdead_0000);
    assert_eq!(tcb.tls, 0xdead_0000);
    tcb.set_user_version(2);
    assert_eq!(tcb.user_version, 2);
    assert_eq!(tcb.guard, 9);
    assert_eq!(tcb.kernel_version, 3);
    assert_eq!(tcb.self_handle, 42);
    assert_eq!(tcb.current_cpu, 1);
}

#[test]
fn cpu_accessors_read_the_pages() {
    let tcb = UserThreadControlBlock {
        guard: 0,
        kernel_version: 1,
        user_version: 1,
        self_handle: 1,
        tls: 0,
        current_cpu: 3,
        reserved0: 0,
    };
    assert_eq!(current_cpu(&tcb), 3);
    let page = page_with_clock(0, 1, 0, 0, 0);
    assert_eq!(num_cpus(&page), 4);
}

#[test]
fn fixed_addresses_are_page_aligned() {
    assert_eq!(KernelStaticPage::VADDR % KernelStaticPage::PAGE_SIZE, 0);
    assert_eq!(ProcessStaticPage::VADDR % ProcessStaticPage::PAGE_SIZE, 0);
    assert!(sys_abi::CUSTOM_USERSPACE_REGION_START < sys_abi::CUSTOM_USERSPACE_REGION_END);
}
