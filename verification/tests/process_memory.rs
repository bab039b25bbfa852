use kernel::cortexm::SysCall;
use kernel::math::PowerOfTwo;
use kernel::memop::memop;
use kernel::memory::WORD_SIZE;
use kernel::mpu::AccessPermission;
use kernel::mpu::ExecutePermission;
use kernel::mpu::RegionRequest;
use kernel::process::Error;
use kernel::process::FaultResponse;
use kernel::process::FunctionCall;
use kernel::process::Process;
use kernel::process::ProcessDebug;
use kernel::process::State;
use kernel::process::Task;
use kernel::process::CALLBACK_LEN;
use kernel::process::INITIAL_APP_MEMORY;
use kernel::returncode::ReturnCode;
use kernel::syscall::ContextSwitchReason;
use kernel::syscall::Syscall;
use kernel::syscall::FRAME_SIZE;
use kernel::tbfheader::TbfHeader;

const FLASH: usize = 0x0004_0000;
const RAM: usize = 0x1000;

fn header() -> TbfHeader {
    TbfHeader {
        total_size: 0x800,
        is_app: true,
        enabled: true,
        minimum_app_ram_size: 0x2000,
        init_function_offset: 0x41,
        protected_size: 0x40,
        package_name: String::from("blink"),
        writeable_flash_regions: vec![(0x100, 0x80), (0x400, 0)],
    }
}

/// A process whose RAM is `[0x1000, 0x3000)`, with room for `grants` grant
/// pointers.
fn process(grants: usize) -> (Process<SysCall>, usize) {
    let mut work: usize = 0;
    let (process, flash, ram) = Process::<SysCall>::create(
        &mut work,
        Some(header()),
        FLASH,
        RAM,
        0x8000,
        FaultResponse::Restart,
        grants,
    );
    assert_eq!(flash, 0x800);
    assert_eq!(ram, 0x2000);
    (process.unwrap(), work)
}

/// The process of `process(0)` with its break at 0x2000 and the kernel's
/// break at 0x2100.
fn tight_process() -> Process<SysCall> {
    let (mut p, _) = process(0);
    let spare = p.kernel_memory_break() - 0x2100;
    assert_eq!(p.allocate(spare), Some(0x2100));
    assert_eq!(p.brk(0x2000), Ok(RAM + INITIAL_APP_MEMORY));
    assert_eq!(p.app_break(), 0x2000);
    assert_eq!(p.kernel_memory_break(), 0x2100);
    p
}

#[test]
fn create_lays_out_the_memory() {
    let (p, work) = process(3);
    assert_eq!(work, 1);
    assert_eq!(p.mem_start(), 0x1000);
    assert_eq!(p.mem_end(), 0x3000);
    assert_eq!(p.flash_start(), FLASH);
    assert_eq!(p.flash_end(), FLASH + 0x800);
    assert_eq!(p.flash_non_protected_start(), FLASH + 0x40);
    assert_eq!(p.app_break(), 0x1000 + 128);
    assert_eq!(p.sp(), 0x1000 + 128);
    let overhead = 3 * WORD_SIZE
        + CALLBACK_LEN * std::mem::size_of::<Task>()
        + std::mem::size_of::<Process<SysCall>>();
    assert_eq!(p.kernel_memory_break(), 0x3000 - overhead);
    assert_eq!(p.current_state(), State::Yielded);
    assert_eq!(p.fault_response(), FaultResponse::Restart);
    assert_eq!(p.grant_ptrs_num(), 3);
    assert_eq!(p.pending_tasks(), 1);
    assert_eq!(p.get_package_name(), "blink");
    assert_eq!(
        p.debug(),
        ProcessDebug {
            app_heap_start_pointer: None,
            app_stack_start_pointer: None,
            min_stack_pointer: 0x1000 + 128,
            syscall_count: 0,
            last_syscall: None,
            dropped_callback_count: 0,
            restart_count: 0,
        }
    );
    for grant in 0..3 {
        assert_eq!(p.grant_ptr(grant), 0x3000 - (grant + 1) * WORD_SIZE);
        assert_eq!(p.grant_for(grant), 0);
    }
}

#[test]
fn create_gives_at_least_what_the_kernel_keeps() {
    let mut work: usize = 0;
    let mut small = header();
    small.minimum_app_ram_size = 16;
    let (p, _, ram) = Process::<SysCall>::create(
        &mut work,
        Some(small),
        FLASH,
        RAM,
        0x8000,
        FaultResponse::Panic,
        0,
    );
    let p = p.unwrap();
    let overhead =
        CALLBACK_LEN * std::mem::size_of::<Task>() + std::mem::size_of::<Process<SysCall>>();
    assert!(ram >= overhead);
    assert!(ram < 2 * overhead);
    assert!(ram.is_power_of_two());
    assert_eq!(p.mem_end() - p.mem_start(), ram);
}

#[test]
fn create_skips_what_is_no_enabled_application() {
    let mut work: usize = 5;
    let (p, flash, ram) = Process::<SysCall>::create(
        &mut work,
        None,
        FLASH,
        RAM,
        0x8000,
        FaultResponse::Panic,
        0,
    );
    assert!(p.is_none());
    assert_eq!((flash, ram), (0, 0));
    let mut padding = header();
    padding.is_app = false;
    let (p, flash, ram) = Process::<SysCall>::create(
        &mut work,
        Some(padding),
        FLASH,
        RAM,
        0x8000,
        FaultResponse::Panic,
        0,
    );
    assert!(p.is_none());
    assert_eq!((flash, ram), (0x800, 0));
    let mut disabled = header();
    disabled.enabled = false;
    let (p, flash, ram) = Process::<SysCall>::create(
        &mut work,
        Some(disabled),
        FLASH,
        RAM,
        0x8000,
        FaultResponse::Panic,
        0,
    );
    assert!(p.is_none());
    assert_eq!((flash, ram), (0x800, 0));
    assert_eq!(work, 5);
}

#[test]
fn sbrk_overflow() {
    let mut p = tight_process();
    assert_eq!(p.sbrk(0x200), Err(Error::OutOfMemory));
    assert_eq!(p.app_break(), 0x2000);
    assert_eq!(ReturnCode::from(Error::OutOfMemory), ReturnCode::ENOMEM);
    // The same through the system call.
    assert_eq!(memop(&mut p, 1, 0x200), ReturnCode::ENOMEM);
    assert_eq!(p.app_break(), 0x2000);
}

#[test]
fn sbrk_moves_the_break_both_ways() {
    let mut p = tight_process();
    assert_eq!(p.sbrk(0x100), Ok(0x2000));
    assert_eq!(p.app_break(), 0x2100);
    assert_eq!(p.sbrk(0), Ok(0x2100));
    assert_eq!(p.sbrk(1), Err(Error::OutOfMemory));
    assert_eq!(p.sbrk(-0x1100), Ok(0x2100));
    assert_eq!(p.app_break(), 0x1000);
    assert_eq!(p.sbrk(-1), Err(Error::AddressOutOfBounds));
    assert_eq!(p.sbrk(isize::MIN), Err(Error::AddressOutOfBounds));
    assert_eq!(p.sbrk(isize::MAX), Err(Error::AddressOutOfBounds));
    assert_eq!(p.sbrk(0x2000), Err(Error::AddressOutOfBounds));
    assert_eq!(p.app_break(), 0x1000);
}

#[test]
fn brk_checks_the_window_before_the_kernel_break() {
    let mut p = tight_process();
    assert_eq!(p.brk(0xfff), Err(Error::AddressOutOfBounds));
    assert_eq!(p.brk(0x3000), Err(Error::AddressOutOfBounds));
    assert_eq!(p.brk(0x2fff), Err(Error::OutOfMemory));
    assert_eq!(p.brk(0x2101), Err(Error::OutOfMemory));
    assert_eq!(p.app_break(), 0x2000);
    assert_eq!(p.brk(0x2100), Ok(0x2000));
    assert_eq!(p.brk(0x1000), Ok(0x2100));
    assert_eq!(p.app_break(), 0x1000);
    assert_eq!(ReturnCode::from(Error::AddressOutOfBounds), ReturnCode::EINVAL);
    assert_eq!(ReturnCode::from(Error::NoSuchApp), ReturnCode::EINVAL);
}

#[test]
fn alloc_carves_downward_and_never_twice() {
    let mut p = tight_process();
    assert_eq!(p.allocate(0x40), Some(0x20c0));
    assert_eq!(p.allocate(0x40), Some(0x2080));
    assert_eq!(p.kernel_memory_break(), 0x2080);
    assert_eq!(p.allocate(0x81), None);
    assert_eq!(p.kernel_memory_break(), 0x2080);
    assert_eq!(p.allocate(0), Some(0x2080));
    assert_eq!(p.allocate(0x80), Some(0x2000));
    assert_eq!(p.allocate(1), None);
    assert_eq!(p.allocate(usize::MAX), None);
    assert_eq!(p.kernel_memory_break(), 0x2000);
    p.free(0);
    assert_eq!(p.kernel_memory_break(), 0x2000);
}

#[test]
fn in_exposed_bounds_is_interval_inclusion() {
    let (p, _) = process(0);
    assert!(p.in_exposed_bounds(0x1000, 0x2000));
    assert!(p.in_exposed_bounds(0x1000, 0));
    assert!(p.in_exposed_bounds(0x3000, 0));
    assert!(p.in_exposed_bounds(0x2fff, 1));
    assert!(!p.in_exposed_bounds(0x2fff, 2));
    assert!(!p.in_exposed_bounds(0xfff, 1));
    assert!(!p.in_exposed_bounds(0x3001, 0));
    assert!(!p.in_exposed_bounds(0x1000, 0x2001));
    assert!(!p.in_exposed_bounds(0x1000, usize::MAX));
    assert!(!p.in_exposed_bounds(usize::MAX, 1));
}

#[test]
fn grants_are_allocated_once() {
    let (mut p, _) = process(2);
    let top = p.kernel_memory_break();
    assert_eq!(p.grant_for(1), 0);
    assert_eq!(p.grant_for_or_alloc(1, 0x30), Some(top - 0x30));
    assert_eq!(p.grant_for(1), top - 0x30);
    assert_eq!(p.grant_for(0), 0);
    assert_eq!(p.kernel_memory_break(), top - 0x30);
    assert_eq!(p.grant_for_or_alloc(1, 0x30), Some(top - 0x30));
    assert_eq!(p.kernel_memory_break(), top - 0x30);
    assert_eq!(p.load_word(p.grant_ptr(1)), top - 0x30);
    assert_eq!(p.grant_for_or_alloc(0, 0x4000), None);
    assert_eq!(p.grant_for(0), 0);
    assert_eq!(p.kernel_memory_break(), top - 0x30);
}

#[test]
fn restart_clears_the_grants() {
    let (mut p, mut work) = process(2);
    let top = p.kernel_memory_break();
    assert_eq!(p.grant_for_or_alloc(0, 0x10), Some(top - 0x10));
    assert_eq!(p.grant_for_or_alloc(1, 0x10), Some(top - 0x20));
    assert_eq!(p.brk(0x1800), Ok(0x1080));
    p.set_stack_pointer(0x1040);
    p.incr_syscall_count(Some(Syscall::COMMAND));
    p.fault_state(&mut work);
    assert_eq!(work, 1);
    assert_eq!(p.grant_for(0), 0);
    assert_eq!(p.grant_for(1), 0);
    assert_eq!(p.kernel_memory_break(), top);
    assert_eq!(p.app_break(), 0x1080);
    assert_eq!(p.sp(), 0x1080);
    assert_eq!(p.current_state(), State::Yielded);
    assert_eq!(p.debug().restart_count, 1);
    assert_eq!(p.debug().syscall_count, 0);
    assert_eq!(p.debug().last_syscall, None);
    assert_eq!(p.debug().min_stack_pointer, 0x1040);
    assert_eq!(
        p.dequeue_task(&mut work),
        Some(Task::FunctionCall(FunctionCall {
            pc: FLASH + 0x41,
            r0: FLASH + 0x40,
            r1: 0x1000,
            r2: 0x2000,
            r3: 0x1080,
        }))
    );
    assert_eq!(p.dequeue_task(&mut work), None);
    // Again, and nothing but the count of restarts differs.
    p.fault_state(&mut work);
    assert_eq!(p.debug().restart_count, 2);
    assert_eq!(p.pending_tasks(), 1);
    assert_eq!(p.kernel_memory_break(), top);
    assert_eq!(work, 1);
}

#[test]
fn a_faulted_process_takes_no_tasks() {
    let (mut p, mut work) = process(0);
    let call = FunctionCall { r0: 1, r1: 2, r2: 3, r3: 4, pc: 0x100 };
    for _ in 0..8 {
        assert!(p.schedule(&mut work, call));
    }
    assert_eq!(p.pending_tasks(), 9);
    assert!(!p.schedule(&mut work, call));
    assert_eq!(p.pending_tasks(), 9);
    assert_eq!(work, 9);
    assert_eq!(p.debug().dropped_callback_count, 1);
}

#[test]
fn yield_state_only_moves_a_running_process() {
    let (mut p, mut work) = process(0);
    assert_eq!(p.current_state(), State::Yielded);
    p.yield_state(&mut work);
    assert_eq!(p.current_state(), State::Yielded);
    assert_eq!(work, 1);
    let call = match p.dequeue_task(&mut work) {
        Some(Task::FunctionCall(call)) => call,
        _ => panic!("no init call"),
    };
    assert!(p.can_push_frame());
    p.push_function_call(&mut work, call);
    assert_eq!(p.current_state(), State::Running);
    assert_eq!(work, 1);
    p.yield_state(&mut work);
    assert_eq!(p.current_state(), State::Yielded);
    assert_eq!(work, 0);
}

#[test]
fn push_and_pop_move_the_stack_pointer_by_a_frame() {
    let (mut p, mut work) = process(0);
    let before = p.sp();
    let call = FunctionCall { r0: 10, r1: 11, r2: 12, r3: 13, pc: 0x4000 };
    p.store_word(before - 4 * WORD_SIZE, 0x1212);
    p.push_function_call(&mut work, call);
    assert_eq!(p.sp(), before - FRAME_SIZE);
    assert_eq!(FRAME_SIZE, 8 * WORD_SIZE);
    assert!(p.frame_in_memory());
    assert_eq!(p.get_syscall_data(), (10, 11, 12, 13));
    assert_eq!(p.r12(), 0x1212);
    assert_eq!(p.lr(), (FLASH + 0x41) | 1);
    assert_eq!(p.pc(), 0x4001);
    assert_eq!(p.xpsr(), 0x0100_0000);
    p.store_word(p.sp() + 6 * WORD_SIZE, 0x5550);
    p.store_word(p.sp() + 7 * WORD_SIZE, 0x6100_0000);
    p.pop_syscall_stack();
    assert_eq!(p.sp(), before);
    assert_eq!(p.statistics().yield_pc, 0x5550);
    p.push_function_call(&mut work, call);
    assert_eq!(p.lr(), 0x5551);
    assert_eq!(p.xpsr(), 0x6100_0000);
    assert_eq!(p.debug().min_stack_pointer, before - FRAME_SIZE);
}

#[test]
fn a_frame_needs_room() {
    let (mut p, _) = process(0);
    p.set_stack_pointer(0x1000 + FRAME_SIZE);
    assert!(p.can_push_frame());
    p.set_stack_pointer(0x1000 + FRAME_SIZE - 1);
    assert!(!p.can_push_frame());
    p.set_stack_pointer(0);
    assert!(!p.can_push_frame());
    assert!(!p.frame_in_memory());
    p.set_stack_pointer(0x3000 - FRAME_SIZE);
    assert!(p.frame_in_memory());
    p.set_stack_pointer(0x3000 - FRAME_SIZE + 1);
    assert!(!p.frame_in_memory());
}

#[test]
fn return_value_round_trip() {
    let (mut p, _) = process(0);
    for value in [0isize, 1, -1, -6, -11, isize::MAX, isize::MIN, 0x1234_5678] {
        p.set_syscall_return_value(value);
        assert_eq!(p.get_syscall_data().0 as isize, value);
    }
    // An unaligned frame works as well.
    p.set_stack_pointer(0x1003);
    p.set_syscall_return_value(-9);
    assert_eq!(p.get_syscall_data().0 as isize, -9);
}

#[test]
fn memory_of_a_process_can_be_written_through_a_slice() {
    let (mut p, _) = process(0);
    {
        let bytes = p.memory_slice_mut(0x1010, 4);
        assert_eq!(bytes, &[0, 0, 0, 0]);
        bytes[0] = 0xaa;
        bytes[3] = 0xbb;
    }
    assert_eq!(p.load_word(0x1010) & 0xffff_ffff, 0xbb00_00aa);
    p.store_bytes(0x1011, &[1, 2]);
    assert_eq!(p.load_word(0x1010) & 0xffff_ffff, 0xbb02_01aa);
    assert_eq!(p.memory().slice(0x1010, 4), &[0xaa, 1, 2, 0xbb]);
    assert_eq!(p.next_task().is_some(), true);
}

#[test]
fn context_switch_reason_is_read_once() {
    let (mut p, _) = process(0);
    assert_eq!(p.get_context_switch_reason(), ContextSwitchReason::Other);
    assert_eq!(p.get_context_switch_reason(), ContextSwitchReason::Other);
}

#[test]
fn add_mpu_region_takes_valid_regions() {
    let (mut p, _) = process(0);
    // Malformed: too small, no power of two, base not aligned.
    assert!(!p.add_mpu_region(0x2000, 8));
    assert!(!p.add_mpu_region(0x2000, 0));
    assert!(!p.add_mpu_region(0x2000, 48));
    assert!(!p.add_mpu_region(0x2010, 32));
    assert!(p.add_mpu_region(0x2000, 16));
    assert!(p.add_mpu_region(0x4000, 0x1000));
    // The same base again: the entry only grows.
    assert!(p.add_mpu_region(0x2000, 64));
    assert!(p.add_mpu_region(0x2000, 32));
    let plan = p.setup_mpu();
    assert_eq!(plan.len(), 8);
    assert_eq!(
        plan[3],
        RegionRequest::Region {
            index: 3,
            base: 0x2000,
            len: 64,
            execute: ExecutePermission::ExecutionPermitted,
            access: AccessPermission::ReadWrite,
        }
    );
    assert_eq!(
        plan[4],
        RegionRequest::Region {
            index: 4,
            base: 0x4000,
            len: 0x1000,
            execute: ExecutePermission::ExecutionPermitted,
            access: AccessPermission::ReadWrite,
        }
    );
    assert_eq!(plan[5], RegionRequest::Empty { index: 5 });
    assert_eq!(plan[7], RegionRequest::Empty { index: 7 });
    // Five entries, and no more.
    assert!(p.add_mpu_region(0x8000, 16));
    assert!(p.add_mpu_region(0x8010, 16));
    assert!(p.add_mpu_region(0x8020, 16));
    assert!(!p.add_mpu_region(0x8030, 16));
    assert!(p.add_mpu_region(0x8020, 32));
    let plan = p.setup_mpu();
    for (i, request) in plan.iter().enumerate().skip(3) {
        match request {
            RegionRequest::Region { index, base, len, .. } => {
                assert_eq!(*index, i);
                assert!(*len >= 16);
                assert!(len.is_power_of_two());
                assert_eq!(base % len, 0);
            }
            RegionRequest::Empty { .. } => panic!("the table is full"),
        }
    }
}

#[test]
fn setup_mpu_covers_flash_ram_and_grants() {
    let (mut p, _) = process(0);
    let spare = p.kernel_memory_break() - 0x2a00;
    assert_eq!(p.allocate(spare), Some(0x2a00));
    let plan = p.setup_mpu();
    assert_eq!(
        plan[0],
        RegionRequest::Region {
            index: 0,
            base: FLASH,
            len: 0x800,
            execute: ExecutePermission::ExecutionPermitted,
            access: AccessPermission::ReadOnly,
        }
    );
    assert_eq!(
        plan[1],
        RegionRequest::Region {
            index: 1,
            base: 0x1000,
            len: 0x2000,
            execute: ExecutePermission::ExecutionPermitted,
            access: AccessPermission::ReadWrite,
        }
    );
    // 0x600 bytes are kept by the kernel: the next power of two is 0x800.
    assert_eq!(
        plan[2],
        RegionRequest::Region {
            index: 2,
            base: 0x3000 - 0x800,
            len: 0x800,
            execute: ExecutePermission::ExecutionNotPermitted,
            access: AccessPermission::PrivilegedOnly,
        }
    );
    for (i, request) in plan.iter().enumerate().skip(3) {
        assert_eq!(*request, RegionRequest::Empty { index: i });
    }
    assert_eq!(PowerOfTwo::zero().exp(), 0);
}

#[test]
fn memop_answers_the_queries() {
    let (mut p, _) = process(0);
    let value = |value: usize| ReturnCode::SuccessWithValue { value };
    assert_eq!(memop(&mut p, 2, 0), value(0x1000));
    assert_eq!(memop(&mut p, 3, 0), value(0x3000));
    assert_eq!(memop(&mut p, 4, 0), value(FLASH));
    assert_eq!(memop(&mut p, 5, 0), value(FLASH + 0x800));
    let grant_start = p.kernel_memory_break();
    assert_eq!(memop(&mut p, 6, 0), value(grant_start));
    assert_eq!(memop(&mut p, 7, 0), value(2));
    assert_eq!(memop(&mut p, 8, 0), value(FLASH + 0x100));
    assert_eq!(memop(&mut p, 9, 0), value(FLASH + 0x180));
    // A region of no size, and no region at all.
    assert_eq!(memop(&mut p, 8, 1), ReturnCode::FAIL);
    assert_eq!(memop(&mut p, 9, 1), ReturnCode::FAIL);
    assert_eq!(memop(&mut p, 8, 2), ReturnCode::FAIL);
    assert_eq!(memop(&mut p, 12, 0), ReturnCode::ENOSUPPORT);
    assert_eq!(memop(&mut p, usize::MAX, 0), ReturnCode::ENOSUPPORT);
    assert_eq!(p.number_writeable_flash_regions(), 2);
    assert_eq!(p.get_writeable_flash_region(0), (0x100, 0x80));
    assert_eq!(p.get_writeable_flash_region(5), (0, 0));
}

#[test]
fn memop_moves_the_break() {
    let (mut p, _) = process(0);
    assert_eq!(memop(&mut p, 0, 0x1400), ReturnCode::SUCCESS);
    assert_eq!(p.app_break(), 0x1400);
    assert_eq!(memop(&mut p, 1, 0x100), ReturnCode::SuccessWithValue { value: 0x1400 });
    assert_eq!(p.app_break(), 0x1500);
    assert_eq!(
        memop(&mut p, 1, (-0x80isize) as usize),
        ReturnCode::SuccessWithValue { value: 0x1500 }
    );
    assert_eq!(p.app_break(), 0x1480);
    assert_eq!(memop(&mut p, 0, 0x3000), ReturnCode::EINVAL);
    assert_eq!(memop(&mut p, 0, 0x2fff), ReturnCode::ENOMEM);
    assert_eq!(memop(&mut p, 0, 0), ReturnCode::EINVAL);
    assert_eq!(p.app_break(), 0x1480);
}

#[test]
fn memop_notes_where_stack_and_heap_start() {
    let (mut p, _) = process(0);
    assert_eq!(memop(&mut p, 10, 0x1800), ReturnCode::SUCCESS);
    assert_eq!(memop(&mut p, 11, 0x1900), ReturnCode::SUCCESS);
    assert_eq!(p.debug().app_stack_start_pointer, Some(0x1800));
    assert_eq!(p.debug().min_stack_pointer, 0x1800);
    assert_eq!(p.debug().app_heap_start_pointer, Some(0x1900));
    // Addresses outside the RAM are not noted.
    assert_eq!(memop(&mut p, 10, 0x3000), ReturnCode::SUCCESS);
    assert_eq!(memop(&mut p, 11, 0xfff), ReturnCode::SUCCESS);
    assert_eq!(p.debug().app_stack_start_pointer, Some(0x1800));
    assert_eq!(p.debug().app_heap_start_pointer, Some(0x1900));
    p.update_stack_start_pointer(0x1000);
    p.update_heap_start_pointer(0x2fff);
    assert_eq!(p.debug().app_stack_start_pointer, Some(0x1000));
    assert_eq!(p.debug().app_heap_start_pointer, Some(0x2fff));
}

#[test]
fn statistics_report_the_layout() {
    let (mut p, _) = process(0);
    p.update_stack_start_pointer(0x1400);
    p.update_heap_start_pointer(0x1800);
    assert_eq!(p.brk(0x2000), Ok(0x1080));
    p.set_stack_pointer(0x1300);
    let grant_start = p.kernel_memory_break();
    let s = p.statistics();
    assert_eq!(s.flash_start, FLASH);
    assert_eq!(s.flash_app_start, FLASH + 0x40);
    assert_eq!(s.flash_end, FLASH + 0x800);
    assert_eq!(s.flash_protected_size, 0x40);
    assert_eq!(s.flash_app_size, 0x7c0);
    assert_eq!(s.flash_init_fn, FLASH + 0x41);
    assert_eq!(s.sram_start, 0x1000);
    assert_eq!(s.sram_end, 0x3000);
    assert_eq!(s.sram_stack_bottom, 0x1300);
    assert_eq!(s.sram_stack_start, 0x1400);
    assert_eq!(s.sram_heap_start, 0x1800);
    assert_eq!(s.sram_heap_end, 0x2000);
    assert_eq!(s.sram_grant_start, grant_start);
    assert_eq!(s.sram_grant_size, 0x3000 - grant_start);
    assert_eq!(s.sram_grant_allocated, 0x3000 - grant_start);
    assert_eq!(s.sram_heap_size, 0x800);
    assert_eq!(s.sram_heap_allocated, grant_start - 0x1800);
    assert_eq!(s.sram_data_size, 0x400);
    assert_eq!(s.sram_data_allocated, 0x400);
    assert_eq!(s.sram_stack_size, 0x100);
    assert_eq!(s.sram_stack_allocated, 0x400);
    assert!(!s.sram_grant_exceeded);
    assert!(!s.sram_heap_exceeded);
    assert!(!s.sram_stack_exceeded);
    assert_eq!(s.state, State::Yielded);
    assert_eq!(s.events_queued, 1);
    assert_eq!(s.yield_pc, FLASH + 0x41);
    // A stack that has grown below the bottom of the RAM's share for it.
    p.update_stack_start_pointer(0x1100);
    p.set_stack_pointer(0x1000);
    p.set_stack_pointer(0x1100);
    let s = p.statistics();
    assert_eq!(s.sram_stack_size, 0x100);
    assert_eq!(s.sram_stack_allocated, 0x100);
}
