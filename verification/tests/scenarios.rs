use kernel::callback::AppId;
use kernel::callback::Callback;
use kernel::cortexm::SysCall;
use kernel::mem::AppSlice;
use kernel::mem::Shared;
use kernel::memory::Memory;
use kernel::memory::WORD_SIZE;
use kernel::process::FaultResponse;
use kernel::process::FunctionCall;
use kernel::process::IPCType;
use kernel::process::LoadError;
use kernel::process::Process;
use kernel::process::State;
use kernel::process::Task;
use kernel::returncode::ReturnCode;
use kernel::sched::load_processes;
use kernel::sched::Action;
use kernel::sched::AllowBuffer;
use kernel::sched::DriverCall;
use kernel::sched::Event;
use kernel::sched::Kernel;
use kernel::syscall::ContextSwitchReason;
use kernel::syscall::Syscall;
use kernel::syscall::FRAME_SIZE;
use kernel::tbfheader::TbfHeader;

const FLASH: usize = 0x0003_0000;
const RAM: usize = 0x2000_0000;
const SVC_AT: usize = 0x100;

fn header(min_ram: u32) -> TbfHeader {
    TbfHeader {
        total_size: 0x1000,
        is_app: true,
        enabled: true,
        minimum_app_ram_size: min_ram,
        init_function_offset: 0x81,
        protected_size: 0x80,
        package_name: String::from("app"),
        writeable_flash_regions: vec![(0x200, 0x100)],
    }
}

/// A flash whose first image holds the instruction `svc number` at
/// `FLASH + SVC_AT + 2 * number`, for the numbers 0 to 5.
fn flash_with_svcs() -> Memory {
    let mut bytes = vec![0u8; 0x2000];
    for number in 0..6usize {
        bytes[SVC_AT + 2 * number] = number as u8;
        bytes[SVC_AT + 2 * number + 1] = 0xDF;
    }
    Memory::from_bytes(FLASH, bytes)
}

/// The address that a process returns to after `svc number`.
fn after_svc(number: usize) -> usize {
    FLASH + SVC_AT + 2 * number + 2
}

fn kernel_with_one_app(response: FaultResponse) -> Kernel<SysCall> {
    let mut kernel: Kernel<SysCall> = Kernel::new(4, flash_with_svcs());
    let err = load_processes(&mut kernel, vec![Some(header(0x1000))], FLASH, RAM, 0x10000, response);
    assert_eq!(err, None);
    kernel
}

/// Writes the frame that the hardware saves when the process stops.
fn write_frame(kernel: &mut Kernel<SysCall>, idx: usize, sp: usize, regs: [usize; 8]) {
    for (k, value) in regs.iter().enumerate() {
        assert!(kernel.store_word(idx, sp + k * WORD_SIZE, *value));
    }
}

/// Brings the freshly loaded process 0 to where it runs its entry function.
fn start(kernel: &mut Kernel<SysCall>) -> usize {
    assert_eq!(kernel.do_process(0, Event::Start), Action::Continue);
    let sp = kernel.process(0).unwrap().sp();
    assert_eq!(kernel.do_process(0, Event::Start), Action::Switch { stack_pointer: sp });
    sp
}

/// The process stops at `sp` with the system call `number` and the
/// arguments `args`.
fn syscall(kernel: &mut Kernel<SysCall>, sp: usize, number: usize, args: [usize; 4]) -> Action {
    write_frame(
        kernel,
        0,
        sp,
        [args[0], args[1], args[2], args[3], 0x12, 0x4001, after_svc(number), 0x0100_0000],
    );
    kernel.do_process(
        0,
        Event::Returned { stack_pointer: sp, reason: ContextSwitchReason::SyscallFired },
    )
}

#[test]
fn load_and_init() {
    let mut work: usize = 0;
    let (process, flash_consumed, ram_consumed) = Process::<SysCall>::create(
        &mut work,
        Some(header(0x400)),
        FLASH,
        RAM,
        0x10000,
        FaultResponse::Panic,
        0,
    );
    let mut process = process.unwrap();
    assert_eq!(flash_consumed, 0x1000);
    assert_eq!(ram_consumed, 0x400);
    assert_eq!(work, 1);
    assert_eq!(process.flash_non_protected_start(), FLASH + 0x80);
    assert_eq!(process.current_state(), State::Yielded);
    assert_eq!(process.mem_end(), RAM + 0x400);
    assert!(process.sp() <= process.app_break());
    assert!(process.app_break() <= process.kernel_memory_break());
    assert!(process.kernel_memory_break() < process.mem_end());
    let task = process.dequeue_task(&mut work);
    assert_eq!(
        task,
        Some(Task::FunctionCall(FunctionCall {
            pc: FLASH + 0x81,
            r0: FLASH + 0x80,
            r1: RAM,
            r2: 0x400,
            r3: RAM + 128,
        }))
    );
    assert_eq!(work, 0);
    assert_eq!(process.dequeue_task(&mut work), None);
}

#[test]
fn load_processes_fills_the_slots_in_order() {
    let mut kernel: Kernel<SysCall> = Kernel::new(4, flash_with_svcs());
    let mut padding = header(0);
    padding.is_app = false;
    padding.total_size = 0x800;
    let mut disabled = header(0x1000);
    disabled.enabled = false;
    let err = load_processes(
        &mut kernel,
        vec![Some(header(0x1000)), Some(padding), Some(disabled), Some(header(0x2000)), None],
        FLASH,
        RAM,
        0x10000,
        FaultResponse::Panic,
    );
    assert_eq!(err, None);
    assert!(kernel.has_process(0));
    assert!(!kernel.has_process(1));
    assert!(!kernel.has_process(2));
    assert!(kernel.has_process(3));
    assert_eq!(kernel.work(), 2);
    let first = kernel.process(0).unwrap();
    assert_eq!(first.flash_start(), FLASH);
    assert_eq!(first.mem_start(), RAM);
    assert_eq!(first.mem_end(), RAM + 0x1000);
    let second = kernel.process(3).unwrap();
    assert_eq!(second.flash_start(), FLASH + 0x1000 + 0x800 + 0x1000);
    assert_eq!(second.mem_start(), RAM + 0x1000);
    assert_eq!(second.mem_end(), RAM + 0x3000);
    assert_eq!(second.get_package_name(), "app");
}

#[test]
fn load_processes_stops_where_no_header_is_found() {
    let mut kernel: Kernel<SysCall> = Kernel::new(4, flash_with_svcs());
    let err = load_processes(
        &mut kernel,
        vec![Some(header(0x1000)), None, Some(header(0x1000))],
        FLASH,
        RAM,
        0x10000,
        FaultResponse::Panic,
    );
    assert_eq!(err, None);
    assert!(kernel.has_process(0));
    assert!(!kernel.has_process(1));
    assert!(!kernel.has_process(2));
    assert_eq!(kernel.work(), 1);
}

#[test]
fn load_processes_reports_insufficient_memory() {
    let mut kernel: Kernel<SysCall> = Kernel::new(4, flash_with_svcs());
    let err = load_processes(
        &mut kernel,
        vec![Some(header(0x1000)), Some(header(0x4000))],
        FLASH,
        RAM,
        0x3000,
        FaultResponse::Panic,
    );
    assert_eq!(err, Some(LoadError::InsufficientMemory { requested: 0x4000, available: 0x2000 }));
    assert!(kernel.has_process(0));
    assert!(!kernel.has_process(1));
}

#[test]
fn load_processes_reports_an_even_init_function() {
    let mut kernel: Kernel<SysCall> = Kernel::new(2, flash_with_svcs());
    let mut even = header(0x1000);
    even.init_function_offset = 0x80;
    let err = load_processes(&mut kernel, vec![Some(even)], FLASH, RAM, 0x10000, FaultResponse::Panic);
    assert_eq!(err, Some(LoadError::InitFunctionNotThumb { init_fn: FLASH + 0x80 }));
    assert!(!kernel.has_process(0));
    assert_eq!(kernel.work(), 0);
}

#[test]
fn load_processes_reports_what_the_machine_cannot_hold() {
    let mut kernel: Kernel<SysCall> = Kernel::new(2, flash_with_svcs());
    let err = load_processes(
        &mut kernel,
        vec![Some(header(0x1000))],
        FLASH,
        usize::MAX - 0x100,
        0x10000,
        FaultResponse::Panic,
    );
    assert_eq!(err, Some(LoadError::OutOfRange));
    let mut huge = header(0x9000_0000);
    huge.minimum_app_ram_size = 0x9000_0000;
    assert_eq!(
        Process::<SysCall>::check_create(&huge, FLASH, RAM, 0x10000, 0),
        Some(LoadError::OutOfRange)
    );
    assert_eq!(Process::<SysCall>::check_create(&header(0x1000), FLASH, RAM, 0x10000, 0), None);
}

#[test]
fn first_visit_pushes_the_init_call() {
    let mut kernel = kernel_with_one_app(FaultResponse::Panic);
    assert_eq!(kernel.work(), 1);
    assert_eq!(kernel.do_process(0, Event::Start), Action::Continue);
    let process = kernel.process(0).unwrap();
    assert_eq!(process.current_state(), State::Running);
    assert_eq!(process.sp(), RAM + 128 - FRAME_SIZE);
    assert_eq!(process.get_syscall_data(), (FLASH + 0x80, RAM, 0x1000, RAM + 128));
    assert_eq!(process.pc(), (FLASH + 0x81) | 1);
    assert_eq!(process.lr(), (FLASH + 0x81) | 1);
    assert_eq!(process.xpsr(), 0x0100_0000);
    assert_eq!(process.debug().min_stack_pointer, RAM + 128 - FRAME_SIZE);
    assert_eq!(kernel.work(), 1);
    assert_eq!(
        kernel.do_process(0, Event::Start),
        Action::Switch { stack_pointer: RAM + 128 - FRAME_SIZE }
    );
}

#[test]
fn a_waiting_process_without_tasks_is_left() {
    let mut kernel = kernel_with_one_app(FaultResponse::Panic);
    let sp = start(&mut kernel);
    assert_eq!(syscall(&mut kernel, sp, 0, [0; 4]), Action::Continue);
    assert_eq!(kernel.do_process(0, Event::Start), Action::Break);
    assert!(kernel.processes_blocked());
}

#[test]
fn time_up_leaves_the_process_running() {
    let mut kernel = kernel_with_one_app(FaultResponse::Panic);
    let sp = start(&mut kernel);
    let action = kernel.do_process(
        0,
        Event::Returned { stack_pointer: sp - 16, reason: ContextSwitchReason::Other },
    );
    assert_eq!(action, Action::Break);
    let process = kernel.process(0).unwrap();
    assert_eq!(process.current_state(), State::Running);
    assert_eq!(process.sp(), sp - 16);
    assert_eq!(process.debug().min_stack_pointer, sp - 16);
    assert_eq!(process.debug().syscall_count, 0);
    assert_eq!(kernel.work(), 1);
}

#[test]
fn yield_round_trip() {
    let mut kernel = kernel_with_one_app(FaultResponse::Panic);
    let sp = start(&mut kernel);
    let work = kernel.work();
    assert_eq!(kernel.process(0).unwrap().current_state(), State::Running);
    assert_eq!(syscall(&mut kernel, sp, 0, [0; 4]), Action::Continue);
    let process = kernel.process(0).unwrap();
    assert_eq!(process.current_state(), State::Yielded);
    assert_eq!(process.sp(), sp + 8 * WORD_SIZE);
    assert_eq!(kernel.work(), work - 1);
    assert_eq!(process.debug().syscall_count, 1);
    assert_eq!(process.debug().last_syscall, Some(Syscall::YIELD));
    assert_eq!(process.statistics().yield_pc, after_svc(0));
}

#[test]
fn subscribe_then_schedule() {
    let mut kernel = kernel_with_one_app(FaultResponse::Panic);
    let sp = start(&mut kernel);
    let action = syscall(&mut kernel, sp, 1, [3, 1, 0xF00, 0xBEEF]);
    let expected = Callback { app_id: AppId::new(0), appdata: 0xBEEF, fn_ptr: 0xF00 };
    assert_eq!(
        action,
        Action::Driver {
            app_id: AppId::new(0),
            call: DriverCall::Subscribe {
                driver_num: 3,
                subdriver_num: 1,
                callback: Some(expected)
            },
        }
    );
    let mut callback = match action {
        Action::Driver { call: DriverCall::Subscribe { callback: Some(cb), .. }, .. } => cb,
        _ => panic!("no callback"),
    };
    assert_eq!(
        kernel.do_process(0, Event::DriverReturned { result: ReturnCode::SUCCESS }),
        Action::Continue
    );
    assert_eq!(kernel.process(0).unwrap().get_syscall_data().0, 0);

    // The application goes on and yields.
    assert_eq!(kernel.do_process(0, Event::Start), Action::Switch { stack_pointer: sp });
    write_frame(&mut kernel, 0, sp, [0, 0, 0, 0, 0, 0, after_svc(0), 0x2100_0000]);
    let yielded = kernel.do_process(
        0,
        Event::Returned { stack_pointer: sp, reason: ContextSwitchReason::SyscallFired },
    );
    assert_eq!(yielded, Action::Continue);
    assert_eq!(kernel.do_process(0, Event::Start), Action::Break);

    // The driver calls back.
    assert!(callback.schedule(&mut kernel, 1, 2, 3));
    assert_eq!(kernel.work(), 1);
    assert_eq!(kernel.process(0).unwrap().current_state(), State::Yielded);

    // The next visit turns the call into a frame.
    assert_eq!(kernel.do_process(0, Event::Start), Action::Continue);
    let process = kernel.process(0).unwrap();
    assert_eq!(process.current_state(), State::Running);
    assert_eq!(process.sp(), sp);
    assert_eq!(process.get_syscall_data(), (1, 2, 3, 0xBEEF));
    assert_eq!(process.pc(), 0xF00 | 1);
    assert_eq!(process.lr(), after_svc(0) | 1);
    assert_eq!(process.xpsr(), 0x2100_0000);
    assert_eq!(kernel.work(), 1);
}

#[test]
fn subscribe_with_a_null_function_hands_over_no_callback() {
    let mut kernel = kernel_with_one_app(FaultResponse::Panic);
    let sp = start(&mut kernel);
    let action = syscall(&mut kernel, sp, 1, [3, 1, 0, 0xBEEF]);
    assert_eq!(
        action,
        Action::Driver {
            app_id: AppId::new(0),
            call: DriverCall::Subscribe { driver_num: 3, subdriver_num: 1, callback: None },
        }
    );
}

#[test]
fn command_names_the_driver_and_its_arguments() {
    let mut kernel = kernel_with_one_app(FaultResponse::Panic);
    let sp = start(&mut kernel);
    let action = syscall(&mut kernel, sp, 2, [7, 8, 9, 10]);
    let call = DriverCall::Command { driver_num: 7, command_num: 8, arg1: 9, arg2: 10 };
    assert_eq!(action, Action::Driver { app_id: AppId::new(0), call });
    assert_eq!(call.driver_num(), 7);
    assert_eq!(call.rejection(), None);
    let result = ReturnCode::SuccessWithValue { value: 77 };
    assert_eq!(kernel.do_process(0, Event::DriverReturned { result }), Action::Continue);
    assert_eq!(kernel.process(0).unwrap().get_syscall_data(), (77, 8, 9, 10));
    assert_eq!(kernel.process(0).unwrap().current_state(), State::Running);
}

#[test]
fn unknown_driver_gives_enodevice() {
    let mut kernel = kernel_with_one_app(FaultResponse::Panic);
    let sp = start(&mut kernel);
    let _ = syscall(&mut kernel, sp, 2, [99, 0, 0, 0]);
    assert_eq!(kernel.do_process(0, Event::DriverAbsent), Action::Continue);
    let r0 = kernel.process(0).unwrap().get_syscall_data().0;
    assert_eq!(r0 as isize, -11);
    assert_eq!(r0 as isize, isize::from(ReturnCode::ENODEVICE));
}

#[test]
fn allow_shares_a_buffer_in_bounds() {
    let mut kernel = kernel_with_one_app(FaultResponse::Panic);
    let sp = start(&mut kernel);
    let action = syscall(&mut kernel, sp, 3, [5, 2, RAM + 0x10, 0x20]);
    let slice: AppSlice<Shared> = AppSlice::new(RAM + 0x10, 0x20, AppId::new(0), Shared);
    let call = DriverCall::Allow { driver_num: 5, allow_num: 2, buffer: AllowBuffer::Share(slice) };
    assert_eq!(action, Action::Driver { app_id: AppId::new(0), call });
    assert_eq!(call.rejection(), None);
    assert_eq!(slice.len(), 0x20);
    assert_eq!(slice.ptr(), RAM + 0x10);
    assert!(kernel.store_word(0, RAM + 0x10, 0x0403_0201));
    let bytes = slice.as_ref(&kernel).unwrap();
    assert_eq!(bytes.len(), 0x20);
    assert_eq!(&bytes[..4], &[1, 2, 3, 4]);
    // The whole RAM may be shared, to its last byte.
    let whole = syscall(&mut kernel, sp, 3, [5, 2, RAM, 0x1000]);
    let all: AppSlice<Shared> = AppSlice::new(RAM, 0x1000, AppId::new(0), Shared);
    assert_eq!(
        whole,
        Action::Driver {
            app_id: AppId::new(0),
            call: DriverCall::Allow { driver_num: 5, allow_num: 2, buffer: AllowBuffer::Share(all) },
        }
    );
}

#[test]
fn allow_with_a_null_address_takes_the_buffer_back() {
    let mut kernel = kernel_with_one_app(FaultResponse::Panic);
    let sp = start(&mut kernel);
    let action = syscall(&mut kernel, sp, 3, [5, 2, 0, 0x20]);
    assert_eq!(
        action,
        Action::Driver {
            app_id: AppId::new(0),
            call: DriverCall::Allow { driver_num: 5, allow_num: 2, buffer: AllowBuffer::Revoke },
        }
    );
}

#[test]
fn allow_rejection() {
    let mut kernel = kernel_with_one_app(FaultResponse::Panic);
    let sp = start(&mut kernel);
    let mem_end = kernel.process(0).unwrap().mem_end();
    let action = syscall(&mut kernel, sp, 3, [5, 2, mem_end + 1, 4]);
    let call = DriverCall::Allow { driver_num: 5, allow_num: 2, buffer: AllowBuffer::OutOfBounds };
    assert_eq!(action, Action::Driver { app_id: AppId::new(0), call });
    // The driver is not told: the call is answered in its place.
    assert_eq!(call.rejection(), Some(ReturnCode::EINVAL));
    let result = call.rejection().unwrap();
    assert_eq!(kernel.do_process(0, Event::DriverReturned { result }), Action::Continue);
    let r0 = kernel.process(0).unwrap().get_syscall_data().0;
    assert_eq!(r0 as isize, -6);
    // A buffer that starts in bounds and ends one byte past them.
    let over = syscall(&mut kernel, sp, 3, [5, 2, mem_end - 4, 5]);
    assert_eq!(over, Action::Driver { app_id: AppId::new(0), call });
}

#[test]
fn an_unknown_system_call_is_counted_and_nothing_else() {
    let mut kernel = kernel_with_one_app(FaultResponse::Panic);
    let sp = start(&mut kernel);
    assert_eq!(syscall(&mut kernel, sp, 5, [1, 2, 3, 4]), Action::Continue);
    let process = kernel.process(0).unwrap();
    assert_eq!(process.debug().syscall_count, 1);
    assert_eq!(process.debug().last_syscall, None);
    assert_eq!(process.get_syscall_data(), (1, 2, 3, 4));
    assert_eq!(process.current_state(), State::Running);
}

#[test]
fn fault_and_restart() {
    let mut kernel = kernel_with_one_app(FaultResponse::Restart);
    let sp = start(&mut kernel);
    let original_break = kernel.process(0).unwrap().kernel_memory_break();
    assert_eq!(kernel.allocate(0, 0x40), Ok(original_break - 0x40));
    assert!(kernel.schedule(0, FunctionCall { r0: 0, r1: 0, r2: 0, r3: 0, pc: 0x500 }));
    assert!(kernel.schedule(0, FunctionCall { r0: 0, r1: 0, r2: 0, r3: 0, pc: 0x600 }));
    assert_eq!(kernel.work(), 3);
    let action = kernel.do_process(
        0,
        Event::Returned { stack_pointer: sp - 32, reason: ContextSwitchReason::Fault },
    );
    assert_eq!(action, Action::Continue);
    let process = kernel.process(0).unwrap();
    assert_eq!(process.current_state(), State::Yielded);
    assert_eq!(process.pending_tasks(), 1);
    assert_eq!(process.debug().restart_count, 1);
    assert_eq!(process.debug().syscall_count, 0);
    assert_eq!(process.kernel_memory_break(), original_break);
    assert_eq!(process.app_break(), RAM + 128);
    assert_eq!(process.sp(), RAM + 128);
    // The two dropped tasks leave the count, the new one enters it.
    assert_eq!(kernel.work(), 2);
    assert_eq!(kernel.do_process(0, Event::Start), Action::Continue);
    let process = kernel.process(0).unwrap();
    assert_eq!(process.pc(), (FLASH + 0x81) | 1);
    assert_eq!(process.get_syscall_data(), (FLASH + 0x80, RAM, 0x1000, RAM + 128));
    assert_eq!(process.xpsr(), 0x0100_0000);
    assert_eq!(process.pending_tasks(), 0);
}

#[test]
fn ipc_tasks_are_forwarded() {
    let mut work: usize = 0;
    let (process, _, _) = Process::<SysCall>::create(
        &mut work,
        Some(header(0x1000)),
        FLASH,
        RAM,
        0x10000,
        FaultResponse::Panic,
        0,
    );
    let mut process = process.unwrap();
    let init = process.dequeue_task(&mut work);
    assert!(matches!(init, Some(Task::FunctionCall(_))));
    process.schedule_ipc(&mut work, AppId::new(2), IPCType::Client);
    assert_eq!(work, 1);
    assert_eq!(
        process.dequeue_task(&mut work),
        Some(Task::IPC((AppId::new(2), IPCType::Client)))
    );
    assert_eq!(work, 0);
}

#[test]
fn work_counter_follows_the_queue_and_the_running_process() {
    let mut kernel = kernel_with_one_app(FaultResponse::Panic);
    // One task waits.
    assert_eq!(kernel.work(), 1);
    // It is taken out and becomes a frame: the process runs.
    assert_eq!(kernel.do_process(0, Event::Start), Action::Continue);
    assert_eq!(kernel.work(), 1);
    let sp = kernel.process(0).unwrap().sp();
    // Two calls are queued while it runs.
    let call = FunctionCall { r0: 0, r1: 0, r2: 0, r3: 0, pc: 0x700 };
    assert!(kernel.schedule(0, call));
    assert!(kernel.schedule(0, call));
    assert_eq!(kernel.work(), 3);
    // A call for an empty slot is no work.
    assert!(!kernel.schedule(1, call));
    assert!(!kernel.schedule(17, call));
    assert_eq!(kernel.work(), 3);
    // It yields.
    assert_eq!(syscall(&mut kernel, sp, 0, [0; 4]), Action::Continue);
    assert_eq!(kernel.work(), 2);
    // Each call is taken out and put on the stack, and yielded from.
    for left in [1usize, 0] {
        assert_eq!(kernel.do_process(0, Event::Start), Action::Continue);
        assert_eq!(kernel.work(), left + 1);
        let sp = kernel.process(0).unwrap().sp();
        assert_eq!(syscall(&mut kernel, sp, 0, [0; 4]), Action::Continue);
        assert_eq!(kernel.work(), left);
    }
    assert!(kernel.processes_blocked());
    assert_eq!(kernel.do_process(0, Event::Start), Action::Break);
}

fn ordered(process: &Process<SysCall>) -> bool {
    process.mem_start() <= process.sp()
        && process.sp() <= process.app_break()
        && process.app_break() <= process.kernel_memory_break()
        && process.kernel_memory_break() <= process.mem_end()
}

#[test]
fn pointers_stay_ordered_through_the_steps() {
    let mut kernel = kernel_with_one_app(FaultResponse::Restart);
    assert!(ordered(kernel.process(0).unwrap()));
    let sp = start(&mut kernel);
    assert!(ordered(kernel.process(0).unwrap()));
    // The break is moved up, and memory is taken from the kernel's part.
    assert_eq!(syscall(&mut kernel, sp, 4, [1, 0x400, 0, 0]), Action::Continue);
    assert_eq!(kernel.process(0).unwrap().app_break(), RAM + 128 + 0x400);
    assert!(ordered(kernel.process(0).unwrap()));
    assert!(kernel.allocate(0, 0x100).is_ok());
    assert!(ordered(kernel.process(0).unwrap()));
    // A break above the kernel's is refused, and a break below the stack
    // pointer is not asked for here.
    let above = kernel.process(0).unwrap().kernel_memory_break() + 1;
    assert_eq!(syscall(&mut kernel, sp, 4, [0, above, 0, 0]), Action::Continue);
    assert_eq!(kernel.process(0).unwrap().get_syscall_data().0 as isize, -9);
    assert!(ordered(kernel.process(0).unwrap()));
    // Yield, a queued call, and a fault.
    assert_eq!(syscall(&mut kernel, sp, 0, [0; 4]), Action::Continue);
    assert!(ordered(kernel.process(0).unwrap()));
    assert!(kernel.schedule(0, FunctionCall { r0: 0, r1: 0, r2: 0, r3: 0, pc: 0x900 }));
    assert_eq!(kernel.do_process(0, Event::Start), Action::Continue);
    assert!(ordered(kernel.process(0).unwrap()));
    let sp = kernel.process(0).unwrap().sp();
    let fault = Event::Returned { stack_pointer: sp, reason: ContextSwitchReason::Fault };
    assert!(kernel.can_do_process(0, fault));
    assert_eq!(kernel.do_process(0, fault), Action::Continue);
    assert!(ordered(kernel.process(0).unwrap()));
}

#[test]
fn kernel_break_only_moves_down_until_restart() {
    let mut kernel = kernel_with_one_app(FaultResponse::Restart);
    let top = kernel.process(0).unwrap().kernel_memory_break();
    let mut last = top;
    let sp = start(&mut kernel);
    for size in [0usize, 8, 64, 1] {
        assert!(kernel.allocate(0, size).is_ok());
        let now = kernel.process(0).unwrap().kernel_memory_break();
        assert_eq!(now, last - size);
        last = now;
        let _ = syscall(&mut kernel, sp, 4, [1, 16, 0, 0]);
        let _ = syscall(&mut kernel, sp, 2, [0, 0, 0, 0]);
        let _ = kernel.do_process(0, Event::DriverAbsent);
        assert_eq!(kernel.process(0).unwrap().kernel_memory_break(), last);
    }
    assert!(kernel.allocate(0, 0x10_0000).is_err());
    assert_eq!(kernel.process(0).unwrap().kernel_memory_break(), last);
    assert!(last < top);
    let _ = kernel.do_process(
        0,
        Event::Returned { stack_pointer: sp, reason: ContextSwitchReason::Fault },
    );
    assert_eq!(kernel.process(0).unwrap().kernel_memory_break(), top);
}

#[test]
fn steps_that_are_not_allowed_are_told() {
    let mut kernel = kernel_with_one_app(FaultResponse::Panic);
    assert!(!kernel.can_do_process(1, Event::Start));
    assert!(!kernel.can_do_process(9, Event::Start));
    assert!(kernel.can_do_process(0, Event::Start));
    let sp = start(&mut kernel);
    // A fault of a process that is not to be started again stops the kernel.
    let fault = Event::Returned { stack_pointer: sp, reason: ContextSwitchReason::Fault };
    assert!(!kernel.can_do_process(0, fault));
    // A system call whose frame does not lie in the process's RAM.
    let mem_end = kernel.process(0).unwrap().mem_end();
    let outside =
        Event::Returned { stack_pointer: mem_end - 8, reason: ContextSwitchReason::SyscallFired };
    assert!(!kernel.can_do_process(0, outside));
    let inside = Event::Returned {
        stack_pointer: mem_end - FRAME_SIZE,
        reason: ContextSwitchReason::SyscallFired,
    };
    assert!(kernel.can_do_process(0, inside));
    let other = Event::Returned { stack_pointer: 0, reason: ContextSwitchReason::Other };
    assert!(kernel.can_do_process(0, other));
    assert_eq!(kernel.do_process(0, other), Action::Break);
    assert!(!kernel.can_do_process(0, Event::DriverAbsent));
    assert!(!kernel.can_do_process(0, Event::DriverReturned { result: ReturnCode::SUCCESS }));
    assert!(kernel::sched::time_slice_over(true, false, true));
    assert!(kernel::sched::time_slice_over(false, true, true));
    assert!(kernel::sched::time_slice_over(false, false, false));
    assert!(!kernel::sched::time_slice_over(false, false, true));
    assert!(!kernel.may_sleep(false));
    assert!(!kernel.may_sleep(true));
}

#[test]
fn loaded_applications_share_no_memory() {
    let mut kernel: Kernel<SysCall> = Kernel::new(3, flash_with_svcs());
    let err = load_processes(
        &mut kernel,
        vec![Some(header(0x1000)), Some(header(0x800)), Some(header(0x2000))],
        FLASH,
        RAM,
        0x10000,
        FaultResponse::Panic,
    );
    assert_eq!(err, None);
    for a in 0..3 {
        for b in 0..3 {
            if a != b {
                let p = kernel.process(a).unwrap();
                let q = kernel.process(b).unwrap();
                assert!(p.mem_end() <= q.mem_start() || q.mem_end() <= p.mem_start());
                assert!(p.flash_end() <= q.flash_start() || q.flash_end() <= p.flash_start());
            }
        }
    }
    assert!(kernel.may_sleep(false) == false);
}
