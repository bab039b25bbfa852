//! What holds of the kernel whatever the applications and the drivers do:
//! statements about the operations of the other modules, each with its
//! proof.

use vstd::prelude::*;
use crate::callback::AppId;
use crate::math::is_power_of_two;
use crate::math::lemma_log2_floor_pow2;
use crate::memop::MEMOP_BRK;
use crate::memop::MEMOP_SBRK;
use crate::memory::in_bounds;
use crate::memory::lemma_with_word_in;
use crate::memory::lemma_word_width;
use crate::memory::with_word_in;
use crate::memory::word_in;
use crate::memory::WORD_SIZE;
use crate::mpu::RegionRequest;
use crate::process::lemma_with_grants_nulled;
use crate::process::FaultResponse;
use crate::process::ProcessView;
use crate::process::State;
use crate::process::Task;
use crate::process::INITIAL_APP_MEMORY;
use crate::sched::kernel_step;
use crate::sched::lemma_total_pending_update;
use crate::sched::step_allowed;
use crate::sched::step_process;
use crate::sched::Event;
use crate::sched::KernelView;
use crate::syscall::lemma_pushed_frame;
use crate::syscall::ContextSwitchReason;
use crate::syscall::Syscall;
use crate::syscall::SyscallInterface;
use crate::syscall::FRAME_SIZE;
use crate::syscall::INITIAL_PSR;

verus! {

/// The result that is written into a frame is the result that is read back
/// from it: a system call that returns `value` leaves `value` in the first
/// argument register, read as a signed number.
pub proof fn return_value_round_trip(base: int, bytes: Seq<u8>, sp: int, value: isize)
    requires
        in_bounds(base, bytes, sp, WORD_SIZE as int),
    ensures
        word_in(base, with_word_in(base, bytes, sp, value as usize), sp) as isize == value,
{
    lemma_with_word_in(base, bytes, sp, value as usize);
    assert((value as usize) as isize == value) by (bit_vector);
}

/// A system call's result, as the process finds it in word 0 of its frame.
pub proof fn process_return_value_round_trip<R>(process: ProcessView<R>, value: isize)
    requires
        process.frame_in_ram(),
    ensures
        process.with_return_value(value).frame_word(0) as isize == value,
        process.with_return_value(value).current_stack_pointer == process.current_stack_pointer,
{
    lemma_word_width();
    return_value_round_trip(
        process.ram_base as int,
        process.ram,
        process.current_stack_pointer as int,
        value,
    );
}

/// The boundaries that a process was created with are in order.
pub open spec fn originals_ordered<R>(process: ProcessView<R>) -> bool {
    process.mem_start() <= process.original_stack_pointer <= process.original_app_break
        <= process.original_kernel_memory_break <= process.mem_end()
}

/// What the application does with its own stack pointer and break is its
/// own affair, and the kernel takes both as they come. The order of the
/// boundaries can only be kept where the application keeps it: where the
/// stack pointer that it stops with lies in its part of the RAM, where the
/// frame that a yield takes off lies below its break, and where it does not
/// move its break below its stack pointer.
pub open spec fn application_keeps_order<S: SyscallInterface>(
    process: ProcessView<S::StoredState>,
    flash_base: usize,
    flash: Seq<u8>,
    event: Event,
) -> bool {
    match event {
        Event::Returned { stack_pointer, reason } => {
            let number = S::syscall_number(
                process.ram_base as int,
                process.ram,
                flash_base as int,
                flash,
                stack_pointer as int,
            );
            let stopped = process.with_stack_pointer(stack_pointer);
            let op_type = stopped.frame_word(0);
            let argument = stopped.frame_word(1);
            &&& process.mem_start() <= stack_pointer <= process.app_break
            &&& reason == ContextSwitchReason::SyscallFired && number == Some(Syscall::YIELD)
                ==> stack_pointer + FRAME_SIZE <= process.app_break
            &&& reason == ContextSwitchReason::SyscallFired && number == Some(Syscall::MEMOP)
                && op_type == MEMOP_BRK ==> argument >= stack_pointer
            &&& reason == ContextSwitchReason::SyscallFired && number == Some(Syscall::MEMOP)
                && op_type == MEMOP_SBRK ==> process.app_break + (argument as isize)
                >= stack_pointer
        },
        _ => true,
    }
}

/// Pointer ordering. A step of the scheduler keeps the boundaries of a
/// process in order, bottom of RAM, stack pointer, application's break,
/// kernel's break, top of RAM, as long as the application keeps its stack
/// pointer and its break in order itself.
pub proof fn step_keeps_pointers_ordered<S: SyscallInterface>(
    process: ProcessView<S::StoredState>,
    work: usize,
    flash_base: usize,
    flash: Seq<u8>,
    app_id: AppId,
    event: Event,
)
    requires
        process.wf(),
        process.pointers_ordered(),
        originals_ordered(process),
        step_allowed(process, work, event),
        application_keeps_order::<S>(process, flash_base, flash, event),
    ensures
        step_process::<S>(process, work, flash_base, flash, app_id, event).0.pointers_ordered(),
        originals_ordered(step_process::<S>(process, work, flash_base, flash, app_id, event).0),
{
    lemma_word_width();
    let after = step_process::<S>(process, work, flash_base, flash, app_id, event).0;
    match event {
        Event::Start => {
            if process.state == State::Running || process.tasks.len() == 0 {
                assert(after == process);
            } else {
                match process.tasks[0] {
                    Task::FunctionCall(call) => {
                        assert(process.can_push());
                        lemma_pushed_frame(
                            process.ram_base as int,
                            process.ram,
                            process.current_stack_pointer as int,
                            call,
                            process.yield_pc,
                            process.psr,
                        );
                        assert(after == process.dequeued().pushed(call));
                        assert(after.current_stack_pointer == process.current_stack_pointer
                            - FRAME_SIZE);
                    },
                    Task::IPC(_) => {
                        assert(after == process.dequeued());
                    },
                }
            }
        },
        Event::Returned { stack_pointer, reason } => {
            let stopped = process.with_stack_pointer(stack_pointer);
            assert(stopped.pointers_ordered());
            match reason {
                ContextSwitchReason::Fault => {
                    assert(stopped.grant_ptrs_num * WORD_SIZE <= stopped.ram.len());
                    lemma_with_grants_nulled(
                        stopped.ram_base as int,
                        stopped.ram,
                        stopped.grant_ptrs_num as nat,
                    );
                    assert(after == stopped.restarted());
                },
                ContextSwitchReason::Other => {
                    assert(after == stopped);
                },
                ContextSwitchReason::SyscallFired => {
                    let number = S::syscall_number(
                        stopped.ram_base as int,
                        stopped.ram,
                        flash_base as int,
                        flash,
                        stopped.current_stack_pointer as int,
                    );
                    let counted = stopped.with_syscall_counted(number);
                    assert(counted.pointers_ordered());
                    match number {
                        Some(Syscall::YIELD) => {
                            assert(after == counted.yielded().popped());
                        },
                        Some(Syscall::MEMOP) => {
                            let op_type = stopped.frame_word(0);
                            let argument = stopped.frame_word(1);
                            let moved = crate::memop::after_memop(counted, op_type, argument);
                            assert(moved.pointers_ordered());
                            lemma_with_word_in(
                                moved.ram_base as int,
                                moved.ram,
                                moved.current_stack_pointer as int,
                                (crate::memop::memop_result(counted, op_type, argument).code()
                                    as isize) as usize,
                            );
                            assert(after.app_break == moved.app_break);
                        },
                        _ => {
                            assert(after == counted);
                        },
                    }
                },
            }
        },
        Event::DriverAbsent => {
            lemma_with_word_in(
                process.ram_base as int,
                process.ram,
                process.current_stack_pointer as int,
                (crate::returncode::ReturnCode::ENODEVICE.code() as isize) as usize,
            );
        },
        Event::DriverReturned { result } => {
            lemma_with_word_in(
                process.ram_base as int,
                process.ram,
                process.current_stack_pointer as int,
                (result.code() as isize) as usize,
            );
        },
    }
}

/// Pointer ordering, for memory that drivers take: taking memory from the
/// kernel's part of the RAM, for a grant or otherwise, keeps the boundaries
/// of the process in order.
pub proof fn alloc_keeps_pointers_ordered<R>(process: ProcessView<R>, grant_num: int, size: int)
    requires
        process.wf(),
        process.pointers_ordered(),
        0 <= size,
        0 <= grant_num < process.grant_ptrs_num,
    ensures
        process.after_alloc(size).pointers_ordered(),
        process.after_grant_for_or_alloc(grant_num, size).pointers_ordered(),
{
    lemma_word_width();
    assert((grant_num + 1) * WORD_SIZE <= process.grant_ptrs_num * WORD_SIZE) by (nonlinear_arith)
        requires
            grant_num + 1 <= process.grant_ptrs_num,
            WORD_SIZE > 0,
    ;
    assert((grant_num + 1) * WORD_SIZE >= WORD_SIZE) by (nonlinear_arith)
        requires
            grant_num >= 0,
            WORD_SIZE > 0,
    ;
    if process.alloc_result(size) is Some {
        lemma_with_word_in(
            process.ram_base as int,
            process.ram,
            process.grant_slot(grant_num),
            process.alloc_result(size)->0,
        );
    }
}

/// Pointer ordering, at creation: a new process has its boundaries in
/// order if its RAM has room for the application's initial memory below
/// what the kernel keeps.
pub proof fn created_pointers_ordered<R>(
    stored_regs: R,
    header: crate::tbfheader::TbfHeader,
    flash_start: usize,
    ram_base: usize,
    ram_size: usize,
    overhead: usize,
    fault_response: FaultResponse,
    grant_ptrs_num: usize,
)
    requires
        ram_base + ram_size <= usize::MAX,
        INITIAL_APP_MEMORY + overhead <= ram_size,
    ensures
        ProcessView::created(
            stored_regs,
            ContextSwitchReason::Other,
            header,
            flash_start,
            ram_base,
            ram_size,
            overhead,
            fault_response,
            grant_ptrs_num,
        ).pointers_ordered(),
        originals_ordered(
            ProcessView::created(
                stored_regs,
                ContextSwitchReason::Other,
                header,
                flash_start,
                ram_base,
                ram_size,
                overhead,
                fault_response,
                grant_ptrs_num,
            ),
        ),
{
}

/// Grant monotonicity. The kernel's break never moves up while a process
/// lives: taking memory moves it down or leaves it, and no step of the
/// scheduler moves it but the one that starts the process again after a
/// fault, which puts it back where it was when the process was created.
pub proof fn kernel_break_never_rises<S: SyscallInterface>(
    process: ProcessView<S::StoredState>,
    work: usize,
    flash_base: usize,
    flash: Seq<u8>,
    app_id: AppId,
    event: Event,
    grant_num: int,
    size: int,
)
    requires
        process.wf(),
        0 <= size,
    ensures
        process.after_alloc(size).kernel_memory_break <= process.kernel_memory_break,
        process.after_grant_for_or_alloc(grant_num, size).kernel_memory_break
            <= process.kernel_memory_break,
        !(event matches Event::Returned { reason: ContextSwitchReason::Fault, .. }) ==> step_process::<
            S,
        >(process, work, flash_base, flash, app_id, event).0.kernel_memory_break
            == process.kernel_memory_break,
        event matches Event::Returned { reason: ContextSwitchReason::Fault, .. } ==> step_process::<
            S,
        >(process, work, flash_base, flash, app_id, event).0.kernel_memory_break
            == process.original_kernel_memory_break,
        process.kernel_memory_break <= process.original_kernel_memory_break,
{
}

/// Memory that is taken from the kernel's part of a process's RAM is never
/// handed out twice: what is taken lies just below what was taken before.
pub proof fn alloc_never_overlaps<R>(process: ProcessView<R>, first: int, second: int)
    requires
        process.wf(),
        0 <= first,
        0 <= second,
        process.alloc_result(first) is Some,
        process.after_alloc(first).alloc_result(second) is Some,
    ensures
        process.after_alloc(first).alloc_result(second)->0 + second <= process.alloc_result(
            first,
        )->0,
        process.alloc_result(first)->0 + first == process.kernel_memory_break,
{
}

/// Work-counter balance. The count of work is exact, that is, equal to the
/// number of tasks that wait plus the number of processes that run, after a
/// step of the scheduler if it was before. A queued call and a frame put on
/// the stack each add one; a task taken out and a yield from running each
/// take one.
///
/// The one step that is left out is the restart of a process that faulted
/// while it was running: the count keeps the unit of the running process.
pub proof fn step_keeps_work_balanced<S: SyscallInterface>(
    kernel: KernelView<S::StoredState>,
    idx: int,
    event: Event,
)
    requires
        kernel.wf(),
        kernel.has_process(idx),
        kernel.balanced(),
        step_allowed(kernel.process(idx), kernel.work, event),
        !(event matches Event::Returned { reason: ContextSwitchReason::Fault, .. }
            && kernel.process(idx).state == State::Running),
    ensures
        kernel_step::<S>(kernel, idx, event).0.balanced(),
{
    let process = kernel.process(idx);
    let stepped = step_process::<S>(
        process,
        kernel.work,
        kernel.flash_base,
        kernel.flash,
        AppId { idx: idx as usize },
        event,
    );
    lemma_total_pending_update(kernel.processes, idx, Some(stepped.0));
    assert(stepped.1 - stepped.0.pending_work() == kernel.work - process.pending_work());
}

/// A step of the scheduler leaves a well-formed process well formed.
pub proof fn step_keeps_process_well_formed<S: SyscallInterface>(
    process: ProcessView<S::StoredState>,
    work: usize,
    flash_base: usize,
    flash: Seq<u8>,
    app_id: AppId,
    event: Event,
)
    requires
        process.wf(),
        work >= process.pending_work(),
        step_allowed(process, work, event),
    ensures
        step_process::<S>(process, work, flash_base, flash, app_id, event).0.wf(),
        0 <= step_process::<S>(process, work, flash_base, flash, app_id, event).1 <= usize::MAX,
        step_process::<S>(process, work, flash_base, flash, app_id, event).1 - step_process::<S>(
            process,
            work,
            flash_base,
            flash,
            app_id,
            event,
        ).0.pending_work() >= work - process.pending_work(),
{
    lemma_word_width();
    let after = step_process::<S>(process, work, flash_base, flash, app_id, event).0;
    match event {
        Event::Start => {
            if process.state == State::Running || process.tasks.len() == 0 {
            } else {
                match process.tasks[0] {
                    Task::FunctionCall(call) => {
                        lemma_pushed_frame(
                            process.ram_base as int,
                            process.ram,
                            process.current_stack_pointer as int,
                            call,
                            process.yield_pc,
                            process.psr,
                        );
                        assert(after == process.dequeued().pushed(call));
                    },
                    Task::IPC(_) => {
                        assert(after == process.dequeued());
                    },
                }
            }
        },
        Event::Returned { stack_pointer, reason } => {
            let stopped = process.with_stack_pointer(stack_pointer);
            assert(stopped.wf());
            match reason {
                ContextSwitchReason::Fault => {
                    assert(stopped.grant_ptrs_num * WORD_SIZE <= stopped.ram.len());
                    lemma_with_grants_nulled(
                        stopped.ram_base as int,
                        stopped.ram,
                        stopped.grant_ptrs_num as nat,
                    );
                    assert(after == stopped.restarted());
                },
                ContextSwitchReason::Other => {},
                ContextSwitchReason::SyscallFired => {
                    let number = S::syscall_number(
                        stopped.ram_base as int,
                        stopped.ram,
                        flash_base as int,
                        flash,
                        stopped.current_stack_pointer as int,
                    );
                    let counted = stopped.with_syscall_counted(number);
                    assert(counted.wf());
                    match number {
                        Some(Syscall::YIELD) => {
                            assert(after == counted.yielded().popped());
                        },
                        Some(Syscall::MEMOP) => {
                            let op_type = stopped.frame_word(0);
                            let argument = stopped.frame_word(1);
                            let moved = crate::memop::after_memop(counted, op_type, argument);
                            assert(moved.wf());
                            lemma_with_word_in(
                                moved.ram_base as int,
                                moved.ram,
                                moved.current_stack_pointer as int,
                                (crate::memop::memop_result(counted, op_type, argument).code()
                                    as isize) as usize,
                            );
                        },
                        _ => {
                            assert(after == counted);
                        },
                    }
                },
            }
        },
        Event::DriverAbsent => {
            lemma_with_word_in(
                process.ram_base as int,
                process.ram,
                process.current_stack_pointer as int,
                (crate::returncode::ReturnCode::ENODEVICE.code() as isize) as usize,
            );
        },
        Event::DriverReturned { result } => {
            lemma_with_word_in(
                process.ram_base as int,
                process.ram,
                process.current_stack_pointer as int,
                (result.code() as isize) as usize,
            );
        },
    }
}

/// A step of the scheduler leaves a well-formed kernel well formed.
pub proof fn step_keeps_kernel_well_formed<S: SyscallInterface>(
    kernel: KernelView<S::StoredState>,
    idx: int,
    event: Event,
)
    requires
        kernel.wf(),
        kernel.has_process(idx),
        step_allowed(kernel.process(idx), kernel.work, event),
    ensures
        kernel_step::<S>(kernel, idx, event).0.wf(),
        kernel_step::<S>(kernel, idx, event).0.processes.len() == kernel.processes.len(),
{
    let process = kernel.process(idx);
    let stepped = step_process::<S>(
        process,
        kernel.work,
        kernel.flash_base,
        kernel.flash,
        AppId { idx: idx as usize },
        event,
    );
    lemma_total_pending_update(kernel.processes, idx, Some(stepped.0));
    step_keeps_process_well_formed::<S>(
        process,
        kernel.work,
        kernel.flash_base,
        kernel.flash,
        AppId { idx: idx as usize },
        event,
    );
    let after = kernel_step::<S>(kernel, idx, event).0;
    assert forall|i: int| after.has_process(i) implies (#[trigger] after.process(i)).wf() by {
        if i != idx {
            assert(kernel.has_process(i));
            assert(after.process(i) == kernel.process(i));
        }
    }
}

/// Something that changes the count of work: a step of the scheduler for
/// the process in a slot, or a task handed to the process in a slot.
pub enum Transition {
    Step { idx: usize, event: Event },
    Schedule { idx: usize, task: Task },
}

/// Whether the transition may be taken: a step has to be allowed, and the
/// count must have room for a task.
pub open spec fn transition_allowed<R>(kernel: KernelView<R>, transition: Transition) -> bool {
    match transition {
        Transition::Step { idx, event } => {
            &&& kernel.has_process(idx as int)
            &&& step_allowed(kernel.process(idx as int), kernel.work, event)
            &&& !(event matches Event::Returned { reason: ContextSwitchReason::Fault, .. }
                && kernel.process(idx as int).state == State::Running)
        },
        Transition::Schedule { idx, task } => kernel.work < usize::MAX,
    }
}

/// The kernel after the transition.
pub open spec fn after_transition<S: SyscallInterface>(
    kernel: KernelView<S::StoredState>,
    transition: Transition,
) -> KernelView<S::StoredState> {
    match transition {
        Transition::Step { idx, event } => kernel_step::<S>(kernel, idx as int, event).0,
        Transition::Schedule { idx, task } => kernel.scheduled(idx as int, task),
    }
}

/// Whether the transitions of `run` may be taken one after the other.
pub open spec fn run_allowed<S: SyscallInterface>(
    kernel: KernelView<S::StoredState>,
    run: Seq<Transition>,
) -> bool
    decreases run.len(),
{
    if run.len() == 0 {
        true
    } else {
        transition_allowed(kernel, run[0]) && run_allowed::<S>(
            after_transition::<S>(kernel, run[0]),
            run.drop_first(),
        )
    }
}

/// The kernel after the transitions of `run` were taken one after the
/// other.
pub open spec fn after_run<S: SyscallInterface>(
    kernel: KernelView<S::StoredState>,
    run: Seq<Transition>,
) -> KernelView<S::StoredState>
    decreases run.len(),
{
    if run.len() == 0 {
        kernel
    } else {
        after_run::<S>(after_transition::<S>(kernel, run[0]), run.drop_first())
    }
}

/// Work-counter balance, over a run. After any finite run of steps of the
/// scheduler and of tasks handed to processes, the count of work is exact if
/// it was at the start: what the queued tasks and the frames put on stacks
/// have added is what the tasks taken out and the yields have taken, but
/// for the tasks that still wait and the processes that still run.
pub proof fn run_keeps_work_balanced<S: SyscallInterface>(
    kernel: KernelView<S::StoredState>,
    run: Seq<Transition>,
)
    requires
        kernel.wf(),
        kernel.balanced(),
        run_allowed::<S>(kernel, run),
    ensures
        after_run::<S>(kernel, run).wf(),
        after_run::<S>(kernel, run).balanced(),
    decreases run.len(),
{
    if run.len() > 0 {
        let next = after_transition::<S>(kernel, run[0]);
        match run[0] {
            Transition::Step { idx, event } => {
                step_keeps_kernel_well_formed::<S>(kernel, idx as int, event);
                step_keeps_work_balanced::<S>(kernel, idx as int, event);
            },
            Transition::Schedule { idx, task } => {
                schedule_keeps_work_balanced(kernel, idx as int, task);
                schedule_keeps_kernel_well_formed(kernel, idx as int, task);
            },
        }
        run_keeps_work_balanced::<S>(next, run.drop_first());
    }
}

/// A task handed to a process leaves a well-formed kernel well formed.
pub proof fn schedule_keeps_kernel_well_formed<R>(kernel: KernelView<R>, idx: int, task: Task)
    requires
        kernel.wf(),
        kernel.work < usize::MAX,
    ensures
        kernel.scheduled(idx, task).wf(),
{
    if kernel.has_process(idx) {
        let after = kernel.scheduled(idx, task);
        lemma_total_pending_update(
            kernel.processes,
            idx,
            Some(kernel.process(idx).scheduled(task)),
        );
        assert forall|i: int| after.has_process(i) implies (#[trigger] after.process(i)).wf() by {
            if i != idx {
                assert(kernel.has_process(i));
                assert(after.process(i) == kernel.process(i));
            }
        }
    }
}

/// Work-counter balance, for calls that drivers queue: the count stays
/// exact when a task is handed to a process, whether the process queues it
/// or drops it.
pub proof fn schedule_keeps_work_balanced<R>(kernel: KernelView<R>, idx: int, task: Task)
    requires
        kernel.balanced(),
        kernel.work < usize::MAX,
    ensures
        kernel.scheduled(idx, task).balanced(),
{
    if kernel.has_process(idx) {
        lemma_total_pending_update(
            kernel.processes,
            idx,
            Some(kernel.process(idx).scheduled(task)),
        );
    }
}

/// MPU validity. Every region for a shared buffer that a process asks the
/// protection unit for is at least 16 bytes long, its size is a power of
/// two, and its base is a multiple of its size.
pub proof fn installed_ipc_regions_valid<R>(process: ProcessView<R>, i: int)
    requires
        process.wf(),
        3 <= i < 8,
    ensures
        process.mpu_plan()[i] matches RegionRequest::Region { index, base, len, .. } ==> {
            &&& index == i
            &&& len >= 16
            &&& is_power_of_two(len as int)
            &&& base as int % (len as int) == 0
        },
        process.mpu_plan()[i] matches RegionRequest::Empty { index } ==> index == i,
{
    let region = process.mpu_regions[i - 3];
    assert(region.valid());
    assert(process.mpu_plan()[i] == process.ipc_region_request(i - 3));
    vstd::arithmetic::power2::lemma2_to64();
    if region.size.exponent() < 31 {
        vstd::arithmetic::power2::lemma_pow2_strictly_increases(region.size.exponent(), 31);
    }
}

/// MPU validity, for the table: a region that is taken into the table of
/// shared regions leaves every entry of the table valid.
pub proof fn add_mpu_region_keeps_regions_valid<R>(process: ProcessView<R>, base: usize, size: u32)
    requires
        process.mpu_regions_valid(),
    ensures
        process.after_add_mpu_region(base, size).mpu_regions_valid(),
{
    let after = process.after_add_mpu_region(base, size);
    if process.add_mpu_region_result(base, size) {
        let e = choose|e: nat| e < 32 && size == #[trigger] vstd::arithmetic::power2::pow2(e);
        lemma_log2_floor_pow2(e);
        let slot = crate::process::usable_region(process.mpu_regions, base, 0);
        crate::process::lemma_usable_region_bounds(process.mpu_regions, base, 0);
        assert(after.mpu_regions.len() == process.mpu_regions.len());
        assert forall|i: int| 0 <= i < after.mpu_regions.len() implies (
        #[trigger] after.mpu_regions[i]).valid() by {
            assert(process.mpu_regions[i].valid());
            if i == slot {
            } else {
                assert(after.mpu_regions[i] == process.mpu_regions[i]);
            }
        }
    }
}

/// The process in slot `a` and the process in slot `b` share no byte of
/// flash and no byte of RAM.
pub open spec fn windows_apart<R>(kernel: KernelView<R>, a: int, b: int) -> bool {
    let p = kernel.process(a);
    let q = kernel.process(b);
    &&& p.mem_end() <= q.mem_start() || q.mem_end() <= p.mem_start()
    &&& p.flash_end() <= q.flash_start || q.flash_end() <= p.flash_start
}

/// No two processes share a byte of flash or of RAM.
pub open spec fn all_windows_apart<R>(kernel: KernelView<R>) -> bool {
    forall|a: int, b: int|
        kernel.has_process(a) && kernel.has_process(b) && a != b ==> #[trigger] windows_apart(
            kernel,
            a,
            b,
        )
}

/// The processes in the slots below `i` lie in the flash below `flash` and
/// in the RAM below `mem`, and no two of them share a byte; the slots from
/// `i` on are empty.
pub open spec fn loaded_below<R>(kernel: KernelView<R>, i: int, flash: int, mem: int) -> bool {
    &&& forall|a: int|
        kernel.has_process(a) ==> a < i && (#[trigger] kernel.process(a)).mem_end() <= mem
            && kernel.process(a).flash_end() <= flash
    &&& all_windows_apart(kernel)
}

/// Separation. The applications that are loaded into an empty kernel get
/// windows of flash and of RAM that do not overlap: no application's image
/// and no application's RAM shares a byte with another's.
pub proof fn loaded_windows_apart<S: SyscallInterface>(
    kernel: KernelView<S::StoredState>,
    headers: Seq<Option<crate::tbfheader::TbfHeader>>,
    start_of_flash: usize,
    app_memory: usize,
    app_memory_size: usize,
    fault_response: FaultResponse,
)
    requires
        forall|a: int| !kernel.has_process(a),
    ensures
        all_windows_apart(
            crate::sched::loaded_from::<S>(
                kernel,
                headers,
                0,
                start_of_flash as int,
                app_memory as int,
                app_memory_size as int,
                fault_response,
            ).0,
        ),
{
    loading_keeps_windows_apart::<S>(
        kernel,
        headers,
        0,
        start_of_flash as int,
        app_memory as int,
        app_memory_size as int,
        fault_response,
    );
}

/// Separation, step by step: if the processes in the slots below `i` lie
/// apart, in the flash below `flash` and in the RAM below `mem`, then so do
/// all processes after the loading has gone on from slot `i`.
pub proof fn loading_keeps_windows_apart<S: SyscallInterface>(
    kernel: KernelView<S::StoredState>,
    headers: Seq<Option<crate::tbfheader::TbfHeader>>,
    i: int,
    flash: int,
    mem: int,
    mem_size: int,
    fault_response: FaultResponse,
)
    requires
        0 <= i,
        0 <= flash <= usize::MAX,
        0 <= mem <= usize::MAX,
        0 <= mem_size <= usize::MAX,
        loaded_below(kernel, i, flash, mem),
    ensures
        all_windows_apart(
            crate::sched::loaded_from::<S>(
                kernel,
                headers,
                i,
                flash,
                mem,
                mem_size,
                fault_response,
            ).0,
        ),
    decreases kernel.processes.len() - i,
{
    if i >= kernel.processes.len() || i >= headers.len() || headers[i] is None {
    } else {
        let header = headers[i]->0;
        let overhead = crate::process::kernel_overhead::<S>(kernel.grant_counter as int);
        let minimum = if header.minimum_app_ram_size < overhead {
            overhead
        } else {
            header.minimum_app_ram_size as int
        };
        let ram_size = crate::process::app_ram_size(header.minimum_app_ram_size as int, overhead);
        let error = crate::process::creation_error::<S>(
            header,
            flash as usize,
            mem as usize,
            mem_size as usize,
            kernel.grant_counter,
        );
        if error is Some {
        } else if header.is_app && header.enabled {
            crate::math::lemma_closest_exists(minimum);
            let process = ProcessView::created(
                S::initial_stored_state_spec(),
                ContextSwitchReason::Other,
                header,
                flash as usize,
                mem as usize,
                ram_size as usize,
                overhead as usize,
                fault_response,
                kernel.grant_counter,
            );
            let next = kernel.with_process(i, process, kernel.work + 1);
            assert(process.mem_start() == mem);
            assert(process.mem_end() == mem + ram_size);
            assert(process.flash_start == flash);
            assert(process.flash_end() == flash + header.total_size);
            assert forall|a: int| next.has_process(a) implies a < i + 1 && (
            #[trigger] next.process(a)).mem_end() <= mem + ram_size && next.process(a).flash_end()
                <= flash + header.total_size by {
                if a != i {
                    assert(kernel.has_process(a));
                    assert(next.process(a) == kernel.process(a));
                }
            }
            assert forall|a: int, b: int|
                next.has_process(a) && next.has_process(b) && a != b implies #[trigger] windows_apart(
                next,
                a,
                b,
            ) by {
                if a != i && b != i {
                    assert(kernel.has_process(a) && kernel.has_process(b));
                    assert(windows_apart(kernel, a, b));
                    assert(next.process(a) == kernel.process(a));
                    assert(next.process(b) == kernel.process(b));
                } else if a == i {
                    assert(kernel.has_process(b));
                    assert(next.process(b) == kernel.process(b));
                    assert(kernel.process(b).mem_end() <= mem);
                } else {
                    assert(kernel.has_process(a));
                    assert(next.process(a) == kernel.process(a));
                    assert(kernel.process(a).mem_end() <= mem);
                }
            }
            loading_keeps_windows_apart::<S>(
                next,
                headers,
                i + 1,
                flash + header.total_size,
                mem + ram_size,
                mem_size - ram_size,
                fault_response,
            );
        } else if header.total_size == 0 {
        } else if flash + header.total_size > usize::MAX {
        } else {
            loading_keeps_windows_apart::<S>(
                kernel,
                headers,
                i + 1,
                flash + header.total_size,
                mem,
                mem_size,
                fault_response,
            );
        }
    }
}

/// Restart. A process that was started again after a fault has its
/// boundaries where they were when it was created, no grant allocated, the
/// call of its entry function as its one waiting task, the initial status
/// word, and it waits.
pub proof fn restart_resets<R>(process: ProcessView<R>, grant_num: int)
    requires
        process.wf(),
        0 <= grant_num < process.grant_ptrs_num,
    ensures
        process.restarted().kernel_memory_break == process.original_kernel_memory_break,
        process.restarted().app_break == process.original_app_break,
        process.restarted().current_stack_pointer == process.original_stack_pointer,
        process.restarted().grant_pointer(grant_num) == 0,
        process.restarted().tasks == seq![Task::FunctionCall(process.restarted().init_call())],
        process.restarted().init_call().pc == process.init_fn(),
        process.restarted().state == State::Yielded,
        process.restarted().psr == INITIAL_PSR,
        process.restarted().debug.restart_count == process.debug.restart_count.saturating_add(1),
        process.restarted().wf(),
{
    lemma_word_width();
    assert(process.grant_ptrs_num * WORD_SIZE <= process.ram.len());
    lemma_with_grants_nulled(process.ram_base as int, process.ram, process.grant_ptrs_num as nat);
}

} // verus!
