//! The kernel: the table of processes, the count of work that waits for
//! them, and the decisions of the scheduler.

use vstd::prelude::*;
use crate::callback::AppId;
use crate::callback::Callback;
use crate::mem::AppPtr;
use crate::mem::AppSlice;
use crate::mem::Shared;
use crate::memop::after_memop;
use crate::memop::memop;
use crate::memop::memop_result;
use crate::memory::Memory;
use crate::process::app_ram_size;
use crate::process::creation_error;
use crate::process::kernel_overhead;
use crate::process::FaultResponse;
use crate::process::LoadError;
use crate::process::FunctionCall;
use crate::process::IPCType;
use crate::process::Process;
use crate::process::ProcessView;
use crate::process::State;
use crate::process::Task;
use crate::returncode::ReturnCode;
use crate::syscall::ContextSwitchReason;
use crate::syscall::Syscall;
use crate::syscall::SyscallInterface;
use crate::syscall::FRAME_SIZE;
use crate::tbfheader::TbfHeader;

verus! {

/// How long a process may run before the kernel takes the processor back,
/// in microseconds.
pub const KERNEL_TICK_DURATION_US: u32 = 10000;

/// A process is not switched to when less than this is left of its time,
/// in microseconds.
pub const MIN_QUANTA_THRESHOLD_US: u32 = 500;

/// The buffer that an application names in an `ALLOW` call.
#[derive(Clone, Copy, Debug, PartialEq, Eq)]
pub enum AllowBuffer {
    /// No buffer (the address 0): the application takes back what it had
    /// shared.
    Revoke,
    /// A buffer that lies in the application's RAM.
    Share(AppSlice<Shared>),
    /// A buffer that does not lie in the application's RAM. The driver is
    /// not told of it.
    OutOfBounds,
}

/// What a system call asks of a driver.
#[derive(Clone, Copy, Debug, PartialEq, Eq)]
pub enum DriverCall {
    /// `SUBSCRIBE`: hand the driver a callback, or none to take one back.
    Subscribe { driver_num: usize, subdriver_num: usize, callback: Option<Callback> },
    /// `COMMAND`: have the driver do something.
    Command { driver_num: usize, command_num: usize, arg1: usize, arg2: usize },
    /// `ALLOW`: share a buffer with the driver.
    Allow { driver_num: usize, allow_num: usize, buffer: AllowBuffer },
}

impl DriverCall {
    /// The number of the driver that is asked.
    pub open spec fn driver(self) -> usize {
        match self {
            DriverCall::Subscribe { driver_num, .. } => driver_num,
            DriverCall::Command { driver_num, .. } => driver_num,
            DriverCall::Allow { driver_num, .. } => driver_num,
        }
    }

    /// The answer to a call that an existing driver is not to be told of:
    /// `EINVAL` for a buffer outside the application's RAM.
    pub open spec fn rejected_with(self) -> Option<ReturnCode> {
        match self {
            DriverCall::Allow { buffer: AllowBuffer::OutOfBounds, .. } => Some(ReturnCode::EINVAL),
            _ => None,
        }
    }

    /// The number of the driver that is asked.
    pub fn driver_num(&self) -> (r: usize)
        ensures
            r == self.driver(),
    {
        match self {
            DriverCall::Subscribe { driver_num, .. } => *driver_num,
            DriverCall::Command { driver_num, .. } => *driver_num,
            DriverCall::Allow { driver_num, .. } => *driver_num,
        }
    }

    /// The answer to give in the driver's place, if the driver is not to be
    /// told of the call.
    pub fn rejection(&self) -> (r: Option<ReturnCode>)
        ensures
            r == self.rejected_with(),
    {
        match self {
            DriverCall::Allow { buffer: AllowBuffer::OutOfBounds, .. } => Some(ReturnCode::EINVAL),
            _ => None,
        }
    }
}

/// What has happened to a process since the scheduler was last asked what
/// to do with it.
#[derive(Clone, Copy, Debug, PartialEq, Eq)]
pub enum Event {
    /// Nothing: the scheduler comes to the process, or comes back to it.
    Start,
    /// The process was switched to and has stopped, with this stack pointer
    /// and for this reason.
    Returned { stack_pointer: usize, reason: ContextSwitchReason },
    /// The driver that the process called does not exist.
    DriverAbsent,
    /// The driver that the process called has answered, or the call was
    /// answered in its place.
    DriverReturned { result: ReturnCode },
}

/// What the scheduler is to do next with a process.
#[derive(Clone, Copy, Debug, PartialEq, Eq)]
pub enum Action {
    /// Leave the process and go on to the next.
    Break,
    /// Come back to the process with `Event::Start`, if its time is not up.
    Continue,
    /// Set up the protection unit, switch to the process at this stack
    /// pointer and, when it stops, come back with `Event::Returned`.
    Switch { stack_pointer: usize },
    /// Tell the inter-process service that `app_id` has a notice of an
    /// exchange with `other`, then continue.
    Ipc { app_id: AppId, other: AppId, ipc_type: IPCType },
    /// Look the driver up and make the call, then come back with
    /// `Event::DriverReturned`, or with `Event::DriverAbsent` if there is no
    /// such driver.
    Driver { app_id: AppId, call: DriverCall },
}

/// Whether the scheduler may bring `event` to a process in this state: the
/// process has not faulted when the scheduler comes to it, a fault is only
/// brought to a process that is to be started again, and the frames that
/// are read or written lie in the process's RAM.
pub open spec fn step_allowed<R>(process: ProcessView<R>, work: usize, event: Event) -> bool {
    match event {
        Event::Start => {
            &&& process.state != State::Fault
            &&& process.state == State::Yielded && process.tasks.len() > 0
                && process.tasks[0] is FunctionCall ==> process.can_push()
        },
        Event::Returned { stack_pointer, reason } => match reason {
            ContextSwitchReason::Fault => {
                &&& process.fault_response == FaultResponse::Restart
                &&& process.tasks.len() == 0 ==> work < usize::MAX
            },
            ContextSwitchReason::SyscallFired => process.in_ram(
                stack_pointer as int,
                FRAME_SIZE as int,
            ),
            ContextSwitchReason::Other => true,
        },
        Event::DriverAbsent => process.frame_in_ram(),
        Event::DriverReturned { .. } => process.frame_in_ram(),
    }
}

/// What the scheduler does when it comes to a process: a running process is
/// switched to; a waiting one gets its oldest task, which for a call means a
/// frame on its stack, and is left alone if it has none.
pub open spec fn step_start<R>(process: ProcessView<R>, work: usize, app_id: AppId) -> (
    ProcessView<R>,
    int,
    Action,
) {
    if process.state == State::Running {
        (process, work as int, Action::Switch { stack_pointer: process.current_stack_pointer })
    } else if process.tasks.len() == 0 {
        (process, work as int, Action::Break)
    } else {
        match process.tasks[0] {
            Task::FunctionCall(call) => (
                process.dequeued().pushed(call),
                work as int,
                Action::Continue,
            ),
            Task::IPC((other, ipc_type)) => (
                process.dequeued(),
                work - 1,
                Action::Ipc { app_id, other, ipc_type },
            ),
        }
    }
}

/// What the scheduler does with the system call whose frame is at the
/// process's stack pointer.
pub open spec fn step_syscall<S: SyscallInterface>(
    process: ProcessView<S::StoredState>,
    work: usize,
    flash_base: usize,
    flash: Seq<u8>,
    app_id: AppId,
) -> (ProcessView<S::StoredState>, int, Action) {
    let number = S::syscall_number(
        process.ram_base as int,
        process.ram,
        flash_base as int,
        flash,
        process.current_stack_pointer as int,
    );
    let counted = process.with_syscall_counted(number);
    let r0 = process.frame_word(0);
    let r1 = process.frame_word(1);
    let r2 = process.frame_word(2);
    let r3 = process.frame_word(3);
    match number {
        Some(Syscall::MEMOP) => (
            after_memop(counted, r0, r1).with_return_value(
                memop_result(counted, r0, r1).code() as isize,
            ),
            work as int,
            Action::Continue,
        ),
        Some(Syscall::YIELD) => (
            counted.yielded().popped(),
            work - if counted.state == State::Running {
                1int
            } else {
                0int
            },
            Action::Continue,
        ),
        Some(Syscall::SUBSCRIBE) => (
            counted,
            work as int,
            Action::Driver {
                app_id,
                call: DriverCall::Subscribe {
                    driver_num: r0,
                    subdriver_num: r1,
                    callback: if r2 != 0 {
                        Some(Callback { app_id, appdata: r3, fn_ptr: r2 })
                    } else {
                        None
                    },
                },
            },
        ),
        Some(Syscall::COMMAND) => (
            counted,
            work as int,
            Action::Driver {
                app_id,
                call: DriverCall::Command { driver_num: r0, command_num: r1, arg1: r2, arg2: r3 },
            },
        ),
        Some(Syscall::ALLOW) => (
            counted,
            work as int,
            Action::Driver {
                app_id,
                call: DriverCall::Allow {
                    driver_num: r0,
                    allow_num: r1,
                    buffer: if r2 == 0 {
                        AllowBuffer::Revoke
                    } else if counted.in_exposed_bounds(r2 as int, r3 as int) {
                        AllowBuffer::Share(
                            AppSlice {
                                ptr: AppPtr { ptr: r2, process: app_id, kind: Shared },
                                len: r3,
                            },
                        )
                    } else {
                        AllowBuffer::OutOfBounds
                    },
                },
            },
        ),
        None => (counted, work as int, Action::Continue),
    }
}

/// What the scheduler does when a process has stopped: it keeps the stack
/// pointer, starts a faulted process again, serves a system call, and
/// leaves a process whose time is up.
pub open spec fn step_returned<S: SyscallInterface>(
    process: ProcessView<S::StoredState>,
    work: usize,
    flash_base: usize,
    flash: Seq<u8>,
    app_id: AppId,
    stack_pointer: usize,
    reason: ContextSwitchReason,
) -> (ProcessView<S::StoredState>, int, Action) {
    let stopped = process.with_stack_pointer(stack_pointer);
    match reason {
        ContextSwitchReason::Fault => (
            stopped.restarted(),
            work - stopped.tasks.len() + 1,
            Action::Continue,
        ),
        ContextSwitchReason::Other => (stopped, work as int, Action::Break),
        ContextSwitchReason::SyscallFired => step_syscall::<S>(
            stopped,
            work,
            flash_base,
            flash,
            app_id,
        ),
    }
}

/// One step of the scheduler for one process: the process and the count of
/// work afterwards, and what to do next.
pub open spec fn step_process<S: SyscallInterface>(
    process: ProcessView<S::StoredState>,
    work: usize,
    flash_base: usize,
    flash: Seq<u8>,
    app_id: AppId,
    event: Event,
) -> (ProcessView<S::StoredState>, int, Action) {
    match event {
        Event::Start => step_start(process, work, app_id),
        Event::Returned { stack_pointer, reason } => step_returned::<S>(
            process,
            work,
            flash_base,
            flash,
            app_id,
            stack_pointer,
            reason,
        ),
        Event::DriverAbsent => (
            process.with_return_value(ReturnCode::ENODEVICE.code() as isize),
            work as int,
            Action::Continue,
        ),
        Event::DriverReturned { result } => (
            process.with_return_value(result.code() as isize),
            work as int,
            Action::Continue,
        ),
    }
}

/// Takes one step of the scheduler for `process`.
fn do_process_step<S: SyscallInterface>(
    process: &mut Process<S>,
    work: &mut usize,
    flash: &Memory,
    app_id: AppId,
    event: Event,
) -> (r: Action)
    requires
        old(process).wf(),
        flash.wf(),
        *old(work) >= old(process)@.pending_work(),
        step_allowed(old(process)@, *old(work), event),
    ensures
        final(process).wf(),
        final(process)@ =~= step_process::<S>(
            old(process)@,
            *old(work),
            flash.base(),
            flash@,
            app_id,
            event,
        ).0,
        *final(work) == step_process::<S>(
            old(process)@,
            *old(work),
            flash.base(),
            flash@,
            app_id,
            event,
        ).1,
        r == step_process::<S>(old(process)@, *old(work), flash.base(), flash@, app_id, event).2,
        *final(work) - final(process)@.pending_work() >= *old(work) - old(process)@.pending_work(),
{
    match event {
        Event::Start => match process.current_state() {
            State::Running => Action::Switch { stack_pointer: process.sp() },
            State::Yielded => match process.dequeue_task(work) {
                None => Action::Break,
                Some(Task::FunctionCall(call)) => {
                    process.push_function_call(work, call);
                    Action::Continue
                },
                Some(Task::IPC((other, ipc_type))) => Action::Ipc { app_id, other, ipc_type },
            },
            State::Fault => Action::Break,
        },
        Event::Returned { stack_pointer, reason } => {
            process.set_stack_pointer(stack_pointer);
            match reason {
                ContextSwitchReason::Fault => {
                    process.fault_state(work);
                    Action::Continue
                },
                ContextSwitchReason::Other => Action::Break,
                ContextSwitchReason::SyscallFired => {
                    let svc_number = process.get_syscall_number(flash);
                    let (r0, r1, r2, r3) = process.get_syscall_data();
                    process.incr_syscall_count(svc_number);
                    match svc_number {
                        Some(Syscall::MEMOP) => {
                            let res = memop(process, r0, r1);
                            process.set_syscall_return_value(isize::from(res));
                            Action::Continue
                        },
                        Some(Syscall::YIELD) => {
                            process.yield_state(work);
                            process.pop_syscall_stack();
                            Action::Continue
                        },
                        Some(Syscall::SUBSCRIBE) => {
                            let callback = if r2 != 0 {
                                Some(Callback::new(app_id, r3, r2))
                            } else {
                                None
                            };
                            Action::Driver {
                                app_id,
                                call: DriverCall::Subscribe {
                                    driver_num: r0,
                                    subdriver_num: r1,
                                    callback,
                                },
                            }
                        },
                        Some(Syscall::COMMAND) => Action::Driver {
                            app_id,
                            call: DriverCall::Command {
                                driver_num: r0,
                                command_num: r1,
                                arg1: r2,
                                arg2: r3,
                            },
                        },
                        Some(Syscall::ALLOW) => {
                            let buffer = if r2 == 0 {
                                AllowBuffer::Revoke
                            } else if process.in_exposed_bounds(r2, r3) {
                                AllowBuffer::Share(AppSlice::new(r2, r3, app_id, Shared))
                            } else {
                                AllowBuffer::OutOfBounds
                            };
                            Action::Driver {
                                app_id,
                                call: DriverCall::Allow { driver_num: r0, allow_num: r1, buffer },
                            }
                        },
                        None => Action::Continue,
                    }
                },
            }
        },
        Event::DriverAbsent => {
            process.set_syscall_return_value(isize::from(ReturnCode::ENODEVICE));
            Action::Continue
        },
        Event::DriverReturned { result } => {
            process.set_syscall_return_value(isize::from(result));
            Action::Continue
        },
    }
}

/// Whether the scheduler is to leave a process before it takes another
/// step with it: an interrupt waits to be served, or the process's time is
/// up, or so little of it is left that a switch is not worth it.
pub fn time_slice_over(pending_interrupts: bool, overflowed: bool, above_threshold: bool) -> (r:
    bool)
    ensures
        r == (pending_interrupts || overflowed || !above_threshold),
{
    pending_interrupts || overflowed || !above_threshold
}

/// One step of the scheduler for the process in slot `idx`: the kernel
/// afterwards, and what to do next.
pub open spec fn kernel_step<S: SyscallInterface>(
    kernel: KernelView<S::StoredState>,
    idx: int,
    event: Event,
) -> (KernelView<S::StoredState>, Action) {
    let stepped = step_process::<S>(
        kernel.process(idx),
        kernel.work,
        kernel.flash_base,
        kernel.flash,
        AppId { idx: idx as usize },
        event,
    );
    (kernel.with_process(idx, stepped.0, stepped.1), stepped.2)
}

/// The kernel after the applications were loaded from slot `i` on, and the
/// error that stopped the loading, if one did. `headers[i]` is what was read
/// of the header of the image at `flash`; the RAM that is left starts at
/// `mem` and has `mem_size` bytes.
///
/// An application goes into slot `i`, and the image after it is for slot
/// `i + 1`. Padding and disabled applications leave their slot empty. The
/// loading ends where there is no header, or an image of no size.
pub open spec fn loaded_from<S: SyscallInterface>(
    kernel: KernelView<S::StoredState>,
    headers: Seq<Option<TbfHeader>>,
    i: int,
    flash: int,
    mem: int,
    mem_size: int,
    fault_response: FaultResponse,
) -> (KernelView<S::StoredState>, Option<LoadError>)
    decreases kernel.processes.len() - i,
{
    if i < 0 || i >= kernel.processes.len() || i >= headers.len() || headers[i] is None {
        (kernel, None)
    } else {
        let header = headers[i]->0;
        let overhead = kernel_overhead::<S>(kernel.grant_counter as int);
        let ram_size = app_ram_size(header.minimum_app_ram_size as int, overhead);
        let error = creation_error::<S>(
            header,
            flash as usize,
            mem as usize,
            mem_size as usize,
            kernel.grant_counter,
        );
        if error is Some {
            (kernel, error)
        } else if header.is_app && header.enabled {
            loaded_from::<S>(
                kernel.with_process(
                    i,
                    ProcessView::created(
                        S::initial_stored_state_spec(),
                        ContextSwitchReason::Other,
                        header,
                        flash as usize,
                        mem as usize,
                        ram_size as usize,
                        overhead as usize,
                        fault_response,
                        kernel.grant_counter,
                    ),
                    kernel.work + 1,
                ),
                headers,
                i + 1,
                flash + header.total_size,
                mem + ram_size,
                mem_size - ram_size,
                fault_response,
            )
        } else if header.total_size == 0 {
            (kernel, None)
        } else if flash + header.total_size > usize::MAX {
            (kernel, Some(LoadError::OutOfRange))
        } else {
            loaded_from::<S>(
                kernel,
                headers,
                i + 1,
                flash + header.total_size,
                mem,
                mem_size,
                fault_response,
            )
        }
    }
}

/// Loads the applications whose images lie in flash from `start_of_flash`
/// on, one after the other, into the slots of the kernel from the first on,
/// and gives them RAM from `app_memory` on, of which there are
/// `app_memory_size` bytes. `headers[i]` is what was read of the header of
/// the `i`-th image; `None` where no valid header was found.
///
/// The answer is why an application cannot be loaded, if one cannot: the
/// applications before it are loaded then, and nothing after them.
pub fn load_processes<S: SyscallInterface>(
    kernel: &mut Kernel<S>,
    headers: Vec<Option<TbfHeader>>,
    start_of_flash: usize,
    app_memory: usize,
    app_memory_size: usize,
    fault_response: FaultResponse,
) -> (r: Option<LoadError>)
    requires
        old(kernel).wf(),
        old(kernel)@.work + old(kernel)@.processes.len() <= usize::MAX,
    ensures
        final(kernel).wf(),
        final(kernel)@ =~= loaded_from::<S>(
            old(kernel)@,
            headers@,
            0,
            start_of_flash as int,
            app_memory as int,
            app_memory_size as int,
            fault_response,
        ).0,
        r == loaded_from::<S>(
            old(kernel)@,
            headers@,
            0,
            start_of_flash as int,
            app_memory as int,
            app_memory_size as int,
            fault_response,
        ).1,
{
    let ghost all_headers = headers@;
    let ghost goal = loaded_from::<S>(
        kernel@,
        all_headers,
        0,
        start_of_flash as int,
        app_memory as int,
        app_memory_size as int,
        fault_response,
    );
    let mut left = headers;
    let mut apps_in_flash_ptr = start_of_flash;
    let mut app_memory_ptr = app_memory;
    let mut app_memory_left = app_memory_size;
    let slots = kernel.number_of_process_slots();
    let mut i: usize = 0;
    while i < slots && i < left.len()
        invariant
            kernel.wf(),
            slots == kernel@.processes.len(),
            i <= slots,
            left@.len() == all_headers.len(),
            forall|j: int| i <= j < left@.len() ==> left@[j] == all_headers[j],
            kernel@.work + (slots - i) <= usize::MAX,
            all_headers == headers@,
            goal == loaded_from::<S>(
                old(kernel)@,
                all_headers,
                0,
                start_of_flash as int,
                app_memory as int,
                app_memory_size as int,
                fault_response,
            ),
            goal == loaded_from::<S>(
                kernel@,
                all_headers,
                i as int,
                apps_in_flash_ptr as int,
                app_memory_ptr as int,
                app_memory_left as int,
                fault_response,
            ),
        decreases slots - i,
    {
        let header = left[i].take();
        let tbf_header = match header {
            Some(h) => h,
            None => {
                return None;
            },
        };
        let error = Process::<S>::check_create(
            &tbf_header,
            apps_in_flash_ptr,
            app_memory_ptr,
            app_memory_left,
            kernel.grant_counter,
        );
        if error.is_some() {
            return error;
        }
        let is_app = tbf_header.is_app() && tbf_header.enabled();
        let total_size = tbf_header.get_total_size() as usize;
        if !is_app && total_size == 0 {
            return None;
        }
        if !is_app && total_size > usize::MAX - apps_in_flash_ptr {
            return Some(LoadError::OutOfRange);
        }
        let ghost before = *kernel;
        let (process, flash_offset, memory_offset) = Process::<S>::create(
            &mut kernel.work,
            Some(tbf_header),
            apps_in_flash_ptr,
            app_memory_ptr,
            app_memory_left,
            fault_response,
            kernel.grant_counter,
        );
        if process.is_some() {
            kernel.processes[i] = process;
            proof {
                kernel.lemma_slot_changed(&before, i as int);
                crate::math::lemma_closest_exists(
                    if all_headers[i as int]->0.minimum_app_ram_size < kernel_overhead::<S>(
                        kernel@.grant_counter as int,
                    ) {
                        kernel_overhead::<S>(kernel@.grant_counter as int)
                    } else {
                        all_headers[i as int]->0.minimum_app_ram_size as int
                    },
                );
            }
        }
        apps_in_flash_ptr = apps_in_flash_ptr + flash_offset;
        app_memory_ptr = app_memory_ptr + memory_offset;
        app_memory_left = app_memory_left - memory_offset;
        i = i + 1;
    }
    None
}

/// The work that the process in a slot accounts for; none for an empty slot.
pub open spec fn pending_of<R>(slot: Option<ProcessView<R>>) -> nat {
    match slot {
        Some(process) => process.pending_work(),
        None => 0,
    }
}

/// The work that all the processes account for together.
pub open spec fn total_pending<R>(processes: Seq<Option<ProcessView<R>>>) -> nat
    decreases processes.len(),
{
    if processes.len() == 0 {
        0
    } else {
        total_pending(processes.drop_last()) + pending_of(processes.last())
    }
}

/// When one slot changes, the total changes by what that slot's share
/// changes.
pub proof fn lemma_total_pending_update<R>(
    processes: Seq<Option<ProcessView<R>>>,
    idx: int,
    slot: Option<ProcessView<R>>,
)
    requires
        0 <= idx < processes.len(),
    ensures
        total_pending(processes.update(idx, slot)) == total_pending(processes) - pending_of(
            processes[idx],
        ) + pending_of(slot),
        pending_of(processes[idx]) <= total_pending(processes),
    decreases processes.len(),
{
    let updated = processes.update(idx, slot);
    if idx == processes.len() - 1 {
        assert(updated.drop_last() =~= processes.drop_last());
    } else {
        lemma_total_pending_update(processes.drop_last(), idx, slot);
        assert(updated.drop_last() =~= processes.drop_last().update(idx, slot));
    }
}

/// The state of the kernel, as the contracts speak of it.
#[verifier::ext_equal]
pub struct KernelView<R> {
    /// The count of work: the tasks that wait, and the processes that run.
    pub work: usize,
    /// The table of processes.
    pub processes: Seq<Option<ProcessView<R>>>,
    /// The address of the first byte of flash.
    pub flash_base: usize,
    /// The flash, byte by byte.
    pub flash: Seq<u8>,
    /// The number of kinds of grant that were created.
    pub grant_counter: usize,
}

impl<R> KernelView<R> {
    /// Whether there is a process in slot `idx`.
    pub open spec fn has_process(self, idx: int) -> bool {
        0 <= idx < self.processes.len() && self.processes[idx] is Some
    }

    /// The process in slot `idx`.
    pub open spec fn process(self, idx: int) -> ProcessView<R> {
        self.processes[idx]->0
    }

    /// What holds of the kernel at all times: every process is well formed,
    /// and the count of work covers what the processes account for.
    pub open spec fn wf(self) -> bool {
        &&& self.flash_base + self.flash.len() <= usize::MAX
        &&& forall|i: int| self.has_process(i) ==> (#[trigger] self.process(i)).wf()
        &&& self.work >= total_pending(self.processes)
    }

    /// The count of work is exactly what the processes account for.
    pub open spec fn balanced(self) -> bool {
        self.work == total_pending(self.processes)
    }

    /// The kernel after `task` was handed to the process in slot `idx`: the
    /// process has queued or dropped it, and a queued task counts as work.
    /// With no process in the slot nothing changes.
    pub open spec fn scheduled(self, idx: int, task: Task) -> Self {
        if self.has_process(idx) {
            self.with_process(
                idx,
                self.process(idx).scheduled(task),
                if self.process(idx).accepts_task() {
                    self.work + 1
                } else {
                    self.work as int
                },
            )
        } else {
            self
        }
    }

    /// The kernel after the process in slot `idx` was asked to take `len`
    /// bytes at `base`, which belong to another process, into its table of
    /// shared regions.
    pub open spec fn with_mpu_region(self, idx: int, owner: int, base: usize, len: usize) -> Self {
        if idx != owner && self.has_process(idx) && len <= u32::MAX {
            self.with_process(
                idx,
                self.process(idx).after_add_mpu_region(base, len as u32),
                self.work as int,
            )
        } else {
            self
        }
    }

    /// Whether the grant with the number `grant_num` has been allocated for
    /// the process in slot `idx`.
    pub open spec fn materialised(self, idx: int, grant_num: usize) -> bool {
        &&& self.has_process(idx)
        &&& grant_num < self.process(idx).grant_ptrs_num
        &&& self.process(idx).grant_pointer(grant_num as int) != 0
    }

    /// The first slot from `from` on whose process has the grant with the
    /// number `grant_num` allocated; the number of slots where there is none.
    pub open spec fn first_materialised(self, grant_num: usize, from: int) -> int
        decreases self.processes.len() - from,
    {
        if from < 0 || from >= self.processes.len() {
            self.processes.len() as int
        } else if self.materialised(from, grant_num) {
            from
        } else {
            self.first_materialised(grant_num, from + 1)
        }
    }

    /// What `grant_for_or_alloc` answers for the process in slot `idx`: the
    /// address of the grant, `NoSuchApp` for an empty slot, and
    /// `OutOfMemory` where the process has no room for the grant, be it in
    /// its table or in its RAM.
    pub open spec fn grant_for_or_alloc_result(self, idx: int, grant_num: usize, size: usize)
        -> Result<usize, crate::process::Error> {
        if !self.has_process(idx) {
            Err(crate::process::Error::NoSuchApp)
        } else if grant_num >= self.process(idx).grant_ptrs_num {
            Err(crate::process::Error::OutOfMemory)
        } else {
            match self.process(idx).grant_for_or_alloc_result(grant_num as int, size as int) {
                Some(ptr) => Ok(ptr),
                None => Err(crate::process::Error::OutOfMemory),
            }
        }
    }

    /// The kernel after `grant_for_or_alloc` for the process in slot `idx`.
    pub open spec fn after_grant_for_or_alloc(self, idx: int, grant_num: usize, size: usize)
        -> Self {
        if self.has_process(idx) && grant_num < self.process(idx).grant_ptrs_num {
            self.with_process(
                idx,
                self.process(idx).after_grant_for_or_alloc(grant_num as int, size as int),
                self.work as int,
            )
        } else {
            self
        }
    }

    /// What `allocate` answers for the process in slot `idx`.
    pub open spec fn allocate_result(self, idx: int, size: usize) -> Result<
        usize,
        crate::process::Error,
    > {
        if !self.has_process(idx) {
            Err(crate::process::Error::NoSuchApp)
        } else {
            match self.process(idx).alloc_result(size as int) {
                Some(ptr) => Ok(ptr),
                None => Err(crate::process::Error::OutOfMemory),
            }
        }
    }

    /// The kernel after `allocate` for the process in slot `idx`.
    pub open spec fn after_allocate(self, idx: int, size: usize) -> Self {
        if self.has_process(idx) {
            self.with_process(
                idx,
                self.process(idx).after_alloc(size as int),
                self.work as int,
            )
        } else {
            self
        }
    }

    /// Whether `store_bytes` stores `len` bytes at `addr` for the process in
    /// slot `idx`: there has to be such a process, and the bytes have to lie
    /// in its RAM.
    pub open spec fn can_store(self, idx: int, addr: usize, len: int) -> bool {
        self.has_process(idx) && self.process(idx).in_ram(addr as int, len)
    }

    /// The kernel after `data` was stored at `addr` in the RAM of the
    /// process in slot `idx`, if it can be stored there.
    pub open spec fn with_bytes_stored(self, idx: int, addr: usize, data: Seq<u8>) -> Self {
        if self.can_store(idx, addr, data.len() as int) {
            self.with_process(
                idx,
                ProcessView {
                    ram: crate::memory::with_bytes_in(
                        self.process(idx).ram_base as int,
                        self.process(idx).ram,
                        addr as int,
                        data,
                    ),
                    ..self.process(idx)
                },
                self.work as int,
            )
        } else {
            self
        }
    }

    /// The kernel with `process` in slot `idx` and the count `work`.
    pub open spec fn with_process(self, idx: int, process: ProcessView<R>, work: int) -> Self {
        KernelView {
            work: work as usize,
            processes: self.processes.update(idx, Some(process)),
            ..self
        }
    }
}

/// The kernel. A board makes one.
pub struct Kernel<S: SyscallInterface> {
    /// How many things there are to do: the tasks that wait in the queues,
    /// and the processes that are running.
    work: usize,
    /// The processes, each in its slot.
    processes: Vec<Option<Process<S>>>,
    /// The flash that the applications' images lie in.
    flash: Memory,
    /// The number of kinds of grant that were created.
    grant_counter: usize,
}

impl<S: SyscallInterface> View for Kernel<S> {
    type V = KernelView<S::StoredState>;

    closed spec fn view(&self) -> KernelView<S::StoredState> {
        KernelView {
            work: self.work,
            processes: Seq::new(
                self.processes@.len(),
                |i: int|
                    match self.processes@[i] {
                        Some(process) => Some(process@),
                        None => None,
                    },
            ),
            flash_base: self.flash.base(),
            flash: self.flash@,
            grant_counter: self.grant_counter,
        }
    }
}

impl<S: SyscallInterface> Kernel<S> {
    /// Every process record is consistent in itself.
    pub closed spec fn inv(&self) -> bool {
        forall|i: int|
            0 <= i < self.processes@.len() && self.processes@[i] is Some ==> (
            #[trigger] self.processes@[i])->0.inv()
    }

    /// The kernel is well formed.
    pub open spec fn wf(&self) -> bool {
        self.inv() && self@.wf()
    }

    /// A kernel with `slots` empty slots for processes, for applications
    /// whose images lie in `flash`.
    pub fn new(slots: usize, flash: Memory) -> (k: Kernel<S>)
        requires
            flash.wf(),
        ensures
            k.wf(),
            k@.balanced(),
            k@.work == 0,
            k@.processes == Seq::new(slots as nat, |i: int| None::<ProcessView<S::StoredState>>),
            k@.flash_base == flash.base(),
            k@.flash == flash@,
            k@.grant_counter == 0,
    {
        let mut processes: Vec<Option<Process<S>>> = Vec::new();
        let mut i: usize = 0;
        while i < slots
            invariant
                i <= slots,
                processes@.len() == i,
                forall|j: int| 0 <= j < i ==> processes@[j] is None,
            decreases slots - i,
        {
            processes.push(None);
            i = i + 1;
        }
        let k = Kernel { work: 0, processes, flash, grant_counter: 0 };
        proof {
            assert(k@.processes =~= Seq::new(
                slots as nat,
                |i: int| None::<ProcessView<S::StoredState>>,
            ));
            lemma_total_pending_empty::<S::StoredState>(k@.processes);
        }
        k
    }

    /// One more thing to do.
    pub fn increment_work(&mut self)
        requires
            old(self)@.work < usize::MAX,
        ensures
            final(self).inv() == old(self).inv(),
            final(self)@ == (KernelView { work: (old(self)@.work + 1) as usize, ..old(self)@ }),
    {
        self.work = self.work + 1;
    }

    /// One thing less to do.
    pub fn decrement_work(&mut self)
        requires
            old(self)@.work > 0,
        ensures
            final(self).inv() == old(self).inv(),
            final(self)@ == (KernelView { work: (old(self)@.work - 1) as usize, ..old(self)@ }),
    {
        self.work = self.work - 1;
    }

    /// Whether there is nothing to do, so that the processor may sleep.
    pub fn processes_blocked(&self) -> (r: bool)
        ensures
            r == (self@.work == 0),
    {
        self.work == 0
    }

    /// Whether the processor may sleep after all processes were visited:
    /// there is nothing to do, and no interrupt waits to be served.
    pub fn may_sleep(&self, pending_interrupts: bool) -> (r: bool)
        ensures
            r == (self@.work == 0 && !pending_interrupts),
    {
        !pending_interrupts && self.processes_blocked()
    }

    /// The count of work.
    pub fn work(&self) -> (r: usize)
        ensures
            r == self@.work,
    {
        self.work
    }

    /// The number of slots for processes.
    pub fn number_of_process_slots(&self) -> (r: usize)
        ensures
            r == self@.processes.len(),
    {
        self.processes.len()
    }

    /// Whether there is a process in slot `idx`.
    pub fn has_process(&self, idx: usize) -> (r: bool)
        ensures
            r == self@.has_process(idx as int),
    {
        idx < self.processes.len() && self.processes[idx].is_some()
    }

    /// The process in slot `idx`, if there is one.
    pub fn process(&self, idx: usize) -> (r: Option<&Process<S>>)
        ensures
            r is Some == self@.has_process(idx as int),
            r is Some ==> r->0@ == self@.process(idx as int) && (self.wf() ==> r->0.wf()),
    {
        if idx < self.processes.len() {
            self.processes[idx].as_ref()
        } else {
            None
        }
    }

    /// Queues a call of a function of the application in slot `idx`, and
    /// says whether it was queued: not where the slot is empty, where the
    /// process has faulted, or where its queue is full.
    pub fn schedule(&mut self, idx: usize, callback: FunctionCall) -> (r: bool)
        requires
            old(self).wf(),
            old(self)@.work < usize::MAX,
        ensures
            final(self).wf(),
            r == (old(self)@.has_process(idx as int) && old(self)@.process(
                idx as int,
            ).accepts_task()),
            final(self)@ =~= old(self)@.scheduled(idx as int, Task::FunctionCall(callback)),
            old(self)@.balanced() ==> final(self)@.balanced(),
    {
        if idx >= self.processes.len() {
            return false;
        }
        let r = match &mut self.processes[idx] {
            Some(process) => process.schedule(&mut self.work, callback),
            None => false,
        };
        proof {
            self.lemma_slot_changed(old(self), idx as int);
        }
        r
    }

    /// Takes `len` bytes at `base` into the table of shared regions of the
    /// process in slot `idx`, and says whether that was done.
    pub fn add_mpu_region(&mut self, idx: usize, base: usize, len: usize) -> (r: bool)
        requires
            old(self).wf(),
        ensures
            final(self).wf(),
            r == (old(self)@.has_process(idx as int) && len <= u32::MAX && old(self)@.process(
                idx as int,
            ).add_mpu_region_result(base, len as u32)),
            final(self)@ =~= (if old(self)@.has_process(idx as int) && len <= u32::MAX {
                old(self)@.with_process(
                    idx as int,
                    old(self)@.process(idx as int).after_add_mpu_region(base, len as u32),
                    old(self)@.work as int,
                )
            } else {
                old(self)@
            }),
    {
        if idx >= self.processes.len() || len > u32::MAX as usize {
            return false;
        }
        let r = match &mut self.processes[idx] {
            Some(process) => process.add_mpu_region(base, len as u32),
            None => false,
        };
        proof {
            self.lemma_slot_changed(old(self), idx as int);
        }
        r
    }

    /// Whether `do_process` may be called for slot `idx` with `event`: there
    /// is a process in the slot, and the event may be brought to it.
    pub fn can_do_process(&self, idx: usize, event: Event) -> (r: bool)
        requires
            self.wf(),
        ensures
            r == (self@.has_process(idx as int) && step_allowed(
                self@.process(idx as int),
                self@.work,
                event,
            )),
    {
        let process = match self.process(idx) {
            Some(process) => process,
            None => {
                return false;
            },
        };
        match event {
            Event::Start => match process.current_state() {
                State::Fault => false,
                State::Running => true,
                State::Yielded => match process.next_task() {
                    Some(Task::FunctionCall(_)) => process.can_push_frame(),
                    _ => true,
                },
            },
            Event::Returned { stack_pointer, reason } => match reason {
                ContextSwitchReason::Fault => {
                    match process.fault_response() {
                        FaultResponse::Panic => false,
                        FaultResponse::Restart => process.pending_tasks() > 0 || self.work
                            < usize::MAX,
                    }
                },
                ContextSwitchReason::SyscallFired => process.memory().in_range(
                    stack_pointer,
                    FRAME_SIZE,
                ),
                ContextSwitchReason::Other => true,
            },
            Event::DriverAbsent => process.frame_in_memory(),
            Event::DriverReturned { .. } => process.frame_in_memory(),
        }
    }

    /// Takes one step of the scheduler for the process in slot `idx`: says
    /// what the scheduler is to do next with the process, given what has
    /// happened to it since the last step.
    pub fn do_process(&mut self, idx: usize, event: Event) -> (r: Action)
        requires
            old(self).wf(),
            old(self)@.has_process(idx as int),
            step_allowed(old(self)@.process(idx as int), old(self)@.work, event),
        ensures
            final(self).wf(),
            final(self)@ =~= kernel_step::<S>(old(self)@, idx as int, event).0,
            r == kernel_step::<S>(old(self)@, idx as int, event).1,
    {
        proof {
            lemma_total_pending_update(self@.processes, idx as int, None);
        }
        let r = match &mut self.processes[idx] {
            Some(process) => do_process_step(
                process,
                &mut self.work,
                &self.flash,
                AppId::new(idx),
                event,
            ),
            None => Action::Break,
        };
        proof {
            self.lemma_slot_changed(old(self), idx as int);
        }
        r
    }

    /// Makes a new kind of grant and answers with its number. Grants are to
    /// be made before the processes: a process has a pointer for each kind
    /// that there was when it was created.
    pub fn create_grant_number(&mut self) -> (r: usize)
        requires
            old(self)@.grant_counter < usize::MAX,
        ensures
            final(self).inv() == old(self).inv(),
            r == old(self)@.grant_counter,
            final(self)@ == (KernelView {
                grant_counter: (old(self)@.grant_counter + 1) as usize,
                ..old(self)@
            }),
    {
        let r = self.grant_counter;
        self.grant_counter = self.grant_counter + 1;
        r
    }

    /// The address of the grant with the number `grant_num` of the process
    /// in slot `idx`, allocated now with `size` bytes if it was not
    /// allocated before.
    pub fn grant_for_or_alloc(&mut self, idx: usize, grant_num: usize, size: usize) -> (r: Result<
        usize,
        crate::process::Error,
    >)
        requires
            old(self).wf(),
        ensures
            final(self).wf(),
            r == old(self)@.grant_for_or_alloc_result(idx as int, grant_num, size),
            final(self)@ =~= old(self)@.after_grant_for_or_alloc(idx as int, grant_num, size),
    {
        if idx >= self.processes.len() {
            return Err(crate::process::Error::NoSuchApp);
        }
        let r = match &mut self.processes[idx] {
            Some(process) => {
                if grant_num >= process.grant_ptrs_num() {
                    Err(crate::process::Error::OutOfMemory)
                } else {
                    match process.grant_for_or_alloc(grant_num, size) {
                        Some(ptr) => Ok(ptr),
                        None => Err(crate::process::Error::OutOfMemory),
                    }
                }
            },
            None => Err(crate::process::Error::NoSuchApp),
        };
        proof {
            self.lemma_slot_changed(old(self), idx as int);
        }
        r
    }

    /// Takes `size` bytes from the kernel's part of the RAM of the process
    /// in slot `idx`, and answers with their address.
    pub fn allocate(&mut self, idx: usize, size: usize) -> (r: Result<usize, crate::process::Error>)
        requires
            old(self).wf(),
        ensures
            final(self).wf(),
            r == old(self)@.allocate_result(idx as int, size),
            final(self)@ =~= old(self)@.after_allocate(idx as int, size),
    {
        if idx >= self.processes.len() {
            return Err(crate::process::Error::NoSuchApp);
        }
        let r = match &mut self.processes[idx] {
            Some(process) => match process.allocate(size) {
                Some(ptr) => Ok(ptr),
                None => Err(crate::process::Error::OutOfMemory),
            },
            None => Err(crate::process::Error::NoSuchApp),
        };
        proof {
            self.lemma_slot_changed(old(self), idx as int);
        }
        r
    }

    /// The record of the process in slot `idx`.
    pub closed spec fn record(&self, idx: int) -> Process<S> {
        self.processes@[idx]->0
    }

    /// The view of a record is the process of the view.
    pub proof fn lemma_record_view(&self, idx: int)
        requires
            self@.has_process(idx),
        ensures
            self.record(idx)@ == self@.process(idx),
            self.wf() ==> self.record(idx).wf(),
    {
    }

    /// Runs `closure` on the process in slot `process_index` and answers
    /// with what it answers; `default` where there is no such process.
    pub fn process_map_or<F, R>(&self, default: R, process_index: usize, closure: F) -> (r: R) where
        F: FnOnce(&Process<S>) -> R,

        requires
            self@.has_process(process_index as int) ==> call_requires(
                closure,
                (&self.record(process_index as int),),
            ),
        ensures
            self@.has_process(process_index as int) ==> call_ensures(
                closure,
                (&self.record(process_index as int),),
                r,
            ),
            !self@.has_process(process_index as int) ==> r == default,
    {
        if process_index >= self.processes.len() {
            return default;
        }
        match &self.processes[process_index] {
            Some(process) => closure(process),
            None => default,
        }
    }

    /// Runs `closure` on every process, in the order of the slots.
    pub fn process_each_enumerate<F>(&self, closure: F) where F: Fn(usize, &Process<S>)
        requires
            forall|i: int|
                self@.has_process(i) ==> call_requires(closure, (i as usize, &self.record(i))),
    {
        let mut i: usize = 0;
        while i < self.processes.len()
            invariant
                forall|i: int|
                    self@.has_process(i) ==> call_requires(closure, (i as usize, &self.record(i))),
            decreases self.processes@.len() - i,
        {
            match &self.processes[i] {
                Some(process) => {
                    assert(self@.has_process(i as int));
                    closure(i, process);
                },
                None => {},
            }
            i = i + 1;
        }
    }

    /// Runs `closure` on one process after the other, in the order of the
    /// slots, for as long as it answers `FAIL`, and answers with its first
    /// other answer; with `FAIL` where it has none.
    pub fn process_each_enumerate_stop<F>(&self, closure: F) -> (r: ReturnCode) where
        F: Fn(usize, &Process<S>) -> ReturnCode,

        requires
            forall|i: int|
                self@.has_process(i) ==> call_requires(closure, (i as usize, &self.record(i))),
        ensures
            r != ReturnCode::FAIL ==> exists|i: int|
                {
                    &&& self@.has_process(i)
                    &&& #[trigger] call_ensures(closure, (i as usize, &self.record(i)), r)
                    &&& forall|j: int|
                        0 <= j < i && self@.has_process(j) ==> #[trigger] call_ensures(
                            closure,
                            (j as usize, &self.record(j)),
                            ReturnCode::FAIL,
                        )
                },
            r == ReturnCode::FAIL ==> forall|j: int|
                self@.has_process(j) ==> #[trigger] call_ensures(
                    closure,
                    (j as usize, &self.record(j)),
                    ReturnCode::FAIL,
                ),
    {
        let mut i: usize = 0;
        while i < self.processes.len()
            invariant
                i <= self.processes@.len(),
                forall|i: int|
                    self@.has_process(i) ==> call_requires(closure, (i as usize, &self.record(i))),
                forall|j: int|
                    0 <= j < i && self@.has_process(j) ==> #[trigger] call_ensures(
                        closure,
                        (j as usize, &self.record(j)),
                        ReturnCode::FAIL,
                    ),
            decreases self.processes@.len() - i,
        {
            match &self.processes[i] {
                Some(process) => {
                    assert(self@.has_process(i as int));
                    let ret = closure(i, process);
                    if ret != ReturnCode::FAIL {
                        assert(call_ensures(closure, (i, &self.record(i as int)), ret));
                        return ret;
                    }
                },
                None => {},
            }
            i = i + 1;
        }
        ReturnCode::FAIL
    }

    /// Stores a word in the RAM of the process in slot `idx`, and says
    /// whether it did: not where there is no such process, or where the word
    /// does not lie in its RAM.
    pub fn store_word(&mut self, idx: usize, addr: usize, value: usize) -> (r: bool)
        requires
            old(self).wf(),
        ensures
            final(self).wf(),
            r == (old(self)@.has_process(idx as int) && old(self)@.process(idx as int).in_ram(
                addr as int,
                crate::memory::WORD_SIZE as int,
            )),
            final(self)@ =~= (if r {
                old(self)@.with_process(
                    idx as int,
                    ProcessView {
                        ram: crate::memory::with_word_in(
                            old(self)@.process(idx as int).ram_base as int,
                            old(self)@.process(idx as int).ram,
                            addr as int,
                            value,
                        ),
                        ..old(self)@.process(idx as int)
                    },
                    old(self)@.work as int,
                )
            } else {
                old(self)@
            }),
    {
        if idx >= self.processes.len() {
            return false;
        }
        let r = match &mut self.processes[idx] {
            Some(process) => {
                if process.memory().in_range(addr, crate::memory::WORD_SIZE) {
                    process.store_word(addr, value);
                    true
                } else {
                    false
                }
            },
            None => false,
        };
        proof {
            self.lemma_slot_changed(old(self), idx as int);
        }
        r
    }

    /// Keeps the registers that the process in slot `idx` had when it
    /// stopped, and says whether there is such a process.
    pub fn set_stored_state(&mut self, idx: usize, stored_regs: S::StoredState) -> (r: bool)
        requires
            old(self).wf(),
        ensures
            final(self).wf(),
            r == old(self)@.has_process(idx as int),
            final(self)@ =~= (if r {
                old(self)@.with_process(
                    idx as int,
                    ProcessView { stored_regs, ..old(self)@.process(idx as int) },
                    old(self)@.work as int,
                )
            } else {
                old(self)@
            }),
    {
        if idx >= self.processes.len() {
            return false;
        }
        let r = match &mut self.processes[idx] {
            Some(process) => {
                process.set_stored_state(stored_regs);
                true
            },
            None => false,
        };
        proof {
            self.lemma_slot_changed(old(self), idx as int);
        }
        r
    }

    /// Stores `data` at `addr` in the RAM of the process in slot `idx`, as a
    /// driver does with a buffer that was shared with it, and says whether
    /// it did: not where there is no such process, or where the bytes do not
    /// all lie in its RAM.
    pub fn store_bytes(&mut self, idx: usize, addr: usize, data: &[u8]) -> (r: bool)
        requires
            old(self).wf(),
        ensures
            final(self).wf(),
            r == old(self)@.can_store(idx as int, addr, data@.len() as int),
            final(self)@ =~= old(self)@.with_bytes_stored(idx as int, addr, data@),
    {
        if idx >= self.processes.len() {
            return false;
        }
        assert(self@.has_process(idx as int) ==> self@.process(idx as int).wf());
        let r = match &mut self.processes[idx] {
            Some(process) => {
                if process.memory().in_range(addr, data.len()) {
                    process.store_bytes(addr, data);
                    true
                } else {
                    false
                }
            },
            None => false,
        };
        proof {
            self.lemma_slot_changed(old(self), idx as int);
        }
        r
    }

    /// After a change to slot `idx` alone, the table of the view is the old
    /// one with that slot replaced, and the total of work has changed by
    /// what the slot's share has changed.
    proof fn lemma_slot_changed(&self, before: &Kernel<S>, idx: int)
        requires
            0 <= idx < before.processes@.len(),
            self.processes@.len() == before.processes@.len(),
            forall|j: int|
                0 <= j < before.processes@.len() && j != idx ==> self.processes@[j]
                    == before.processes@[j],
            before.wf(),
            self.processes@[idx] is Some ==> self.processes@[idx]->0.wf(),
            self.flash == before.flash,
            self.grant_counter == before.grant_counter,
        ensures
            self@.processes =~= before@.processes.update(idx, self@.processes[idx]),
            total_pending(self@.processes) == total_pending(before@.processes) - pending_of(
                before@.processes[idx],
            ) + pending_of(self@.processes[idx]),
            pending_of(before@.processes[idx]) <= total_pending(before@.processes),
            self.inv(),
            forall|i: int| self@.has_process(i) ==> (#[trigger] self@.process(i)).wf(),
            self@.flash_base == before@.flash_base,
            self@.flash == before@.flash,
            self@.grant_counter == before@.grant_counter,
    {
        assert(self@.processes =~= before@.processes.update(idx, self@.processes[idx]));
        lemma_total_pending_update(before@.processes, idx, self@.processes[idx]);
        assert forall|i: int| self@.has_process(i) implies (#[trigger] self@.process(i)).wf() by {
            if i != idx {
                assert(before@.has_process(i));
                assert(self@.process(i) == before@.process(i));
            }
        }
        assert forall|i: int|
            0 <= i < self.processes@.len() && self.processes@[i] is Some implies (
        #[trigger] self.processes@[i])->0.inv() by {
            if i != idx {
                assert(before.processes@[i]->0.inv());
            }
        }
    }

    /// The flash that the applications' images lie in.
    pub fn flash(&self) -> (r: &Memory)
        ensures
            r.base() == self@.flash_base,
            r@ == self@.flash,
    {
        &self.flash
    }
}

/// Empty slots account for no work.
pub proof fn lemma_total_pending_empty<R>(processes: Seq<Option<ProcessView<R>>>)
    requires
        forall|i: int| 0 <= i < processes.len() ==> processes[i] is None,
    ensures
        total_pending(processes) == 0,
    decreases processes.len(),
{
    if processes.len() > 0 {
        lemma_total_pending_empty(processes.drop_last());
    }
}

} // verus!
