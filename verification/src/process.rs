//! Processes: one per loaded application. A process record owns the
//! application's RAM and keeps the boundaries inside it, the queue of work
//! waiting for the application, and what the kernel has to remember while
//! the application is not running.

use vstd::prelude::*;
use vstd::layout::size_of;
use vstd::std_specs::convert::FromSpecImpl;
use crate::returncode::ReturnCode;
use crate::callback::AppId;
use crate::math::closest_power_of_two;
use crate::math::closest_power_of_two_spec;
use crate::math::is_power_of_two;
use crate::math::is_smallest_power_of_two_above;
use crate::math::lemma_closest_power_of_two_spec;
use crate::math::lemma_log2_floor_pow2;
use crate::math::log2_floor;
use crate::math::has_single_bit;
use crate::math::PowerOfTwo;
use crate::mpu::AccessPermission;
use crate::mpu::ExecutePermission;
use crate::mpu::RegionRequest;
use crate::memory::in_bounds;
use crate::memory::lemma_with_word_in;
use crate::memory::lemma_word_width;
use crate::memory::with_bytes_in;
use crate::memory::with_word_in;
use crate::memory::word_in;
use crate::memory::Memory;
use crate::memory::WORD_SIZE;
use crate::queue::RingBuffer;
use crate::syscall::frame_slot;
use crate::syscall::lemma_pushed_frame;
use crate::syscall::pushed_frame;
use crate::syscall::ContextSwitchReason;
use crate::syscall::FRAME_SIZE;
use crate::syscall::INITIAL_PSR;
use crate::syscall::Syscall;
use crate::syscall::SyscallInterface;
use crate::tbfheader::TbfHeader;

verus! {

/// Why an operation on a process failed.
#[derive(Copy, Clone, Debug, Eq, PartialEq, Structural)]
pub enum Error {
    /// There is no application in that slot.
    NoSuchApp,
    /// The process has no memory left for it.
    OutOfMemory,
    /// The address lies outside the process's memory.
    AddressOutOfBounds,
}

impl Error {
    /// The code that the application sees for this error.
    pub open spec fn return_code(self) -> ReturnCode {
        match self {
            Error::OutOfMemory => ReturnCode::ENOMEM,
            Error::AddressOutOfBounds => ReturnCode::EINVAL,
            Error::NoSuchApp => ReturnCode::EINVAL,
        }
    }
}

impl From<Error> for ReturnCode {
    fn from(err: Error) -> (r: ReturnCode) {
        match err {
            Error::OutOfMemory => ReturnCode::ENOMEM,
            Error::AddressOutOfBounds => ReturnCode::EINVAL,
            Error::NoSuchApp => ReturnCode::EINVAL,
        }
    }
}

impl FromSpecImpl<Error> for ReturnCode {
    open spec fn obeys_from_spec() -> bool {
        true
    }

    open spec fn from_spec(err: Error) -> ReturnCode {
        err.return_code()
    }
}

/// What a process is doing.
#[derive(Copy, Clone, Debug, Eq, PartialEq, Structural)]
pub enum State {
    /// It has the processor, or will get it back when it is next visited.
    Running,
    /// It waits for a task.
    Yielded,
    /// It has faulted and cannot run.
    Fault,
}

/// What the kernel does when a process faults.
#[derive(Copy, Clone, Debug, Eq, PartialEq, Structural)]
pub enum FaultResponse {
    /// Halt the whole kernel with a diagnostic.
    Panic,
    /// Start the process again from its entry function.
    Restart,
}

/// Which side of an inter-process exchange a notification is for.
#[derive(Copy, Clone, Debug, Eq, PartialEq, Structural)]
pub enum IPCType {
    /// The process is the service that a client has called.
    Service,
    /// The process is the client that a service has answered.
    Client,
}

/// A call into the application: where to jump, and the four argument
/// registers.
#[derive(Copy, Clone, Debug, Eq, PartialEq, Structural)]
pub struct FunctionCall {
    pub r0: usize,
    pub r1: usize,
    pub r2: usize,
    pub r3: usize,
    pub pc: usize,
}

/// A unit of work waiting in a process's queue.
#[derive(Copy, Clone, Debug, Eq, PartialEq)]
pub enum Task {
    /// Call a function of the application.
    FunctionCall(FunctionCall),
    /// Tell the application of an inter-process exchange with a peer.
    IPC((AppId, IPCType)),
}

/// The bytes of RAM that a new process gets for its stack and heap: its
/// stack pointer and its break both start this far above the bottom.
pub const INITIAL_APP_MEMORY: usize = 128;

/// The number of slots in a process's ring of waiting tasks.
pub const CALLBACK_LEN: usize = 10;

/// The number of regions a process can have for buffers shared with it.
pub const IPC_REGIONS: usize = 5;

/// What the kernel notes of a process to explain a crash; nothing depends on
/// it. Its counters stop at the largest number they can hold.
#[derive(Copy, Clone, Debug, Eq, PartialEq)]
pub struct ProcessDebug {
    /// Where the application says its heap starts.
    pub app_heap_start_pointer: Option<usize>,
    /// Where the application says its stack starts.
    pub app_stack_start_pointer: Option<usize>,
    /// The lowest stack pointer seen.
    pub min_stack_pointer: usize,
    /// The number of system calls since the process started.
    pub syscall_count: usize,
    /// The last system call.
    pub last_syscall: Option<Syscall>,
    /// The number of tasks that were dropped instead of queued.
    pub dropped_callback_count: usize,
    /// The number of times the process was started again after a fault.
    pub restart_count: usize,
}

/// One entry of the table of shared regions: a base address and a size that
/// is a power of two. A base of 0 marks an empty entry.
#[derive(Copy, Clone, Debug, Eq, PartialEq)]
pub struct MpuRegion {
    pub base: usize,
    pub size: PowerOfTwo,
}

impl MpuRegion {
    /// The entry is empty, or it is at least 16 bytes long and its base is a
    /// multiple of its size.
    pub open spec fn valid(self) -> bool {
        &&& self.size.wf()
        &&& self.base != 0 ==> self.size.value() >= 16 && self.base as int % (
        self.size.value() as int) == 0
    }
}

/// The index of the first entry, from `from` on, that is empty or has the
/// base `base`; the number of entries where there is none.
pub open spec fn usable_region(regions: Seq<MpuRegion>, base: usize, from: int) -> int
    decreases regions.len() - from,
{
    if from < 0 || from >= regions.len() {
        regions.len() as int
    } else if regions[from].base == 0 || regions[from].base == base {
        from
    } else {
        usable_region(regions, base, from + 1)
    }
}

/// The first usable entry from `from` on is not before `from`.
pub proof fn lemma_usable_region_bounds(regions: Seq<MpuRegion>, base: usize, from: int)
    requires
        0 <= from,
    ensures
        from <= usable_region(regions, base, from) || usable_region(regions, base, from)
            == regions.len(),
        usable_region(regions, base, from) <= regions.len(),
        usable_region(regions, base, from) < regions.len() ==> {
            let r = regions[usable_region(regions, base, from)];
            r.base == 0 || r.base == base
        },
    decreases regions.len() - from,
{
    if from < regions.len() && !(regions[from].base == 0 || regions[from].base == base) {
        lemma_usable_region_bounds(regions, base, from + 1);
    }
}

/// A region that may be shared is at least 16 bytes long, its size is a
/// power of two, and its base is a multiple of its size.
pub open spec fn region_request_valid(base: usize, size: u32) -> bool {
    &&& size >= 16
    &&& is_power_of_two(size as int)
    &&& base as int % (size as int) == 0
}

/// `bytes`, the contents of a range of memory that starts at `base`, with
/// its `n` topmost words set to 0.
pub open spec fn with_grants_nulled(base: int, bytes: Seq<u8>, n: nat) -> Seq<u8>
    decreases n,
{
    if n == 0 {
        bytes
    } else {
        with_word_in(
            base,
            with_grants_nulled(base, bytes, (n - 1) as nat),
            base + bytes.len() - n * WORD_SIZE,
            0,
        )
    }
}

/// Setting the `n` topmost words to 0 keeps the length, makes each of those
/// words 0 and leaves every byte below them as it was.
pub proof fn lemma_with_grants_nulled(base: int, bytes: Seq<u8>, n: nat)
    requires
        n * WORD_SIZE <= bytes.len(),
    ensures
        with_grants_nulled(base, bytes, n).len() == bytes.len(),
        forall|j: int|
            0 <= j < n ==> #[trigger] word_in(
                base,
                with_grants_nulled(base, bytes, n),
                base + bytes.len() - (j + 1) * WORD_SIZE,
            ) == 0,
        forall|i: int|
            0 <= i < bytes.len() - n * WORD_SIZE ==> #[trigger] with_grants_nulled(
                base,
                bytes,
                n,
            )[i] == bytes[i],
    decreases n,
{
    lemma_word_width();
    if n > 0 {
        let m = (n - 1) as nat;
        assert(m * WORD_SIZE == n * WORD_SIZE - WORD_SIZE) by (nonlinear_arith)
            requires
                m == n - 1,
        ;
        lemma_with_grants_nulled(base, bytes, m);
        let prev = with_grants_nulled(base, bytes, m);
        let slot = base + bytes.len() - n * WORD_SIZE;
        lemma_with_word_in(base, prev, slot, 0);
        let post = with_grants_nulled(base, bytes, n);
        assert forall|j: int| 0 <= j < n implies #[trigger] word_in(
            base,
            post,
            base + bytes.len() - (j + 1) * WORD_SIZE,
        ) == 0 by {
            if j < m {
                let a = base + bytes.len() - (j + 1) * WORD_SIZE;
                assert((j + 1) * WORD_SIZE <= m * WORD_SIZE) by (nonlinear_arith)
                    requires
                        j + 1 <= m,
                        WORD_SIZE > 0,
                ;
                assert((j + 1) * WORD_SIZE >= WORD_SIZE) by (nonlinear_arith)
                    requires
                        j >= 0,
                        WORD_SIZE > 0,
                ;
                assert(word_in(base, prev, a) == 0);
                assert(in_bounds(base, prev, a, WORD_SIZE as int));
                assert(slot + WORD_SIZE <= a);
            } else {
                assert((j + 1) * WORD_SIZE == n * WORD_SIZE) by (nonlinear_arith)
                    requires
                        j + 1 == n,
                ;
            }
        }
    }
}

/// The bytes at the top of a new process's RAM that the kernel keeps for
/// itself: the table of grant pointers, the ring of tasks and the process
/// record.
pub open spec fn kernel_overhead<S: SyscallInterface>(grant_ptrs_num: int) -> int {
    grant_ptrs_num * WORD_SIZE + CALLBACK_LEN * size_of::<Task>() + size_of::<Process<S>>()
}

/// The RAM that a new process gets: what its header asks for or, if that is
/// more, what the kernel keeps for itself, rounded up to a power of two.
pub open spec fn app_ram_size(minimum_app_ram_size: int, overhead: int) -> int {
    closest_power_of_two_spec(
        if minimum_app_ram_size < overhead {
            overhead
        } else {
            minimum_app_ram_size
        },
    )
}

/// Why an application cannot be loaded.
#[derive(Copy, Clone, Debug, Eq, PartialEq)]
pub enum LoadError {
    /// An address or a size is beyond what the machine can hold.
    OutOfRange,
    /// The application needs more RAM than is left.
    InsufficientMemory { requested: usize, available: usize },
    /// The address of the entry function is even, so it is no Thumb code.
    InitFunctionNotThumb { init_fn: usize },
}

/// The numbers that go into the layout of a new process are within what the
/// machine can hold.
pub open spec fn layout_in_range<S: SyscallInterface>(
    header: TbfHeader,
    app_flash_address: usize,
    remaining_app_memory: usize,
    remaining_app_memory_size: usize,
    grant_ptrs_num: usize,
) -> bool {
    &&& 0 < kernel_overhead::<S>(grant_ptrs_num as int) <= 0x8000_0000
    &&& header.minimum_app_ram_size <= 0x8000_0000
    &&& remaining_app_memory + remaining_app_memory_size <= usize::MAX
    &&& remaining_app_memory + INITIAL_APP_MEMORY <= usize::MAX
    &&& app_flash_address + header.total_size <= usize::MAX
    &&& app_flash_address + header.init_function_offset <= usize::MAX
    &&& app_flash_address + header.protected_size <= usize::MAX
}

/// Why the application with this header cannot be loaded, if it cannot.
/// Padding and disabled applications are not loaded at all, so nothing is
/// wrong with them.
pub open spec fn creation_error<S: SyscallInterface>(
    header: TbfHeader,
    app_flash_address: usize,
    remaining_app_memory: usize,
    remaining_app_memory_size: usize,
    grant_ptrs_num: usize,
) -> Option<LoadError> {
    let ram_size = app_ram_size(
        header.minimum_app_ram_size as int,
        kernel_overhead::<S>(grant_ptrs_num as int),
    );
    let init_fn = app_flash_address + header.init_function_offset;
    if !header.is_app || !header.enabled {
        None
    } else if !layout_in_range::<S>(
        header,
        app_flash_address,
        remaining_app_memory,
        remaining_app_memory_size,
        grant_ptrs_num,
    ) {
        Some(LoadError::OutOfRange)
    } else if ram_size > remaining_app_memory_size {
        Some(
            LoadError::InsufficientMemory {
                requested: ram_size as usize,
                available: remaining_app_memory_size,
            },
        )
    } else if init_fn % 2 != 1 {
        Some(LoadError::InitFunctionNotThumb { init_fn: init_fn as usize })
    } else {
        None
    }
}

/// Where a process's memory lies and how much of it is in use, for the
/// explanation of a crash. A size is the difference of two of the
/// addresses, taken as the machine takes it: where the application has not
/// said where its stack or its heap starts, that address is 0.
#[derive(Copy, Clone, Debug, Eq, PartialEq)]
pub struct ProcessStatistics {
    pub flash_start: usize,
    pub flash_app_start: usize,
    pub flash_end: usize,
    pub flash_protected_size: usize,
    pub flash_app_size: usize,
    pub flash_init_fn: usize,
    pub sram_start: usize,
    pub sram_stack_bottom: usize,
    pub sram_stack_start: usize,
    pub sram_heap_start: usize,
    pub sram_heap_end: usize,
    pub sram_grant_start: usize,
    pub sram_end: usize,
    pub sram_grant_size: usize,
    pub sram_heap_size: usize,
    pub sram_data_size: usize,
    pub sram_stack_size: usize,
    pub sram_grant_allocated: usize,
    pub sram_heap_allocated: usize,
    pub sram_data_allocated: usize,
    pub sram_stack_allocated: usize,
    /// More is in use than was set aside.
    pub sram_grant_exceeded: bool,
    pub sram_heap_exceeded: bool,
    pub sram_stack_exceeded: bool,
    pub state: State,
    pub events_queued: usize,
    pub syscall_count: usize,
    pub last_syscall: Option<Syscall>,
    pub dropped_callback_count: usize,
    pub restart_count: usize,
    /// The return address saved at the last yield.
    pub yield_pc: usize,
}

/// The address in an optional pointer; 0 where there is none.
pub open spec fn address_or_null(pointer: Option<usize>) -> usize {
    match pointer {
        Some(address) => address,
        None => 0,
    }
}

/// The state of a process, as the contracts speak of it.
#[verifier::ext_equal]
pub struct ProcessView<R> {
    /// The registers kept while the process does not run.
    pub stored_regs: R,
    /// The return address saved at the last yield.
    pub yield_pc: usize,
    /// The status word saved at the last yield.
    pub psr: usize,
    /// Why the process last stopped, until it is asked for.
    pub pending_reason: ContextSwitchReason,
    /// The address of the first byte of the process's RAM.
    pub ram_base: usize,
    /// The process's RAM, byte by byte.
    pub ram: Seq<u8>,
    /// The bottom of the kernel's part of the RAM.
    pub kernel_memory_break: usize,
    pub original_kernel_memory_break: usize,
    /// The top of the application's part of the RAM.
    pub app_break: usize,
    pub original_app_break: usize,
    /// The application's stack pointer, as last saved.
    pub current_stack_pointer: usize,
    pub original_stack_pointer: usize,
    /// The address of the application's image in flash, and its length.
    pub flash_start: usize,
    pub flash_len: usize,
    pub header: TbfHeader,
    pub state: State,
    pub fault_response: FaultResponse,
    /// The table of regions shared with the process.
    pub mpu_regions: Seq<MpuRegion>,
    /// The waiting tasks, oldest first.
    pub tasks: Seq<Task>,
    pub package_name: Seq<char>,
    pub debug: ProcessDebug,
    /// The number of words in the table of grant pointers.
    pub grant_ptrs_num: usize,
}

impl<R> ProcessView<R> {
    /// The address of the first byte of RAM.
    pub open spec fn mem_start(self) -> int {
        self.ram_base as int
    }

    /// The address just past the last byte of RAM.
    pub open spec fn mem_end(self) -> int {
        self.ram_base + self.ram.len()
    }

    /// The address just past the application's image in flash.
    pub open spec fn flash_end(self) -> int {
        self.flash_start + self.flash_len
    }

    /// The address of the application's entry function.
    pub open spec fn init_fn(self) -> int {
        self.flash_start + self.header.init_function_offset
    }

    /// The address of the first byte of the image outside its protected
    /// region.
    pub open spec fn flash_app_start(self) -> int {
        self.flash_start + self.header.protected_size
    }

    /// The word of RAM at `addr`.
    pub open spec fn word_at(self, addr: int) -> usize {
        word_in(self.ram_base as int, self.ram, addr)
    }

    /// The `len` bytes from `addr` on lie in the process's RAM.
    pub open spec fn in_ram(self, addr: int, len: int) -> bool {
        in_bounds(self.ram_base as int, self.ram, addr, len)
    }

    /// The size of the table of grant pointers, which fills the top of the
    /// RAM.
    pub open spec fn grant_table_size(self) -> int {
        self.grant_ptrs_num * WORD_SIZE
    }

    /// The address of the pointer for the grant with the given number: the
    /// table is filled from the top of the RAM downward.
    pub open spec fn grant_slot(self, grant_num: int) -> int {
        self.mem_end() - (grant_num + 1) * WORD_SIZE
    }

    /// The pointer for the grant with the given number; 0 where the grant has
    /// not been allocated.
    pub open spec fn grant_pointer(self, grant_num: int) -> usize {
        self.word_at(self.grant_slot(grant_num))
    }

    /// The call that starts the application: its entry function, with the
    /// start of its code, the start and size of its RAM and its break as
    /// arguments.
    pub open spec fn init_call(self) -> FunctionCall {
        FunctionCall {
            pc: self.init_fn() as usize,
            r0: self.flash_app_start() as usize,
            r1: self.ram_base,
            r2: self.ram.len() as usize,
            r3: self.app_break,
        }
    }

    /// The units of work that this process accounts for in the kernel's
    /// count: its waiting tasks, and itself while it is running.
    pub open spec fn pending_work(self) -> nat {
        self.tasks.len() + if self.state == State::Running {
            1nat
        } else {
            0nat
        }
    }

    /// The boundaries in RAM are in order: the stack pointer is not above the
    /// application's break, which is not above the kernel's.
    pub open spec fn pointers_ordered(self) -> bool {
        self.mem_start() <= self.current_stack_pointer <= self.app_break
            <= self.kernel_memory_break <= self.mem_end()
    }

    /// Every entry of the table of shared regions is valid.
    pub open spec fn mpu_regions_valid(self) -> bool {
        &&& self.mpu_regions.len() == IPC_REGIONS
        &&& forall|i: int| 0 <= i < self.mpu_regions.len() ==> (#[trigger] self.mpu_regions[i]).valid()
    }

    /// What holds of every process at all times.
    pub open spec fn wf(self) -> bool {
        &&& self.mem_end() <= usize::MAX
        &&& self.ram.len() <= 0x8000_0000
        &&& is_power_of_two(self.ram.len() as int)
        &&& self.flash_end() <= usize::MAX
        &&& self.init_fn() <= usize::MAX
        &&& self.flash_app_start() <= usize::MAX
        &&& self.mem_start() <= self.app_break
        &&& self.mem_start() <= self.original_app_break
        &&& self.mem_start() <= self.kernel_memory_break <= self.original_kernel_memory_break
        &&& self.original_kernel_memory_break < self.mem_end()
        &&& self.original_kernel_memory_break + self.grant_table_size() <= self.mem_end()
        &&& self.tasks.len() < CALLBACK_LEN
        &&& self.mpu_regions_valid()
    }

    /// Whether a task can be queued: the process has not faulted, and the
    /// queue has room.
    pub open spec fn accepts_task(self) -> bool {
        self.state != State::Fault && self.tasks.len() < CALLBACK_LEN - 1
    }

    /// The process with one more dropped task on its record.
    pub open spec fn with_dropped_task(self) -> Self {
        ProcessView {
            debug: ProcessDebug {
                dropped_callback_count: self.debug.dropped_callback_count.saturating_add(1),
                ..self.debug
            },
            ..self
        }
    }

    /// The process after `task` was handed to it: queued if it accepts
    /// tasks, else counted as dropped.
    pub open spec fn scheduled(self, task: Task) -> Self {
        if self.accepts_task() {
            ProcessView { tasks: self.tasks.push(task), ..self }
        } else {
            self.with_dropped_task()
        }
    }

    /// The process after its oldest task was taken out, if it had one.
    pub open spec fn dequeued(self) -> Self {
        if self.tasks.len() > 0 {
            ProcessView { tasks: self.tasks.subrange(1, self.tasks.len() as int), ..self }
        } else {
            self
        }
    }

    /// What `brk` answers when asked to move the break to `new_break`: the
    /// old break, or why the new one is refused.
    pub open spec fn brk_result(self, new_break: int) -> Result<usize, Error> {
        if new_break < self.mem_start() || new_break >= self.mem_end() {
            Err(Error::AddressOutOfBounds)
        } else if new_break > self.kernel_memory_break {
            Err(Error::OutOfMemory)
        } else {
            Ok(self.app_break)
        }
    }

    /// The process after it was asked to move the break to `new_break`.
    pub open spec fn after_brk(self, new_break: int) -> Self {
        if self.brk_result(new_break) is Ok {
            ProcessView { app_break: new_break as usize, ..self }
        } else {
            self
        }
    }

    /// Where `size` bytes taken from the kernel's part of the RAM start: just
    /// below the kernel's break. `None` where that would reach below the
    /// application's break.
    pub open spec fn alloc_result(self, size: int) -> Option<usize> {
        if self.kernel_memory_break - size < self.app_break {
            None
        } else {
            Some((self.kernel_memory_break - size) as usize)
        }
    }

    /// The process after `size` bytes were asked for.
    pub open spec fn after_alloc(self, size: int) -> Self {
        match self.alloc_result(size) {
            Some(new_break) => ProcessView { kernel_memory_break: new_break, ..self },
            None => self,
        }
    }

    /// The pointer that `grant_for_or_alloc` answers with: the one in the
    /// table, or else the start of `size` newly allocated bytes.
    pub open spec fn grant_for_or_alloc_result(self, grant_num: int, size: int) -> Option<usize> {
        if self.grant_pointer(grant_num) != 0 {
            Some(self.grant_pointer(grant_num))
        } else {
            self.alloc_result(size)
        }
    }

    /// The process after `grant_for_or_alloc`: where the grant was not yet
    /// allocated and there was room, the kernel's break has moved down and
    /// the table points to the new bytes.
    pub open spec fn after_grant_for_or_alloc(self, grant_num: int, size: int) -> Self {
        if self.grant_pointer(grant_num) != 0 {
            self
        } else {
            match self.alloc_result(size) {
                Some(ptr) => ProcessView {
                    kernel_memory_break: ptr,
                    ram: with_word_in(
                        self.ram_base as int,
                        self.ram,
                        self.grant_slot(grant_num),
                        ptr,
                    ),
                    ..self
                },
                None => self,
            }
        }
    }

    /// Whether `[addr, addr + size)` lies in the process's RAM.
    pub open spec fn in_exposed_bounds(self, addr: int, size: int) -> bool {
        self.mem_start() <= addr && addr + size <= self.mem_end()
    }

    /// Whether `addr` is the address of a byte of the process's RAM.
    pub open spec fn in_memory(self, addr: int) -> bool {
        self.mem_start() <= addr < self.mem_end()
    }

    /// The process after the application said that its stack starts at
    /// `stack_pointer`: noted if that is an address in its RAM, and the
    /// lowest stack pointer seen is then counted from there.
    pub open spec fn with_stack_start(self, stack_pointer: usize) -> Self {
        if self.in_memory(stack_pointer as int) {
            ProcessView {
                debug: ProcessDebug {
                    app_stack_start_pointer: Some(stack_pointer),
                    min_stack_pointer: stack_pointer,
                    ..self.debug
                },
                ..self
            }
        } else {
            self
        }
    }

    /// The process after the application said that its heap starts at
    /// `heap_pointer`: noted if that is an address in its RAM.
    pub open spec fn with_heap_start(self, heap_pointer: usize) -> Self {
        if self.in_memory(heap_pointer as int) {
            ProcessView {
                debug: ProcessDebug { app_heap_start_pointer: Some(heap_pointer), ..self.debug },
                ..self
            }
        } else {
            self
        }
    }

    /// The process with one more system call counted, and noted as the last.
    pub open spec fn with_syscall_counted(self, last_syscall: Option<Syscall>) -> Self {
        ProcessView {
            debug: ProcessDebug {
                syscall_count: self.debug.syscall_count.saturating_add(1),
                last_syscall,
                ..self.debug
            },
            ..self
        }
    }

    /// The record of a crash with the lowest stack pointer brought up to
    /// date.
    pub open spec fn with_stack_pointer_noted(self) -> Self {
        if self.current_stack_pointer < self.debug.min_stack_pointer {
            ProcessView {
                debug: ProcessDebug {
                    min_stack_pointer: self.current_stack_pointer,
                    ..self.debug
                },
                ..self
            }
        } else {
            self
        }
    }

    /// The frame at the stack pointer lies in the process's RAM.
    pub open spec fn frame_in_ram(self) -> bool {
        self.in_ram(self.current_stack_pointer as int, FRAME_SIZE as int)
    }

    /// There is room in the process's RAM for a frame below the stack
    /// pointer.
    pub open spec fn can_push(self) -> bool {
        self.in_ram(self.current_stack_pointer - FRAME_SIZE, FRAME_SIZE as int)
    }

    /// Word `k` of the frame at the stack pointer.
    pub open spec fn frame_word(self, k: int) -> usize {
        self.word_at(frame_slot(self.current_stack_pointer as int, k))
    }

    /// The process with the stack pointer `sp`, noted if it is the lowest
    /// seen.
    pub open spec fn with_stack_pointer(self, sp: usize) -> Self {
        (ProcessView { current_stack_pointer: sp, ..self }).with_stack_pointer_noted()
    }

    /// The process after the frame at its stack pointer was taken off: the
    /// frame's return address and status word are kept for the next call
    /// into the application.
    pub open spec fn popped(self) -> Self {
        (ProcessView { yield_pc: self.frame_word(6), psr: self.frame_word(7), ..self })
            .with_stack_pointer((self.current_stack_pointer + FRAME_SIZE) as usize)
    }

    /// The process after a frame for `call` was put on its stack: it is
    /// running, and will enter the function when it is switched to.
    pub open spec fn pushed(self, call: FunctionCall) -> Self {
        (ProcessView {
            state: State::Running,
            ram: pushed_frame(
                self.ram_base as int,
                self.ram,
                self.current_stack_pointer as int,
                call,
                self.yield_pc,
                self.psr,
            ),
            ..self
        }).with_stack_pointer((self.current_stack_pointer - FRAME_SIZE) as usize)
    }

    /// The process with `value` as the result of its system call: in word 0
    /// of the frame at its stack pointer.
    pub open spec fn with_return_value(self, value: isize) -> Self {
        ProcessView {
            ram: with_word_in(
                self.ram_base as int,
                self.ram,
                self.current_stack_pointer as int,
                value as usize,
            ),
            ..self
        }
    }

    /// Whether a region of `size` bytes at `base` is taken into the table of
    /// shared regions: it has to be valid, and the table has to have an
    /// entry that is empty or already has this base.
    pub open spec fn add_mpu_region_result(self, base: usize, size: u32) -> bool {
        region_request_valid(base, size) && usable_region(self.mpu_regions, base, 0)
            < self.mpu_regions.len()
    }

    /// The process after `add_mpu_region`: the first usable entry holds the
    /// region, unless it already held one with this base that is as large.
    pub open spec fn after_add_mpu_region(self, base: usize, size: u32) -> Self {
        let i = usable_region(self.mpu_regions, base, 0);
        let new_size = PowerOfTwo(log2_floor(size as int) as u32);
        if !self.add_mpu_region_result(base, size) {
            self
        } else if self.mpu_regions[i].base == 0 || self.mpu_regions[i].size.exponent()
            < new_size.exponent() {
            ProcessView {
                mpu_regions: self.mpu_regions.update(i, MpuRegion { base, size: new_size }),
                ..self
            }
        } else {
            self
        }
    }

    /// The size of the region that keeps the application out of the kernel's
    /// part of the RAM: the smallest power of two that covers that part.
    pub open spec fn grant_region_len(self) -> int {
        closest_power_of_two_spec(self.mem_end() - self.kernel_memory_break)
    }

    /// What is asked of the protection unit for entry `i` of the table of
    /// shared regions.
    pub open spec fn ipc_region_request(self, i: int) -> RegionRequest {
        let region = self.mpu_regions[i];
        if region.base == 0 {
            RegionRequest::Empty { index: (i + 3) as usize }
        } else {
            RegionRequest::Region {
                index: (i + 3) as usize,
                base: region.base,
                len: region.size.value() as usize,
                execute: ExecutePermission::ExecutionPermitted,
                access: AccessPermission::ReadWrite,
            }
        }
    }

    /// What is asked of the protection unit while this process runs: its
    /// image in flash, which it may read and execute; its RAM, which it may
    /// read, write and execute; the kernel's part at the top of its RAM,
    /// which it may not touch; and the shared regions, in the order of their
    /// table.
    pub open spec fn mpu_plan(self) -> Seq<RegionRequest> {
        seq![
            RegionRequest::Region {
                index: 0,
                base: self.flash_start,
                len: self.flash_len,
                execute: ExecutePermission::ExecutionPermitted,
                access: AccessPermission::ReadOnly,
            },
            RegionRequest::Region {
                index: 1,
                base: self.ram_base,
                len: self.ram.len() as usize,
                execute: ExecutePermission::ExecutionPermitted,
                access: AccessPermission::ReadWrite,
            },
            RegionRequest::Region {
                index: 2,
                base: (self.mem_end() - self.grant_region_len()) as usize,
                len: self.grant_region_len() as usize,
                execute: ExecutePermission::ExecutionNotPermitted,
                access: AccessPermission::PrivilegedOnly,
            },
        ] + Seq::new(IPC_REGIONS as nat, |i: int| self.ipc_region_request(i))
    }

    /// The process with every pointer in its table of grants set to 0.
    pub open spec fn with_grant_ptrs_reset(self) -> Self {
        ProcessView {
            ram: with_grants_nulled(self.ram_base as int, self.ram, self.grant_ptrs_num as nat),
            ..self
        }
    }

    /// The process started again after a fault: no grant is allocated, the
    /// boundaries in RAM are where they were when the process was created,
    /// the counters of the crash record start again, and the one waiting
    /// task is the call of the entry function.
    pub open spec fn restarted(self) -> Self {
        let reset = ProcessView {
            yield_pc: self.init_fn() as usize,
            psr: INITIAL_PSR,
            state: State::Yielded,
            kernel_memory_break: self.original_kernel_memory_break,
            app_break: self.original_app_break,
            current_stack_pointer: self.original_stack_pointer,
            debug: ProcessDebug {
                restart_count: self.debug.restart_count.saturating_add(1),
                syscall_count: 0,
                last_syscall: None,
                dropped_callback_count: 0,
                ..self.debug
            },
            ..self.with_grant_ptrs_reset()
        };
        ProcessView { tasks: seq![Task::FunctionCall(reset.init_call())], ..reset }
    }

    /// A new process for the application with this header, whose image is at
    /// `flash_start`, in `ram_size` bytes of RAM at `ram_base`, the topmost
    /// `overhead` of them kept by the kernel. Its RAM is all zero, so no grant
    /// is allocated; its stack pointer and its break are
    /// `INITIAL_APP_MEMORY` bytes above the bottom; it waits, and the one
    /// waiting task is the call of its entry function.
    pub open spec fn created(
        stored_regs: R,
        pending_reason: ContextSwitchReason,
        header: TbfHeader,
        flash_start: usize,
        ram_base: usize,
        ram_size: usize,
        overhead: usize,
        fault_response: FaultResponse,
        grant_ptrs_num: usize,
    ) -> Self {
        let kernel_memory_break = (ram_base + ram_size - overhead) as usize;
        let initial_pointer = (ram_base + INITIAL_APP_MEMORY) as usize;
        let fresh = ProcessView {
            stored_regs,
            yield_pc: (flash_start + header.init_function_offset) as usize,
            psr: INITIAL_PSR,
            pending_reason,
            ram_base,
            ram: Seq::new(ram_size as nat, |i: int| 0u8),
            kernel_memory_break,
            original_kernel_memory_break: kernel_memory_break,
            app_break: initial_pointer,
            original_app_break: initial_pointer,
            current_stack_pointer: initial_pointer,
            original_stack_pointer: initial_pointer,
            flash_start,
            flash_len: header.total_size as usize,
            header,
            state: State::Yielded,
            fault_response,
            mpu_regions: Seq::new(
                IPC_REGIONS as nat,
                |i: int| MpuRegion { base: 0, size: PowerOfTwo(0) },
            ),
            tasks: Seq::empty(),
            package_name: header.package_name@,
            debug: ProcessDebug {
                app_heap_start_pointer: None,
                app_stack_start_pointer: None,
                min_stack_pointer: initial_pointer,
                syscall_count: 0,
                last_syscall: None,
                dropped_callback_count: 0,
                restart_count: 0,
            },
            grant_ptrs_num,
        };
        ProcessView { tasks: seq![Task::FunctionCall(fresh.init_call())], ..fresh }
    }

    /// Where the process's memory lies and how much of it is in use.
    pub open spec fn statistics(self) -> ProcessStatistics {
        let flash_start = self.flash_start;
        let flash_end = self.flash_end() as usize;
        let flash_app_start = self.flash_app_start() as usize;
        let sram_start = self.ram_base;
        let sram_end = self.mem_end() as usize;
        let sram_grant_start = self.kernel_memory_break;
        let sram_heap_end = self.app_break;
        let sram_heap_start = address_or_null(self.debug.app_heap_start_pointer);
        let sram_stack_start = address_or_null(self.debug.app_stack_start_pointer);
        let sram_stack_bottom = self.debug.min_stack_pointer;
        let sram_grant_size = sram_end.wrapping_sub(sram_grant_start);
        let sram_heap_size = sram_heap_end.wrapping_sub(sram_heap_start);
        let sram_data_size = sram_heap_start.wrapping_sub(sram_stack_start);
        let sram_stack_size = sram_stack_start.wrapping_sub(sram_stack_bottom);
        let sram_grant_allocated = sram_end.wrapping_sub(sram_grant_start);
        let sram_heap_allocated = sram_grant_start.wrapping_sub(sram_heap_start);
        let sram_stack_allocated = sram_stack_start.wrapping_sub(sram_start);
        ProcessStatistics {
            flash_start,
            flash_app_start,
            flash_end,
            flash_protected_size: self.header.protected_size as usize,
            flash_app_size: flash_end.wrapping_sub(flash_app_start),
            flash_init_fn: self.init_fn() as usize,
            sram_start,
            sram_stack_bottom,
            sram_stack_start,
            sram_heap_start,
            sram_heap_end,
            sram_grant_start,
            sram_end,
            sram_grant_size,
            sram_heap_size,
            sram_data_size,
            sram_stack_size,
            sram_grant_allocated,
            sram_heap_allocated,
            sram_data_allocated: sram_data_size,
            sram_stack_allocated,
            sram_grant_exceeded: sram_grant_size > sram_grant_allocated,
            sram_heap_exceeded: sram_heap_size > sram_heap_allocated,
            sram_stack_exceeded: sram_stack_size > sram_stack_allocated,
            state: self.state,
            events_queued: self.tasks.len() as usize,
            syscall_count: self.debug.syscall_count,
            last_syscall: self.debug.last_syscall,
            dropped_callback_count: self.debug.dropped_callback_count,
            restart_count: self.debug.restart_count,
            yield_pc: self.yield_pc,
        }
    }

    /// The process after it gave up the processor: yielded, if it was
    /// running.
    pub open spec fn yielded(self) -> Self {
        if self.state == State::Running {
            ProcessView { state: State::Yielded, ..self }
        } else {
            self
        }
    }
}

/// One loaded application.
pub struct Process<S: SyscallInterface> {
    /// The architecture's state for this process.
    syscall: S,
    /// The registers kept while the process does not run.
    stored_regs: S::StoredState,
    /// The process's RAM. From the top down it holds the table of grant
    /// pointers, room for the ring of tasks and for this record, and the
    /// grants; from the bottom up, the application's stack and heap.
    memory: Memory,
    /// The bottom of the kernel's part of the RAM.
    kernel_memory_break: usize,
    /// The kernel's break when the process was created.
    original_kernel_memory_break: usize,
    /// The top of the application's part of the RAM.
    app_break: usize,
    original_app_break: usize,
    /// The application's stack pointer, saved when it last stopped.
    current_stack_pointer: usize,
    original_stack_pointer: usize,
    /// Where the application's image lies in flash.
    flash_start: usize,
    flash_len: usize,
    header: TbfHeader,
    state: State,
    fault_response: FaultResponse,
    mpu_regions: Vec<MpuRegion>,
    tasks: RingBuffer<Task>,
    debug: ProcessDebug,
    grant_ptrs_num: usize,
}

impl<S: SyscallInterface> View for Process<S> {
    type V = ProcessView<S::StoredState>;

    closed spec fn view(&self) -> ProcessView<S::StoredState> {
        ProcessView {
            stored_regs: self.stored_regs,
            yield_pc: self.syscall.yield_pc(),
            psr: self.syscall.psr(),
            pending_reason: self.syscall.pending_reason(),
            ram_base: self.memory.base(),
            ram: self.memory@,
            kernel_memory_break: self.kernel_memory_break,
            original_kernel_memory_break: self.original_kernel_memory_break,
            app_break: self.app_break,
            original_app_break: self.original_app_break,
            current_stack_pointer: self.current_stack_pointer,
            original_stack_pointer: self.original_stack_pointer,
            flash_start: self.flash_start,
            flash_len: self.flash_len,
            header: self.header,
            state: self.state,
            fault_response: self.fault_response,
            mpu_regions: self.mpu_regions@,
            tasks: self.tasks@,
            package_name: self.header.package_name@,
            debug: self.debug,
            grant_ptrs_num: self.grant_ptrs_num,
        }
    }
}

impl<S: SyscallInterface> Process<S> {
    /// The record is consistent in itself.
    pub closed spec fn inv(&self) -> bool {
        &&& self.tasks.wf()
        &&& self.tasks.slots() == CALLBACK_LEN
    }

    /// The process is well formed.
    pub open spec fn wf(&self) -> bool {
        self.inv() && self@.wf()
    }

    /// Queues a call of one of the application's functions and counts it as
    /// work for the kernel. Where the process has faulted or its queue is
    /// full, the call is dropped and counted as dropped.
    pub fn schedule(&mut self, work: &mut usize, callback: FunctionCall) -> (r: bool)
        requires
            old(self).wf(),
            *old(work) < usize::MAX,
        ensures
            final(self).wf(),
            r == old(self)@.accepts_task(),
            final(self)@ =~= old(self)@.scheduled(Task::FunctionCall(callback)),
            *final(work) == *old(work) + if r {
                1int
            } else {
                0int
            },
    {
        self.enqueue_task(work, Task::FunctionCall(callback))
    }

    /// Queues the notice of an inter-process exchange with `from`, as
    /// `schedule` does for a call.
    pub fn schedule_ipc(&mut self, work: &mut usize, from: AppId, cb_type: IPCType)
        requires
            old(self).wf(),
            *old(work) < usize::MAX,
        ensures
            final(self).wf(),
            final(self)@ =~= old(self)@.scheduled(Task::IPC((from, cb_type))),
            *final(work) == *old(work) + if old(self)@.accepts_task() {
                1int
            } else {
                0int
            },
    {
        let _ = self.enqueue_task(work, Task::IPC((from, cb_type)));
    }

    fn enqueue_task(&mut self, work: &mut usize, task: Task) -> (r: bool)
        requires
            old(self).wf(),
            *old(work) < usize::MAX,
        ensures
            final(self).wf(),
            r == old(self)@.accepts_task(),
            final(self)@ =~= old(self)@.scheduled(task),
            *final(work) == *old(work) + if r {
                1int
            } else {
                0int
            },
    {
        let ret = if self.current_state() == State::Fault {
            false
        } else {
            self.tasks.enqueue(task)
        };
        if ret {
            *work = *work + 1;
        } else {
            self.debug.dropped_callback_count = self.debug.dropped_callback_count.saturating_add(
                1,
            );
        }
        ret
    }

    /// What the process is doing.
    pub fn current_state(&self) -> (r: State)
        ensures
            r == self@.state,
    {
        self.state
    }

    /// Moves the process from running to yielded, which is one unit of work
    /// less for the kernel. A process that is not running stays as it is.
    pub fn yield_state(&mut self, work: &mut usize)
        requires
            old(self).wf(),
            old(self)@.state == State::Running ==> *old(work) > 0,
        ensures
            final(self).wf(),
            final(self)@ =~= old(self)@.yielded(),
            *final(work) == *old(work) - if old(self)@.state == State::Running {
                1int
            } else {
                0int
            },
    {
        if self.state == State::Running {
            self.state = State::Yielded;
            *work = *work - 1;
        }
    }

    /// Takes the oldest waiting task out of the queue, which is one unit of
    /// work less for the kernel.
    pub fn dequeue_task(&mut self, work: &mut usize) -> (r: Option<Task>)
        requires
            old(self).wf(),
            old(self)@.tasks.len() > 0 ==> *old(work) > 0,
        ensures
            final(self).wf(),
            r == if old(self)@.tasks.len() > 0 {
                Some(old(self)@.tasks[0])
            } else {
                None
            },
            final(self)@ =~= old(self)@.dequeued(),
            *final(work) == *old(work) - if old(self)@.tasks.len() > 0 {
                1int
            } else {
                0int
            },
    {
        let r = self.tasks.dequeue();
        if r.is_some() {
            *work = *work - 1;
        }
        r
    }

    /// The address of the first byte of the process's RAM.
    pub fn mem_start(&self) -> (r: usize)
        ensures
            r == self@.mem_start(),
    {
        self.memory.start()
    }

    /// The address just past the process's RAM.
    pub fn mem_end(&self) -> (r: usize)
        requires
            self.wf(),
        ensures
            r == self@.mem_end(),
    {
        self.memory.end()
    }

    /// The address of the application's image in flash.
    pub fn flash_start(&self) -> (r: usize)
        ensures
            r == self@.flash_start,
    {
        self.flash_start
    }

    /// The address of the first byte of the image after its protected
    /// region.
    pub fn flash_non_protected_start(&self) -> (r: usize)
        requires
            self.wf(),
        ensures
            r == self@.flash_app_start(),
    {
        self.flash_start + self.header.get_protected_size() as usize
    }

    /// The address just past the application's image.
    pub fn flash_end(&self) -> (r: usize)
        requires
            self.wf(),
        ensures
            r == self@.flash_end(),
    {
        self.flash_start + self.flash_len
    }

    /// The bottom of the kernel's part of the RAM.
    pub fn kernel_memory_break(&self) -> (r: usize)
        ensures
            r == self@.kernel_memory_break,
    {
        self.kernel_memory_break
    }

    /// The top of the application's part of the RAM.
    pub fn app_break(&self) -> (r: usize)
        ensures
            r == self@.app_break,
    {
        self.app_break
    }

    /// The application's stack pointer, as last saved.
    pub fn sp(&self) -> (r: usize)
        ensures
            r == self@.current_stack_pointer,
    {
        self.current_stack_pointer
    }

    /// How the kernel answers a fault of this process.
    pub fn fault_response(&self) -> (r: FaultResponse)
        ensures
            r == self@.fault_response,
    {
        self.fault_response
    }

    /// The number of pointers in the process's table of grants.
    pub fn grant_ptrs_num(&self) -> (r: usize)
        ensures
            r == self@.grant_ptrs_num,
    {
        self.grant_ptrs_num
    }

    /// The number of tasks that wait in the queue.
    pub fn pending_tasks(&self) -> (r: usize)
        requires
            self.wf(),
        ensures
            r == self@.tasks.len(),
    {
        self.tasks.len()
    }

    /// The task that has waited longest, if any waits; it stays in the
    /// queue.
    pub fn next_task(&self) -> (r: Option<Task>)
        requires
            self.wf(),
        ensures
            r == if self@.tasks.len() > 0 {
                Some(self@.tasks[0])
            } else {
                None
            },
    {
        self.tasks.peek()
    }

    /// What the kernel has noted for the explanation of a crash.
    pub fn debug(&self) -> (r: ProcessDebug)
        ensures
            r == self@.debug,
    {
        self.debug
    }

    /// The process's RAM.
    pub fn memory(&self) -> (r: &Memory)
        ensures
            r.base() == self@.ram_base,
            r@ == self@.ram,
    {
        &self.memory
    }

    /// The registers kept while the process does not run.
    pub fn stored_state(&self) -> (r: &S::StoredState)
        ensures
            *r == self@.stored_regs,
    {
        &self.stored_regs
    }

    /// Keeps the registers that the process had when it stopped.
    pub fn set_stored_state(&mut self, stored_regs: S::StoredState)
        ensures
            final(self).inv() == old(self).inv(),
            final(self)@ == (ProcessView { stored_regs, ..old(self)@ }),
    {
        self.stored_regs = stored_regs;
    }

    /// The word of the process's RAM whose lowest byte is at `addr`.
    pub fn load_word(&self, addr: usize) -> (r: usize)
        requires
            self.wf(),
            self@.in_ram(addr as int, WORD_SIZE as int),
        ensures
            r == self@.word_at(addr as int),
    {
        self.memory.read_word(addr)
    }

    /// Stores a word in the process's RAM, as the application does while it
    /// runs, or the hardware for it when it stops.
    pub fn store_word(&mut self, addr: usize, value: usize)
        requires
            old(self).wf(),
            old(self)@.in_ram(addr as int, WORD_SIZE as int),
        ensures
            final(self).wf(),
            final(self)@ == (ProcessView {
                ram: with_word_in(old(self)@.ram_base as int, old(self)@.ram, addr as int, value),
                ..old(self)@
            }),
    {
        proof {
            lemma_with_word_in(self@.ram_base as int, self@.ram, addr as int, value);
        }
        self.memory.write_word(addr, value);
    }

    /// Stores `data` in the process's RAM from `addr` on.
    pub fn store_bytes(&mut self, addr: usize, data: &[u8])
        requires
            old(self).wf(),
            old(self)@.in_ram(addr as int, data@.len() as int),
        ensures
            final(self).wf(),
            final(self)@ == (ProcessView {
                ram: with_bytes_in(old(self)@.ram_base as int, old(self)@.ram, addr as int, data@),
                ..old(self)@
            }),
    {
        self.memory.write_bytes(addr, data);
    }

    /// The `len` bytes of the process's RAM from `addr` on, to be written,
    /// as a driver does with a buffer that was shared with it.
    pub fn memory_slice_mut(&mut self, addr: usize, len: usize) -> (s: &mut [u8])
        requires
            old(self).wf(),
            old(self)@.in_ram(addr as int, len as int),
        ensures
            s@ == old(self)@.ram.subrange(
                addr - old(self)@.ram_base,
                addr - old(self)@.ram_base + len,
            ),
            final(s)@.len() == len ==> final(self).wf() && final(self)@ == (ProcessView {
                ram: with_bytes_in(
                    old(self)@.ram_base as int,
                    old(self)@.ram,
                    addr as int,
                    final(s)@,
                ),
                ..old(self)@
            }),
    {
        self.memory.slice_mut(addr, len)
    }

    /// The number of regions of its image that the application may write.
    pub fn number_writeable_flash_regions(&self) -> (r: usize)
        ensures
            r == self@.header.writeable_flash_regions@.len(),
    {
        self.header.number_writeable_flash_regions()
    }

    /// The offset and size of the writeable region with the given index;
    /// `(0, 0)` where there is none.
    pub fn get_writeable_flash_region(&self, region_index: usize) -> (r: (u32, u32))
        ensures
            r == self@.header.writeable_flash_region(region_index as int),
    {
        self.header.get_writeable_flash_region(region_index)
    }

    /// The application's name.
    pub fn get_package_name(&self) -> (r: &str)
        ensures
            r@ == self@.package_name,
    {
        self.header.get_package_name()
    }

    /// Notes where the application says its stack starts, if that is an
    /// address in its RAM; the lowest stack pointer seen is then counted
    /// from there.
    pub fn update_stack_start_pointer(&mut self, stack_pointer: usize)
        requires
            old(self).wf(),
        ensures
            final(self).wf(),
            final(self)@ == old(self)@.with_stack_start(stack_pointer),
    {
        if stack_pointer >= self.mem_start() && stack_pointer < self.mem_end() {
            self.debug.app_stack_start_pointer = Some(stack_pointer);
            self.debug.min_stack_pointer = stack_pointer;
        }
    }

    /// Notes where the application says its heap starts, if that is an
    /// address in its RAM.
    pub fn update_heap_start_pointer(&mut self, heap_pointer: usize)
        requires
            old(self).wf(),
        ensures
            final(self).wf(),
            final(self)@ == old(self)@.with_heap_start(heap_pointer),
    {
        if heap_pointer >= self.mem_start() && heap_pointer < self.mem_end() {
            self.debug.app_heap_start_pointer = Some(heap_pointer);
        }
    }

    /// Moves the application's break by `increment` bytes, and answers with
    /// the old break. The new break has to be an address in the RAM
    /// (`AddressOutOfBounds`) and not above the kernel's break
    /// (`OutOfMemory`); else nothing changes.
    pub fn sbrk(&mut self, increment: isize) -> (r: Result<usize, Error>)
        requires
            old(self).wf(),
        ensures
            final(self).wf(),
            r == old(self)@.brk_result(old(self)@.app_break + increment),
            final(self)@ == old(self)@.after_brk(old(self)@.app_break + increment),
    {
        if increment >= 0 {
            match self.app_break.checked_add(increment as usize) {
                Some(new_break) => self.brk(new_break),
                None => Err(Error::AddressOutOfBounds),
            }
        } else {
            let decrement: usize = (-(increment + 1)) as usize + 1;
            if decrement > self.app_break {
                Err(Error::AddressOutOfBounds)
            } else {
                self.brk(self.app_break - decrement)
            }
        }
    }

    /// Moves the application's break to `new_break`, and answers with the old
    /// break. The new break has to be an address in the RAM
    /// (`AddressOutOfBounds`) and not above the kernel's break
    /// (`OutOfMemory`); else nothing changes.
    pub fn brk(&mut self, new_break: usize) -> (r: Result<usize, Error>)
        requires
            old(self).wf(),
        ensures
            final(self).wf(),
            r == old(self)@.brk_result(new_break as int),
            final(self)@ == old(self)@.after_brk(new_break as int),
    {
        if new_break < self.mem_start() || new_break >= self.mem_end() {
            Err(Error::AddressOutOfBounds)
        } else if new_break > self.kernel_memory_break {
            Err(Error::OutOfMemory)
        } else {
            let old_break = self.app_break;
            self.app_break = new_break;
            Ok(old_break)
        }
    }

    /// Whether `[buf_start_addr, buf_start_addr + size)` lies in the
    /// process's RAM.
    pub fn in_exposed_bounds(&self, buf_start_addr: usize, size: usize) -> (r: bool)
        requires
            self.wf(),
        ensures
            r == self@.in_exposed_bounds(buf_start_addr as int, size as int),
    {
        buf_start_addr >= self.mem_start() && buf_start_addr <= self.mem_end() && size
            <= self.mem_end() - buf_start_addr
    }

    /// Takes `size` bytes from the kernel's part of the RAM, just below what
    /// was taken before, and answers with their address. `None`, and nothing
    /// taken, where they would reach below the application's break.
    pub fn allocate(&mut self, size: usize) -> (r: Option<usize>)
        requires
            old(self).wf(),
        ensures
            final(self).wf(),
            r == old(self)@.alloc_result(size as int),
            final(self)@ == old(self)@.after_alloc(size as int),
    {
        if size > self.kernel_memory_break || self.kernel_memory_break - size < self.app_break {
            None
        } else {
            let new_break = self.kernel_memory_break - size;
            self.kernel_memory_break = new_break;
            Some(new_break)
        }
    }

    /// Gives memory back. Nothing is given back before the process starts
    /// again, so this does nothing.
    pub fn free(&mut self, _grant_num: usize)
        ensures
            final(self).inv() == old(self).inv(),
            final(self)@ == old(self)@,
    {
    }

    /// The address of the pointer for the grant with the given number.
    pub fn grant_ptr(&self, grant_num: usize) -> (r: usize)
        requires
            self.wf(),
            grant_num < self@.grant_ptrs_num,
        ensures
            r == self@.grant_slot(grant_num as int),
            self@.in_ram(r as int, WORD_SIZE as int),
    {
        proof {
            lemma_word_width();
            assert((grant_num + 1) * WORD_SIZE <= self@.grant_ptrs_num * WORD_SIZE)
                by (nonlinear_arith)
                requires
                    grant_num + 1 <= self@.grant_ptrs_num,
                    WORD_SIZE > 0,
            ;
        }
        self.memory.end() - (grant_num + 1) * WORD_SIZE
    }

    /// The pointer for the grant with the given number; 0 where the grant
    /// has not been allocated for this process.
    pub fn grant_for(&self, grant_num: usize) -> (r: usize)
        requires
            self.wf(),
            grant_num < self@.grant_ptrs_num,
        ensures
            r == self@.grant_pointer(grant_num as int),
    {
        let slot = self.grant_ptr(grant_num);
        self.memory.read_word(slot)
    }

    /// The pointer for the grant with the given number. Where the grant has
    /// not been allocated, `size` bytes are allocated for it and the table is
    /// made to point to them; `None` where there is no room for them.
    pub fn grant_for_or_alloc(&mut self, grant_num: usize, size: usize) -> (r: Option<usize>)
        requires
            old(self).wf(),
            grant_num < old(self)@.grant_ptrs_num,
        ensures
            final(self).wf(),
            r == old(self)@.grant_for_or_alloc_result(grant_num as int, size as int),
            final(self)@ =~= old(self)@.after_grant_for_or_alloc(grant_num as int, size as int),
    {
        let slot = self.grant_ptr(grant_num);
        let ptr = self.memory.read_word(slot);
        if ptr == 0 {
            match self.allocate(size) {
                Some(root_ptr) => {
                    proof {
                        lemma_with_word_in(
                            self@.ram_base as int,
                            self@.ram,
                            slot as int,
                            root_ptr,
                        );
                    }
                    self.memory.write_word(slot, root_ptr);
                    Some(root_ptr)
                },
                None => None,
            }
        } else {
            Some(ptr)
        }
    }

    /// Counts a system call, and notes which it was.
    pub fn incr_syscall_count(&mut self, last_syscall: Option<Syscall>)
        requires
            old(self).wf(),
        ensures
            final(self).wf(),
            final(self)@ == old(self)@.with_syscall_counted(last_syscall),
    {
        self.debug.syscall_count = self.debug.syscall_count.saturating_add(1);
        self.debug.last_syscall = last_syscall;
    }

    /// Whether the frame at the stack pointer lies in the process's RAM, so
    /// that it can be read and taken off.
    pub fn frame_in_memory(&self) -> (r: bool)
        requires
            self.wf(),
        ensures
            r == self@.frame_in_ram(),
    {
        self.memory.in_range(self.current_stack_pointer, FRAME_SIZE)
    }

    /// Whether there is room in the process's RAM for a frame below the
    /// stack pointer.
    pub fn can_push_frame(&self) -> (r: bool)
        requires
            self.wf(),
        ensures
            r == self@.can_push(),
    {
        self.current_stack_pointer >= FRAME_SIZE && self.memory.in_range(
            self.current_stack_pointer - FRAME_SIZE,
            FRAME_SIZE,
        )
    }

    /// Keeps the stack pointer that the process had when it stopped.
    pub fn set_stack_pointer(&mut self, stack_pointer: usize)
        requires
            old(self).wf(),
        ensures
            final(self).wf(),
            final(self)@ == old(self)@.with_stack_pointer(stack_pointer),
    {
        self.current_stack_pointer = stack_pointer;
        self.note_stack_pointer();
    }

    fn note_stack_pointer(&mut self)
        ensures
            final(self).inv() == old(self).inv(),
            final(self)@ == old(self)@.with_stack_pointer_noted(),
    {
        if self.current_stack_pointer < self.debug.min_stack_pointer {
            self.debug.min_stack_pointer = self.current_stack_pointer;
        }
    }

    /// Takes the frame of the system call off the process's stack, keeping
    /// its return address and status word for the next call into the
    /// application.
    pub fn pop_syscall_stack(&mut self)
        requires
            old(self).wf(),
            old(self)@.frame_in_ram(),
        ensures
            final(self).wf(),
            final(self)@ == old(self)@.popped(),
    {
        let sp = self.current_stack_pointer;
        let new_sp = self.syscall.pop_syscall_stack(&self.memory, sp);
        self.current_stack_pointer = new_sp;
        self.note_stack_pointer();
    }

    /// Puts a frame for `callback` on the process's stack and makes the
    /// process running, which is one more unit of work for the kernel.
    pub fn push_function_call(&mut self, work: &mut usize, callback: FunctionCall)
        requires
            old(self).wf(),
            old(self)@.can_push(),
            *old(work) < usize::MAX,
        ensures
            final(self).wf(),
            final(self)@ == old(self)@.pushed(callback),
            *final(work) == *old(work) + 1,
    {
        proof {
            lemma_pushed_frame(
                self@.ram_base as int,
                self@.ram,
                self@.current_stack_pointer as int,
                callback,
                self@.yield_pc,
                self@.psr,
            );
        }
        *work = *work + 1;
        self.state = State::Running;
        let sp = self.current_stack_pointer;
        let new_sp = self.syscall.push_function_call(&mut self.memory, sp, callback);
        self.current_stack_pointer = new_sp;
        self.note_stack_pointer();
    }

    /// The registers in the frame at the stack pointer.
    pub fn frame(&self) -> (r: crate::cortexm::ExceptionFrame)
        requires
            self.wf(),
            self@.frame_in_ram(),
        ensures
            r == crate::cortexm::frame_at(
                self@.ram_base as int,
                self@.ram,
                self@.current_stack_pointer as int,
            ),
    {
        crate::cortexm::read_frame(&self.memory, self.current_stack_pointer)
    }

    /// The link register in the frame at the stack pointer.
    pub fn lr(&self) -> (r: usize)
        requires
            self.wf(),
            self@.frame_in_ram(),
        ensures
            r == self@.frame_word(5),
    {
        proof {
            lemma_word_width();
        }
        self.memory.read_word(self.current_stack_pointer + 5 * WORD_SIZE)
    }

    /// The program counter in the frame at the stack pointer.
    pub fn pc(&self) -> (r: usize)
        requires
            self.wf(),
            self@.frame_in_ram(),
        ensures
            r == self@.frame_word(6),
    {
        proof {
            lemma_word_width();
        }
        self.memory.read_word(self.current_stack_pointer + 6 * WORD_SIZE)
    }

    /// The register `r12` in the frame at the stack pointer.
    pub fn r12(&self) -> (r: usize)
        requires
            self.wf(),
            self@.frame_in_ram(),
        ensures
            r == self@.frame_word(4),
    {
        proof {
            lemma_word_width();
        }
        self.memory.read_word(self.current_stack_pointer + 4 * WORD_SIZE)
    }

    /// The status word in the frame at the stack pointer.
    pub fn xpsr(&self) -> (r: usize)
        requires
            self.wf(),
            self@.frame_in_ram(),
        ensures
            r == self@.frame_word(7),
    {
        proof {
            lemma_word_width();
        }
        self.memory.read_word(self.current_stack_pointer + 7 * WORD_SIZE)
    }

    /// Says why the process stopped, and forgets it.
    pub fn get_context_switch_reason(&mut self) -> (r: ContextSwitchReason)
        requires
            old(self).wf(),
        ensures
            final(self).wf(),
            r == old(self)@.pending_reason,
            final(self)@ == (ProcessView {
                pending_reason: ContextSwitchReason::Other,
                ..old(self)@
            }),
    {
        self.syscall.get_context_switch_reason()
    }

    /// The system call that the process made, read from the instruction
    /// before the return address in the frame at the stack pointer.
    pub fn get_syscall_number(&self, flash: &Memory) -> (r: Option<Syscall>)
        requires
            self.wf(),
            self@.frame_in_ram(),
            flash.wf(),
        ensures
            r == S::syscall_number(
                self@.ram_base as int,
                self@.ram,
                flash.base() as int,
                flash@,
                self@.current_stack_pointer as int,
            ),
    {
        self.syscall.get_syscall_number(&self.memory, flash, self.current_stack_pointer)
    }

    /// The four arguments of the system call that the process made.
    pub fn get_syscall_data(&self) -> (r: (usize, usize, usize, usize))
        requires
            self.wf(),
            self@.frame_in_ram(),
        ensures
            r.0 == self@.frame_word(0),
            r.1 == self@.frame_word(1),
            r.2 == self@.frame_word(2),
            r.3 == self@.frame_word(3),
    {
        self.syscall.get_syscall_data(&self.memory, self.current_stack_pointer)
    }

    /// Puts the result of the system call where the process will find it.
    pub fn set_syscall_return_value(&mut self, return_value: isize)
        requires
            old(self).wf(),
            old(self)@.frame_in_ram(),
        ensures
            final(self).wf(),
            final(self)@ == old(self)@.with_return_value(return_value),
    {
        proof {
            lemma_word_width();
            lemma_with_word_in(
                self@.ram_base as int,
                self@.ram,
                self@.current_stack_pointer as int,
                return_value as usize,
            );
        }
        let sp = self.current_stack_pointer;
        self.syscall.set_syscall_return_value(&mut self.memory, sp, return_value);
    }

    /// Takes a region of `size` bytes at `base` into the table of regions
    /// shared with this process, and says whether it did. The region has to
    /// be at least 16 bytes long, its size a power of two and its base a
    /// multiple of its size. It goes into the first entry that is empty or
    /// already has this base; an entry with this base is only ever made
    /// larger.
    pub fn add_mpu_region(&mut self, base: usize, size: u32) -> (r: bool)
        requires
            old(self).wf(),
        ensures
            final(self).wf(),
            r == old(self)@.add_mpu_region_result(base, size),
            final(self)@ == old(self)@.after_add_mpu_region(base, size),
    {
        if size >= 16 && has_single_bit(size) && base % (size as usize) == 0 {
            let mpu_size = PowerOfTwo::floor(size);
            proof {
                let e = choose|e: nat| e < 32 && size == #[trigger] vstd::arithmetic::power2::pow2(e);
                lemma_log2_floor_pow2(e);
            }
            let mut i: usize = 0;
            while i < self.mpu_regions.len()
                invariant
                    self.wf(),
                    *self == *old(self),
                    i <= self.mpu_regions@.len(),
                    usable_region(self.mpu_regions@, base, 0) == usable_region(
                        self.mpu_regions@,
                        base,
                        i as int,
                    ),
                    region_request_valid(base, size),
                    mpu_size == PowerOfTwo(log2_floor(size as int) as u32),
                    mpu_size.value() == size,
                    mpu_size.wf(),
                decreases self.mpu_regions@.len() - i,
            {
                let region = self.mpu_regions[i];
                if region.base == 0 {
                    self.mpu_regions[i] = MpuRegion { base, size: mpu_size };
                    return true;
                } else if region.base == base {
                    if region.size.exp() < mpu_size.exp() {
                        self.mpu_regions[i] = MpuRegion { base, size: mpu_size };
                    }
                    return true;
                }
                i = i + 1;
            }
            false
        } else {
            false
        }
    }

    /// What to ask of the protection unit before the process runs.
    pub fn setup_mpu(&self) -> (r: Vec<RegionRequest>)
        requires
            self.wf(),
        ensures
            r@ == self@.mpu_plan(),
    {
        let mem_end = self.mem_end();
        let grant_size = (mem_end - self.kernel_memory_break) as u32;
        let grant_len = PowerOfTwo::ceiling(grant_size).as_num() as usize;
        proof {
            let whole = self@.ram.len() as int;
            assert(is_power_of_two(whole) && grant_size <= whole);
            let c = closest_power_of_two_spec(grant_size as int);
            assert(is_smallest_power_of_two_above(c, grant_size as int)) by {
                let e = choose|e: nat| e < 32 && whole == #[trigger] vstd::arithmetic::power2::pow2(e);
                crate::math::lemma_closest_exists(grant_size as int);
            }
            assert(c <= whole);
        }
        let grant_base = mem_end - grant_len;
        let mut plan: Vec<RegionRequest> = Vec::new();
        plan.push(
            RegionRequest::Region {
                index: 0,
                base: self.flash_start,
                len: self.flash_len,
                execute: ExecutePermission::ExecutionPermitted,
                access: AccessPermission::ReadOnly,
            },
        );
        plan.push(
            RegionRequest::Region {
                index: 1,
                base: self.memory.start(),
                len: self.memory.len(),
                execute: ExecutePermission::ExecutionPermitted,
                access: AccessPermission::ReadWrite,
            },
        );
        plan.push(
            RegionRequest::Region {
                index: 2,
                base: grant_base,
                len: grant_len,
                execute: ExecutePermission::ExecutionNotPermitted,
                access: AccessPermission::PrivilegedOnly,
            },
        );
        let mut i: usize = 0;
        while i < self.mpu_regions.len()
            invariant
                self.wf(),
                i <= self.mpu_regions@.len(),
                plan@.len() == 3 + i,
                plan@.subrange(0, 3) == self@.mpu_plan().subrange(0, 3),
                forall|j: int| 0 <= j < i ==> plan@[3 + j] == self@.ipc_region_request(j),
            decreases self.mpu_regions@.len() - i,
        {
            let region = self.mpu_regions[i];
            if region.base == 0 {
                plan.push(RegionRequest::Empty { index: i + 3 });
            } else {
                plan.push(
                    RegionRequest::Region {
                        index: i + 3,
                        base: region.base,
                        len: region.size.as_num() as usize,
                        execute: ExecutePermission::ExecutionPermitted,
                        access: AccessPermission::ReadWrite,
                    },
                );
            }
            i = i + 1;
        }
        proof {
            let want = self@.mpu_plan();
            assert(want.len() == plan@.len());
            assert forall|k: int| 0 <= k < plan@.len() implies plan@[k] == want[k] by {
                if k < 3 {
                    assert(plan@[k] == plan@.subrange(0, 3)[k]);
                    assert(want[k] == want.subrange(0, 3)[k]);
                } else {
                    assert(plan@[3 + (k - 3)] == self@.ipc_region_request(k - 3));
                }
            }
            assert(plan@ =~= want);
        }
        plan
    }

    /// Sets every pointer in the table of grants to 0.
    fn grant_ptrs_reset(&mut self)
        requires
            old(self).wf(),
        ensures
            final(self).wf(),
            final(self)@ == old(self)@.with_grant_ptrs_reset(),
    {
        let n = self.grant_ptrs_num;
        let mem_end = self.memory.end();
        let ghost base = self@.ram_base as int;
        let ghost bytes = self@.ram;
        let mut grant_num: usize = 0;
        proof {
            lemma_word_width();
        }
        while grant_num < n
            invariant
                grant_num <= n,
                n == self.grant_ptrs_num,
                mem_end == base + bytes.len(),
                old(self).wf(),
                self.wf(),
                self@ == (ProcessView {
                    ram: with_grants_nulled(base, bytes, grant_num as nat),
                    ..old(self)@
                }),
                base == old(self)@.ram_base,
                bytes == old(self)@.ram,
            decreases n - grant_num,
        {
            proof {
                lemma_word_width();
                assert((grant_num + 1) * WORD_SIZE <= n * WORD_SIZE) by (nonlinear_arith)
                    requires
                        grant_num + 1 <= n,
                        WORD_SIZE > 0,
                ;
                assert(grant_num * WORD_SIZE <= n * WORD_SIZE) by (nonlinear_arith)
                    requires
                        grant_num <= n,
                        WORD_SIZE > 0,
                ;
                lemma_with_grants_nulled(base, bytes, grant_num as nat);
                lemma_with_grants_nulled(base, bytes, (grant_num + 1) as nat);
            }
            let slot = mem_end - (grant_num + 1) * WORD_SIZE;
            self.memory.write_word(slot, 0);
            grant_num = grant_num + 1;
        }
    }

    /// Deals with a fault of a process that is to be started again: drops
    /// its waiting tasks, resets its memory and its crash record, and queues
    /// the call of its entry function. The kernel's count of work loses the
    /// dropped tasks and gains the new one.
    pub fn fault_state(&mut self, work: &mut usize)
        requires
            old(self).wf(),
            old(self)@.fault_response == FaultResponse::Restart,
            *old(work) >= old(self)@.tasks.len(),
            *old(work) - old(self)@.tasks.len() < usize::MAX,
        ensures
            final(self).wf(),
            final(self)@ =~= old(self)@.restarted(),
            *final(work) == *old(work) - old(self)@.tasks.len() + 1,
    {
        self.state = State::Fault;
        let tasks_len = self.tasks.len();
        *work = *work - tasks_len;
        self.tasks.empty();
        self.debug.restart_count = self.debug.restart_count.saturating_add(1);
        self.debug.syscall_count = 0;
        self.debug.last_syscall = None;
        self.debug.dropped_callback_count = 0;
        let init_fn = self.flash_start + self.header.get_init_function_offset() as usize;
        self.syscall.reset(init_fn);
        self.state = State::Yielded;
        self.grant_ptrs_reset();
        proof {
            lemma_word_width();
            lemma_with_grants_nulled(
                old(self)@.ram_base as int,
                old(self)@.ram,
                old(self)@.grant_ptrs_num as nat,
            );
        }
        self.kernel_memory_break = self.original_kernel_memory_break;
        self.app_break = self.original_app_break;
        self.current_stack_pointer = self.original_stack_pointer;
        let flash_app_start = self.flash_start + self.header.get_protected_size() as usize;
        let enqueued = self.tasks.enqueue(
            Task::FunctionCall(
                FunctionCall {
                    pc: init_fn,
                    r0: flash_app_start,
                    r1: self.memory.start(),
                    r2: self.memory.len(),
                    r3: self.app_break,
                },
            ),
        );
        *work = *work + 1;
    }

    /// The bytes at the top of a new process's RAM that the kernel keeps for
    /// itself, if that number can be held.
    fn overhead(grant_ptrs_num: usize) -> (r: Option<usize>)
        ensures
            r is Some ==> r->0 == kernel_overhead::<S>(grant_ptrs_num as int),
            r is None ==> kernel_overhead::<S>(grant_ptrs_num as int) > usize::MAX,
    {
        proof {
            lemma_word_width();
        }
        let grant_ptrs_offset = match grant_ptrs_num.checked_mul(WORD_SIZE) {
            Some(n) => n,
            None => {
                return None;
            },
        };
        let callback_size = core::mem::size_of::<Task>();
        let callbacks_offset = match CALLBACK_LEN.checked_mul(callback_size) {
            Some(n) => n,
            None => {
                return None;
            },
        };
        let process_struct_offset = core::mem::size_of::<Process<S>>();
        match grant_ptrs_offset.checked_add(callbacks_offset) {
            Some(n) => n.checked_add(process_struct_offset),
            None => None,
        }
    }

    /// Why `create` cannot be called on an application with this header, if
    /// it cannot: `create` asks for exactly the arguments on which the answer
    /// is `None`.
    pub fn check_create(
        header: &TbfHeader,
        app_flash_address: usize,
        remaining_app_memory: usize,
        remaining_app_memory_size: usize,
        grant_ptrs_num: usize,
    ) -> (r: Option<LoadError>)
        ensures
            r == creation_error::<S>(
                *header,
                app_flash_address,
                remaining_app_memory,
                remaining_app_memory_size,
                grant_ptrs_num,
            ),
    {
        if !header.is_app() || !header.enabled() {
            return None;
        }
        let overhead = match Self::overhead(grant_ptrs_num) {
            Some(n) => n,
            None => {
                return Some(LoadError::OutOfRange);
            },
        };
        if overhead == 0 || overhead > 0x8000_0000 || header.get_minimum_app_ram_size()
            > 0x8000_0000 || remaining_app_memory_size > usize::MAX - remaining_app_memory
            || INITIAL_APP_MEMORY > usize::MAX - remaining_app_memory
            || header.get_total_size() as usize > usize::MAX - app_flash_address
            || header.get_init_function_offset() as usize > usize::MAX - app_flash_address
            || header.get_protected_size() as usize > usize::MAX - app_flash_address {
            return Some(LoadError::OutOfRange);
        }
        let mut min_app_ram_size = header.get_minimum_app_ram_size();
        if min_app_ram_size < overhead as u32 {
            min_app_ram_size = overhead as u32;
        }
        let ram_size = closest_power_of_two(min_app_ram_size) as usize;
        proof {
            crate::math::lemma_closest_exists(min_app_ram_size as int);
            lemma_closest_power_of_two_spec(min_app_ram_size as int, ram_size as int);
        }
        let init_fn = app_flash_address + header.get_init_function_offset() as usize;
        if ram_size > remaining_app_memory_size {
            Some(
                LoadError::InsufficientMemory {
                    requested: ram_size,
                    available: remaining_app_memory_size,
                },
            )
        } else if init_fn % 2 != 1 {
            Some(LoadError::InitFunctionNotThumb { init_fn })
        } else {
            None
        }
    }

    /// Makes a process for the application whose image is at
    /// `app_flash_address`, in the RAM that starts at `remaining_app_memory`,
    /// and says how much flash and how much RAM it takes. `header` is what
    /// was read of the image's header: with no header nothing is made and
    /// nothing taken; for padding or a disabled application no process is
    /// made and only the image's flash is taken.
    ///
    /// The application must be one that can be loaded: `check_create` says
    /// whether it is.
    pub fn create(
        work: &mut usize,
        header: Option<TbfHeader>,
        app_flash_address: usize,
        remaining_app_memory: usize,
        remaining_app_memory_size: usize,
        fault_response: FaultResponse,
        grant_ptrs_num: usize,
    ) -> (r: (Option<Process<S>>, usize, usize))
        requires
            *old(work) < usize::MAX,
            header is Some ==> creation_error::<S>(
                header->0,
                app_flash_address,
                remaining_app_memory,
                remaining_app_memory_size,
                grant_ptrs_num,
            ) is None,
        ensures
            header is None ==> r.0 is None && r.1 == 0 && r.2 == 0 && *final(work) == *old(work),
            header is Some && !(header->0.is_app && header->0.enabled) ==> r.0 is None && r.1
                == header->0.total_size && r.2 == 0 && *final(work) == *old(work),
            header is Some && header->0.is_app && header->0.enabled ==> {
                &&& r.0 is Some
                &&& r.0->0.wf()
                &&& r.0->0@ =~= ProcessView::created(
                    S::initial_stored_state_spec(),
                    ContextSwitchReason::Other,
                    header->0,
                    app_flash_address,
                    remaining_app_memory,
                    r.2,
                    kernel_overhead::<S>(grant_ptrs_num as int) as usize,
                    fault_response,
                    grant_ptrs_num,
                )
                &&& r.1 == header->0.total_size
                &&& r.2 == app_ram_size(
                    header->0.minimum_app_ram_size as int,
                    kernel_overhead::<S>(grant_ptrs_num as int),
                )
                &&& *final(work) == *old(work) + 1
            },
    {
        let tbf_header = match header {
            Some(h) => h,
            None => {
                return (None, 0, 0);
            },
        };
        let app_flash_size = tbf_header.get_total_size() as usize;
        if !tbf_header.is_app() || !tbf_header.enabled() {
            return (None, app_flash_size, 0);
        }
        proof {
            lemma_word_width();
        }
        let mut min_app_ram_size = tbf_header.get_minimum_app_ram_size();
        let init_fn = app_flash_address + tbf_header.get_init_function_offset() as usize;

        // The application starts with this much room for its stack and heap.
        let initial_stack_pointer = remaining_app_memory + INITIAL_APP_MEMORY;
        let initial_sbrk_pointer = remaining_app_memory + INITIAL_APP_MEMORY;

        // What the kernel keeps at the top of the RAM: the grant pointers,
        // the ring of tasks, and the process record.
        let grant_ptrs_offset = grant_ptrs_num * WORD_SIZE;
        let callbacks_offset = CALLBACK_LEN * core::mem::size_of::<Task>();
        let process_struct_offset = core::mem::size_of::<Process<S>>();
        let overhead = grant_ptrs_offset + callbacks_offset + process_struct_offset;
        if min_app_ram_size < overhead as u32 {
            min_app_ram_size = overhead as u32;
        }
        let app_ram_size = closest_power_of_two(min_app_ram_size) as usize;
        proof {
            crate::math::lemma_closest_exists(min_app_ram_size as int);
            lemma_closest_power_of_two_spec(min_app_ram_size as int, app_ram_size as int);
            vstd::arithmetic::power2::lemma2_to64();
            let e = choose|e: nat|
                e < 32 && app_ram_size == #[trigger] vstd::arithmetic::power2::pow2(e);
            if e < 31 {
                vstd::arithmetic::power2::lemma_pow2_strictly_increases(e, 31);
            }
        }

        // All of the RAM is zero, and so are the grant pointers at its top.
        let app_memory = Memory::new(remaining_app_memory, app_ram_size);
        let mut kernel_memory_break = remaining_app_memory + app_ram_size;
        kernel_memory_break = kernel_memory_break - grant_ptrs_offset;
        kernel_memory_break = kernel_memory_break - callbacks_offset;
        let empty_slot = Task::FunctionCall(FunctionCall { r0: 0, r1: 0, r2: 0, r3: 0, pc: 0 });
        let tasks = RingBuffer::with_slots(CALLBACK_LEN, empty_slot);
        kernel_memory_break = kernel_memory_break - process_struct_offset;

        let mut mpu_regions: Vec<MpuRegion> = Vec::new();
        let mut i: usize = 0;
        while i < IPC_REGIONS
            invariant
                i <= IPC_REGIONS,
                mpu_regions@.len() == i,
                forall|j: int|
                    0 <= j < i ==> mpu_regions@[j] == (MpuRegion { base: 0, size: PowerOfTwo(0) }),
            decreases IPC_REGIONS - i,
        {
            mpu_regions.push(MpuRegion { base: 0, size: PowerOfTwo::zero() });
            i = i + 1;
        }

        let mut syscall = S::new();
        syscall.reset(init_fn);
        let flash_app_start = app_flash_address + tbf_header.get_protected_size() as usize;

        let mut process = Process {
            syscall,
            stored_regs: S::initial_stored_state(),
            memory: app_memory,
            kernel_memory_break,
            original_kernel_memory_break: kernel_memory_break,
            app_break: initial_sbrk_pointer,
            original_app_break: initial_sbrk_pointer,
            current_stack_pointer: initial_stack_pointer,
            original_stack_pointer: initial_stack_pointer,
            flash_start: app_flash_address,
            flash_len: app_flash_size,
            header: tbf_header,
            state: State::Yielded,
            fault_response,
            mpu_regions,
            tasks,
            debug: ProcessDebug {
                app_heap_start_pointer: None,
                app_stack_start_pointer: None,
                min_stack_pointer: initial_stack_pointer,
                syscall_count: 0,
                last_syscall: None,
                dropped_callback_count: 0,
                restart_count: 0,
            },
            grant_ptrs_num,
        };
        let enqueued = process.tasks.enqueue(
            Task::FunctionCall(
                FunctionCall {
                    pc: init_fn,
                    r0: flash_app_start,
                    r1: remaining_app_memory,
                    r2: app_ram_size,
                    r3: initial_sbrk_pointer,
                },
            ),
        );
        *work = *work + 1;
        (Some(process), app_flash_size, app_ram_size)
    }

    /// Where the process's memory lies and how much of it is in use, for
    /// the explanation of a crash.
    pub fn statistics(&self) -> (r: ProcessStatistics)
        requires
            self.wf(),
        ensures
            r == self@.statistics(),
    {
        let flash_start = self.flash_start;
        let flash_end = self.flash_end();
        let flash_protected_size = self.header.get_protected_size() as usize;
        let flash_app_start = flash_start + flash_protected_size;
        let flash_app_size = flash_end.wrapping_sub(flash_app_start);
        let flash_init_fn = flash_start + self.header.get_init_function_offset() as usize;

        let sram_end = self.mem_end();
        let sram_grant_start = self.kernel_memory_break;
        let sram_heap_end = self.app_break;
        let sram_heap_start = match self.debug.app_heap_start_pointer {
            Some(address) => address,
            None => 0,
        };
        let sram_stack_start = match self.debug.app_stack_start_pointer {
            Some(address) => address,
            None => 0,
        };
        let sram_stack_bottom = self.debug.min_stack_pointer;
        let sram_start = self.memory.start();

        let sram_grant_size = sram_end.wrapping_sub(sram_grant_start);
        let sram_heap_size = sram_heap_end.wrapping_sub(sram_heap_start);
        let sram_data_size = sram_heap_start.wrapping_sub(sram_stack_start);
        let sram_stack_size = sram_stack_start.wrapping_sub(sram_stack_bottom);
        let sram_grant_allocated = sram_end.wrapping_sub(sram_grant_start);
        let sram_heap_allocated = sram_grant_start.wrapping_sub(sram_heap_start);
        let sram_stack_allocated = sram_stack_start.wrapping_sub(sram_start);
        let sram_data_allocated = sram_data_size;

        ProcessStatistics {
            flash_start,
            flash_app_start,
            flash_end,
            flash_protected_size,
            flash_app_size,
            flash_init_fn,
            sram_start,
            sram_stack_bottom,
            sram_stack_start,
            sram_heap_start,
            sram_heap_end,
            sram_grant_start,
            sram_end,
            sram_grant_size,
            sram_heap_size,
            sram_data_size,
            sram_stack_size,
            sram_grant_allocated,
            sram_heap_allocated,
            sram_data_allocated,
            sram_stack_allocated,
            sram_grant_exceeded: sram_grant_size > sram_grant_allocated,
            sram_heap_exceeded: sram_heap_size > sram_heap_allocated,
            sram_stack_exceeded: sram_stack_size > sram_stack_allocated,
            state: self.state,
            events_queued: self.tasks.len(),
            syscall_count: self.debug.syscall_count,
            last_syscall: self.debug.last_syscall,
            dropped_callback_count: self.debug.dropped_callback_count,
            restart_count: self.debug.restart_count,
            yield_pc: self.syscall.saved_yield_pc(),
        }
    }
}

} // verus!
