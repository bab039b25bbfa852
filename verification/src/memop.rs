//! The system call for a process's own memory: moving its break, and asking
//! where its memory and its image lie.

use vstd::prelude::*;
use crate::process::Process;
use crate::process::ProcessView;
use crate::returncode::ReturnCode;
use crate::syscall::SyscallInterface;

verus! {

/// Move the break to an address.
pub const MEMOP_BRK: usize = 0;

/// Move the break by a number of bytes.
pub const MEMOP_SBRK: usize = 1;

/// Ask for the address of the start of the RAM.
pub const MEMOP_MEM_START: usize = 2;

/// Ask for the address of the end of the RAM.
pub const MEMOP_MEM_END: usize = 3;

/// Ask for the address of the start of the image in flash.
pub const MEMOP_FLASH_START: usize = 4;

/// Ask for the address of the end of the image in flash.
pub const MEMOP_FLASH_END: usize = 5;

/// Ask for the lowest address of the kernel's part of the RAM.
pub const MEMOP_GRANT_START: usize = 6;

/// Ask for the number of writeable regions of the image.
pub const MEMOP_FLASH_REGIONS: usize = 7;

/// Ask for the address of the start of a writeable region.
pub const MEMOP_FLASH_REGION_START: usize = 8;

/// Ask for the address of the end of a writeable region.
pub const MEMOP_FLASH_REGION_END: usize = 9;

/// Say where the stack starts.
pub const MEMOP_STACK_START: usize = 10;

/// Say where the heap starts.
pub const MEMOP_HEAP_START: usize = 11;

/// What the operation `op_type` with the argument `r1` answers.
pub open spec fn memop_result<R>(process: ProcessView<R>, op_type: usize, r1: usize) -> ReturnCode {
    let region = process.header.writeable_flash_region(r1 as int);
    if op_type == MEMOP_BRK {
        match process.brk_result(r1 as int) {
            Ok(_) => ReturnCode::SUCCESS,
            Err(e) => e.return_code(),
        }
    } else if op_type == MEMOP_SBRK {
        match process.brk_result(process.app_break + (r1 as isize)) {
            Ok(old_break) => ReturnCode::SuccessWithValue { value: old_break },
            Err(e) => e.return_code(),
        }
    } else if op_type == MEMOP_MEM_START {
        ReturnCode::SuccessWithValue { value: process.ram_base }
    } else if op_type == MEMOP_MEM_END {
        ReturnCode::SuccessWithValue { value: process.mem_end() as usize }
    } else if op_type == MEMOP_FLASH_START {
        ReturnCode::SuccessWithValue { value: process.flash_start }
    } else if op_type == MEMOP_FLASH_END {
        ReturnCode::SuccessWithValue { value: process.flash_end() as usize }
    } else if op_type == MEMOP_GRANT_START {
        ReturnCode::SuccessWithValue { value: process.kernel_memory_break }
    } else if op_type == MEMOP_FLASH_REGIONS {
        ReturnCode::SuccessWithValue { value: process.header.writeable_flash_regions@.len() as usize }
    } else if op_type == MEMOP_FLASH_REGION_START {
        if region.1 == 0 {
            ReturnCode::FAIL
        } else {
            ReturnCode::SuccessWithValue {
                value: process.flash_start.wrapping_add(region.0 as usize),
            }
        }
    } else if op_type == MEMOP_FLASH_REGION_END {
        if region.1 == 0 {
            ReturnCode::FAIL
        } else {
            ReturnCode::SuccessWithValue {
                value: process.flash_start.wrapping_add(region.0 as usize).wrapping_add(
                    region.1 as usize,
                ),
            }
        }
    } else if op_type == MEMOP_STACK_START || op_type == MEMOP_HEAP_START {
        ReturnCode::SUCCESS
    } else {
        ReturnCode::ENOSUPPORT
    }
}

/// The process after the operation `op_type` with the argument `r1`.
pub open spec fn after_memop<R>(process: ProcessView<R>, op_type: usize, r1: usize) -> ProcessView<
    R,
> {
    if op_type == MEMOP_BRK {
        process.after_brk(r1 as int)
    } else if op_type == MEMOP_SBRK {
        process.after_brk(process.app_break + (r1 as isize))
    } else if op_type == MEMOP_STACK_START {
        process.with_stack_start(r1)
    } else if op_type == MEMOP_HEAP_START {
        process.with_heap_start(r1)
    } else {
        process
    }
}

/// Serves the system call for a process's own memory: the operation
/// `op_type` with the argument `r1`.
pub fn memop<S: SyscallInterface>(process: &mut Process<S>, op_type: usize, r1: usize) -> (r:
    ReturnCode)
    requires
        old(process).wf(),
    ensures
        final(process).wf(),
        r == memop_result(old(process)@, op_type, r1),
        final(process)@ == after_memop(old(process)@, op_type, r1),
{
    if op_type == MEMOP_BRK {
        match process.brk(r1) {
            Ok(_) => ReturnCode::SUCCESS,
            Err(e) => ReturnCode::from(e),
        }
    } else if op_type == MEMOP_SBRK {
        match process.sbrk(r1 as isize) {
            Ok(old_break) => ReturnCode::SuccessWithValue { value: old_break },
            Err(e) => ReturnCode::from(e),
        }
    } else if op_type == MEMOP_MEM_START {
        ReturnCode::SuccessWithValue { value: process.mem_start() }
    } else if op_type == MEMOP_MEM_END {
        ReturnCode::SuccessWithValue { value: process.mem_end() }
    } else if op_type == MEMOP_FLASH_START {
        ReturnCode::SuccessWithValue { value: process.flash_start() }
    } else if op_type == MEMOP_FLASH_END {
        ReturnCode::SuccessWithValue { value: process.flash_end() }
    } else if op_type == MEMOP_GRANT_START {
        ReturnCode::SuccessWithValue { value: process.kernel_memory_break() }
    } else if op_type == MEMOP_FLASH_REGIONS {
        ReturnCode::SuccessWithValue { value: process.number_writeable_flash_regions() }
    } else if op_type == MEMOP_FLASH_REGION_START {
        let flash_start = process.flash_start();
        let (offset, size) = process.get_writeable_flash_region(r1);
        if size == 0 {
            ReturnCode::FAIL
        } else {
            ReturnCode::SuccessWithValue { value: flash_start.wrapping_add(offset as usize) }
        }
    } else if op_type == MEMOP_FLASH_REGION_END {
        let flash_start = process.flash_start();
        let (offset, size) = process.get_writeable_flash_region(r1);
        if size == 0 {
            ReturnCode::FAIL
        } else {
            ReturnCode::SuccessWithValue {
                value: flash_start.wrapping_add(offset as usize).wrapping_add(size as usize),
            }
        }
    } else if op_type == MEMOP_STACK_START {
        process.update_stack_start_pointer(r1);
        ReturnCode::SUCCESS
    } else if op_type == MEMOP_HEAP_START {
        process.update_heap_start_pointer(r1);
        ReturnCode::SUCCESS
    } else {
        ReturnCode::ENOSUPPORT
    }
}

} // verus!
