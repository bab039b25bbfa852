//! Who an application is, and the functions it asked to have called back.

use vstd::prelude::*;
use crate::process::FunctionCall;
use crate::process::Task;
use crate::sched::Kernel;
use crate::syscall::SyscallInterface;

verus! {

/// Names one application: the index of its slot in the kernel's process
/// table. Two ids are equal when they name the same slot.
#[derive(Clone, Copy, Debug, PartialEq, Eq, Structural)]
pub struct AppId {
    pub idx: usize,
}

impl AppId {
    /// The id of the application in slot `idx`.
    pub fn new(idx: usize) -> (id: AppId)
        ensures
            id.idx == idx,
    {
        AppId { idx }
    }

    /// The slot that this id names.
    pub fn idx(&self) -> (i: usize)
        ensures
            i == self.idx,
    {
        self.idx
    }
}

impl AppId {
    /// The part of the application's image that may be written: from the end
    /// of the protected region to the end of the image. `(0, 0)` where there
    /// is no such application.
    pub fn get_editable_flash_range<S: SyscallInterface>(&self, kernel: &Kernel<S>) -> (r: (
        usize,
        usize,
    ))
        requires
            kernel.wf(),
        ensures
            r == if kernel@.has_process(self.idx as int) {
                (
                    kernel@.process(self.idx as int).flash_app_start() as usize,
                    kernel@.process(self.idx as int).flash_end() as usize,
                )
            } else {
                (0usize, 0usize)
            },
    {
        match kernel.process(self.idx) {
            Some(process) => (process.flash_non_protected_start(), process.flash_end()),
            None => (0, 0),
        }
    }
}

/// A function of an application that a driver may have called, with a word
/// that the application wants to get back as the last argument.
#[derive(Clone, Copy, Debug, PartialEq, Eq)]
pub struct Callback {
    pub app_id: AppId,
    pub appdata: usize,
    /// The address of the function; never 0.
    pub fn_ptr: usize,
}

impl Callback {
    /// The call that `schedule` queues: the function, with the three
    /// arguments and the application's own word.
    pub open spec fn call(self, r0: usize, r1: usize, r2: usize) -> FunctionCall {
        FunctionCall { r0, r1, r2, r3: self.appdata, pc: self.fn_ptr }
    }

    /// The callback to the function at `fn_ptr` of the application `appid`.
    pub fn new(appid: AppId, appdata: usize, fn_ptr: usize) -> (r: Callback)
        requires
            fn_ptr != 0,
        ensures
            r == (Callback { app_id: appid, appdata, fn_ptr }),
    {
        Callback { app_id: appid, appdata, fn_ptr }
    }

    /// Queues a call of the function with the arguments `r0`, `r1`, `r2`,
    /// and says whether it was queued. The function is not called here: the
    /// call becomes a frame on the application's stack when the scheduler
    /// next visits the application.
    pub fn schedule<S: SyscallInterface>(
        &mut self,
        kernel: &mut Kernel<S>,
        r0: usize,
        r1: usize,
        r2: usize,
    ) -> (r: bool)
        requires
            old(kernel).wf(),
            old(kernel)@.work < usize::MAX,
        ensures
            *final(self) == *old(self),
            final(kernel).wf(),
            r == (old(kernel)@.has_process(old(self).app_id.idx as int) && old(kernel)@.process(
                old(self).app_id.idx as int,
            ).accepts_task()),
            final(kernel)@ =~= old(kernel)@.scheduled(
                old(self).app_id.idx as int,
                Task::FunctionCall(old(self).call(r0, r1, r2)),
            ),
            old(kernel)@.balanced() ==> final(kernel)@.balanced(),
    {
        kernel.schedule(
            self.app_id.idx(),
            FunctionCall { r0, r1, r2, r3: self.appdata, pc: self.fn_ptr },
        )
    }
}

} // verus!
