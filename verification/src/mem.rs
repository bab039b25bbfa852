//! Memory of an application that a driver may use: a checked range of the
//! application's own RAM.

use vstd::prelude::*;
use crate::callback::AppId;
use crate::sched::Kernel;
use crate::sched::KernelView;
use crate::syscall::SyscallInterface;

verus! {

/// Marks memory that only its owner uses.
#[derive(Copy, Clone, Debug, Eq, PartialEq)]
pub struct Private;

/// Marks memory that an application has shared.
#[derive(Copy, Clone, Debug, Eq, PartialEq)]
pub struct Shared;

/// An address in the RAM of the process `process`. `L` is `Private` or
/// `Shared`.
#[derive(Debug, Eq, PartialEq)]
pub struct AppPtr<L> {
    pub ptr: usize,
    pub process: AppId,
    pub kind: L,
}

impl<L: Copy> Clone for AppPtr<L> {
    fn clone(&self) -> (r: Self)
        ensures
            r == *self,
    {
        *self
    }
}

impl<L: Copy> Copy for AppPtr<L> {

}

impl<L> AppPtr<L> {
    /// The address `ptr` in the RAM of `appid`.
    pub fn new(ptr: usize, appid: AppId, kind: L) -> (r: AppPtr<L>)
        ensures
            r == (AppPtr::<L> { ptr, process: appid, kind }),
    {
        AppPtr { ptr, process: appid, kind }
    }
}

/// The `len` bytes from `ptr` on in the RAM of a process. `L` is `Private`
/// or `Shared`.
#[derive(Debug, Eq, PartialEq)]
pub struct AppSlice<L> {
    pub ptr: AppPtr<L>,
    pub len: usize,
}

impl<L: Copy> Clone for AppSlice<L> {
    fn clone(&self) -> (r: Self)
        ensures
            r == *self,
    {
        *self
    }
}

impl<L: Copy> Copy for AppSlice<L> {

}

impl<L> AppSlice<L> {
    /// The slice lies in the RAM of its process.
    pub open spec fn valid_in<R>(self, kernel: KernelView<R>) -> bool {
        &&& kernel.has_process(self.ptr.process.idx as int)
        &&& kernel.process(self.ptr.process.idx as int).in_exposed_bounds(
            self.ptr.ptr as int,
            self.len as int,
        )
    }

    /// The bytes of the slice, as its process's RAM holds them.
    pub open spec fn bytes_in<R>(self, kernel: KernelView<R>) -> Seq<u8> {
        let process = kernel.process(self.ptr.process.idx as int);
        process.ram.subrange(
            self.ptr.ptr - process.ram_base,
            self.ptr.ptr - process.ram_base + self.len,
        )
    }

    /// Whether `expose_to` shares the slice with the application `appid`:
    /// that has to be another application than the owner, and one that takes
    /// the region into its table.
    pub open spec fn exposed_to<R>(self, kernel: KernelView<R>, appid: AppId) -> bool {
        &&& appid.idx != self.ptr.process.idx
        &&& kernel.has_process(appid.idx as int)
        &&& self.len <= u32::MAX
        &&& kernel.process(appid.idx as int).add_mpu_region_result(self.ptr.ptr, self.len as u32)
    }

    /// The `len` bytes from `ptr` on in the RAM of `appid`.
    pub fn new(ptr: usize, len: usize, appid: AppId, kind: L) -> (r: AppSlice<L>)
        ensures
            r == (AppSlice::<L> { ptr: AppPtr { ptr, process: appid, kind }, len }),
    {
        AppSlice { ptr: AppPtr::new(ptr, appid, kind), len }
    }

    /// The number of bytes.
    pub fn len(&self) -> (r: usize)
        ensures
            r == self.len,
    {
        self.len
    }

    /// The address of the first byte.
    pub fn ptr(&self) -> (r: usize)
        ensures
            r == self.ptr.ptr,
    {
        self.ptr.ptr
    }

    /// The bytes of the slice, where its process exists and the slice lies
    /// in that process's RAM.
    pub fn as_ref<'a, S: SyscallInterface>(&self, kernel: &'a Kernel<S>) -> (r: Option<&'a [u8]>)
        requires
            kernel.wf(),
        ensures
            r is Some == self.valid_in(kernel@),
            r is Some ==> r->0@ == self.bytes_in(kernel@),
    {
        match kernel.process(self.ptr.process.idx()) {
            Some(process) => {
                if process.in_exposed_bounds(self.ptr.ptr, self.len) {
                    Some(process.memory().slice(self.ptr.ptr, self.len))
                } else {
                    None
                }
            },
            None => None,
        }
    }

    /// Goes through the bytes of the slice, where its process exists and
    /// the slice lies in that process's RAM.
    pub fn iter<'a, S: SyscallInterface>(&self, kernel: &'a Kernel<S>) -> (r: Option<
        core::slice::Iter<'a, u8>,
    >)
        requires
            kernel.wf(),
        ensures
            r is Some == self.valid_in(kernel@),
            r is Some ==> vstd::std_specs::iter::IteratorSpec::remaining(&r->0).unref()
                == self.bytes_in(kernel@),
    {
        broadcast use vstd::std_specs::slice::axiom_spec_slice_iter;

        match self.as_ref(kernel) {
            Some(bytes) => Some(bytes.iter()),
            None => None,
        }
    }

    /// Stores `data` in the slice, from its byte `offset` on, and says
    /// whether it did: not where `data` does not fit into the slice from
    /// there, or where the slice does not lie in the RAM of its process.
    pub fn write<S: SyscallInterface>(&self, kernel: &mut Kernel<S>, offset: usize, data: &[u8])
        -> (r: bool)
        requires
            old(kernel).wf(),
        ensures
            final(kernel).wf(),
            r == (offset + data@.len() <= self.len && self.valid_in(old(kernel)@)),
            final(kernel)@ =~= (if r {
                old(kernel)@.with_bytes_stored(
                    self.ptr.process.idx as int,
                    (self.ptr.ptr + offset) as usize,
                    data@,
                )
            } else {
                old(kernel)@
            }),
    {
        if offset > self.len || data.len() > self.len - offset {
            return false;
        }
        let valid = match kernel.process(self.ptr.process.idx()) {
            Some(process) => process.in_exposed_bounds(self.ptr.ptr, self.len),
            None => false,
        };
        if !valid {
            return false;
        }
        kernel.store_bytes(self.ptr.process.idx(), self.ptr.ptr + offset, data)
    }

    /// Lets the application `appid` use the slice as well, and says whether
    /// that was done: the slice becomes a region in that application's table
    /// of shared regions. Nothing is done for the owner itself, for an empty
    /// slot, or for a slice that is no valid region.
    pub fn expose_to<S: SyscallInterface>(&self, kernel: &mut Kernel<S>, appid: AppId) -> (r: bool)
        requires
            old(kernel).wf(),
        ensures
            final(kernel).wf(),
            r == self.exposed_to(old(kernel)@, appid),
            final(kernel)@ =~= old(kernel)@.with_mpu_region(
                appid.idx as int,
                self.ptr.process.idx as int,
                self.ptr.ptr,
                self.len,
            ),
    {
        if appid.idx() != self.ptr.process.idx() {
            kernel.add_mpu_region(appid.idx(), self.ptr.ptr, self.len)
        } else {
            false
        }
    }
}

} // verus!
