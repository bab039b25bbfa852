//! Grants: memory that a driver keeps for an application in the
//! application's own RAM. There is one kind of grant for each driver that
//! asks for one, and every process has room for a pointer to a grant of each
//! kind. A grant is allocated when the driver first enters it, and stays
//! until the process is started again.

use vstd::prelude::*;
use crate::callback::AppId;
use crate::process::Error;
use crate::sched::Kernel;
use crate::sched::KernelView;
use crate::syscall::SyscallInterface;

verus! {

/// One kind of grant: its number, and the size of the grant in bytes.
pub struct Grant {
    grant_num: usize,
    size: usize,
}

/// A grant that has been allocated for the application `appid`, at the
/// address `grant`.
#[derive(Clone, Copy, Debug, PartialEq, Eq)]
pub struct AppliedGrant {
    pub appid: AppId,
    pub grant: usize,
}

/// Takes more memory from the kernel's part of the RAM of `appid`.
#[derive(Clone, Copy, Debug, PartialEq, Eq)]
pub struct Allocator {
    pub appid: AppId,
}

/// Memory at `data` in the kernel's part of the RAM of `appid`, handed to a
/// driver for good.
#[derive(Clone, Copy, Debug, PartialEq, Eq)]
pub struct Owned {
    pub data: usize,
    pub appid: AppId,
}

/// Memory at `data` in the kernel's part of the RAM of `appid`, lent to a
/// driver while it has entered the grant.
#[derive(Clone, Copy, Debug, PartialEq, Eq)]
pub struct Borrowed {
    pub data: usize,
    pub appid: AppId,
}

impl AppliedGrant {
    /// Enters the grant: hands out its memory, and the means to take more.
    pub fn enter(self) -> (r: (Owned, Allocator))
        ensures
            r.0 == (Owned { data: self.grant, appid: self.appid }),
            r.1 == (Allocator { appid: self.appid }),
    {
        (Owned::new(self.grant, self.appid), Allocator { appid: self.appid })
    }
}

impl Owned {
    /// The memory at `data` of the application `appid`.
    pub fn new(data: usize, appid: AppId) -> (r: Owned)
        ensures
            r == (Owned { data, appid }),
    {
        Owned { data, appid }
    }

    /// The application in whose RAM the memory lies.
    pub fn appid(&self) -> (r: AppId)
        ensures
            r == self.appid,
    {
        self.appid
    }
}

impl Allocator {
    /// Takes `size` more bytes from the kernel's part of the application's
    /// RAM. `NoSuchApp` where there is no such application, `OutOfMemory`
    /// where it has no room for them.
    pub fn allocate<S: SyscallInterface>(&mut self, kernel: &mut Kernel<S>, size: usize) -> (r:
        Result<Owned, Error>)
        requires
            old(kernel).wf(),
        ensures
            *final(self) == *old(self),
            final(kernel).wf(),
            r == match old(kernel)@.allocate_result(old(self).appid.idx as int, size) {
                Ok(data) => Ok(Owned { data, appid: old(self).appid }),
                Err(e) => Err(e),
            },
            final(kernel)@ =~= old(kernel)@.after_allocate(old(self).appid.idx as int, size),
    {
        match kernel.allocate(self.appid.idx(), size) {
            Ok(data) => Ok(Owned::new(data, self.appid)),
            Err(e) => Err(e),
        }
    }
}

impl Borrowed {
    /// The memory at `data` of the application `appid`.
    pub fn new(data: usize, appid: AppId) -> (r: Borrowed)
        ensures
            r == (Borrowed { data, appid }),
    {
        Borrowed { data, appid }
    }

    /// The application in whose RAM the memory lies.
    pub fn appid(&self) -> (r: AppId)
        ensures
            r == self.appid,
    {
        self.appid
    }
}

impl Grant {
    /// The number of this kind of grant.
    pub closed spec fn number(&self) -> usize {
        self.grant_num
    }

    /// The size of a grant of this kind, in bytes.
    pub closed spec fn payload_size(&self) -> usize {
        self.size
    }

    /// What `grant` answers for the application `appid`.
    pub open spec fn applied<R>(&self, kernel: KernelView<R>, appid: AppId) -> Option<
        AppliedGrant,
    > {
        if kernel.materialised(appid.idx as int, self.number()) {
            Some(
                AppliedGrant {
                    appid,
                    grant: kernel.process(appid.idx as int).grant_pointer(self.number() as int),
                },
            )
        } else {
            None
        }
    }

    /// A new kind of grant, of `size` bytes. Grants are to be made before
    /// the processes are loaded.
    pub fn new<S: SyscallInterface>(kernel: &mut Kernel<S>, size: usize) -> (r: Grant)
        requires
            old(kernel)@.grant_counter < usize::MAX,
        ensures
            final(kernel).inv() == old(kernel).inv(),
            r.number() == old(kernel)@.grant_counter,
            r.payload_size() == size,
            final(kernel)@ == (KernelView {
                grant_counter: (old(kernel)@.grant_counter + 1) as usize,
                ..old(kernel)@
            }),
    {
        let grant_num = kernel.create_grant_number();
        Grant { grant_num, size }
    }

    /// The number of this kind of grant.
    pub fn grant_num(&self) -> (r: usize)
        ensures
            r == self.number(),
    {
        self.grant_num
    }

    /// The grant of the application `appid`, if it has been allocated.
    pub fn grant<S: SyscallInterface>(&self, kernel: &Kernel<S>, appid: AppId) -> (r: Option<
        AppliedGrant,
    >)
        requires
            kernel.wf(),
        ensures
            r == self.applied(kernel@, appid),
    {
        match kernel.process(appid.idx()) {
            Some(process) => {
                if self.grant_num >= process.grant_ptrs_num() {
                    None
                } else {
                    let cntr = process.grant_for(self.grant_num);
                    if cntr == 0 {
                        None
                    } else {
                        Some(AppliedGrant { appid, grant: cntr })
                    }
                }
            },
            None => None,
        }
    }

    /// Enters the grant of the application `appid`, allocating it first if
    /// that has not been done: hands out its memory, and the means to take
    /// more. `NoSuchApp` where there is no such application, `OutOfMemory`
    /// where it has no room for the grant.
    pub fn enter<S: SyscallInterface>(&self, kernel: &mut Kernel<S>, appid: AppId) -> (r: Result<
        (Borrowed, Allocator),
        Error,
    >)
        requires
            old(kernel).wf(),
        ensures
            final(kernel).wf(),
            r == match old(kernel)@.grant_for_or_alloc_result(
                appid.idx as int,
                self.number(),
                self.payload_size(),
            ) {
                Ok(data) => Ok((Borrowed { data, appid }, Allocator { appid })),
                Err(e) => Err(e),
            },
            final(kernel)@ =~= old(kernel)@.after_grant_for_or_alloc(
                appid.idx as int,
                self.number(),
                self.payload_size(),
            ),
    {
        match kernel.grant_for_or_alloc(appid.idx(), self.grant_num, self.size) {
            Ok(root_ptr) => Ok((Borrowed::new(root_ptr, appid), Allocator { appid })),
            Err(e) => Err(e),
        }
    }

    /// The grants of this kind that have been allocated, in the order of
    /// the applications' slots.
    pub fn each<S: SyscallInterface>(&self, kernel: &Kernel<S>) -> (r: Vec<Owned>)
        requires
            kernel.wf(),
        ensures
            r@ == self.owned_from(kernel@, 0),
    {
        let mut roots: Vec<Owned> = Vec::new();
        let len = kernel.number_of_process_slots();
        let mut app_id: usize = 0;
        while app_id < len
            invariant
                kernel.wf(),
                app_id <= len,
                len == kernel@.processes.len(),
                self.owned_from(kernel@, 0) == roots@ + self.owned_from(kernel@, app_id as int),
            decreases len - app_id,
        {
            let ghost rest = self.owned_from(kernel@, app_id + 1);
            match self.grant(kernel, AppId::new(app_id)) {
                Some(applied) => {
                    let root = Owned::new(applied.grant, applied.appid);
                    proof {
                        assert((roots@ + seq![root]) + rest =~= roots@ + (seq![root] + rest));
                    }
                    roots.push(root);
                },
                None => {},
            }
            app_id = app_id + 1;
        }
        proof {
            assert(roots@ + Seq::<Owned>::empty() =~= roots@);
        }
        roots
    }

    /// The grants of this kind that have been allocated for the
    /// applications in the slots from `from` on, in the order of the slots.
    pub open spec fn owned_from<R>(&self, kernel: KernelView<R>, from: int) -> Seq<Owned>
        decreases kernel.processes.len() - from,
    {
        if from < 0 || from >= kernel.processes.len() {
            Seq::empty()
        } else {
            match self.applied(kernel, AppId { idx: from as usize }) {
                Some(applied) => seq![Owned { data: applied.grant, appid: applied.appid }]
                    + self.owned_from(kernel, from + 1),
                None => self.owned_from(kernel, from + 1),
            }
        }
    }

    /// Goes through the applications for which a grant of this kind has
    /// been allocated, from the first slot on.
    pub fn iter<S: SyscallInterface>(&self, kernel: &Kernel<S>) -> (r: Iter)
        ensures
            r.index == 0,
            r.len == kernel@.processes.len(),
    {
        Iter { index: 0, len: kernel.number_of_process_slots() }
    }
}

/// How far `Grant::iter` has come: the next slot to look at, and the number
/// of slots.
#[derive(Clone, Copy, Debug, PartialEq, Eq)]
pub struct Iter {
    pub index: usize,
    pub len: usize,
}

impl Iter {
    /// The next application, from the slot `index` on, for which a grant of
    /// the kind `grant` has been allocated; `None` when there is no more.
    pub fn next<S: SyscallInterface>(&mut self, grant: &Grant, kernel: &Kernel<S>) -> (r: Option<
        AppliedGrant,
    >)
        requires
            kernel.wf(),
            old(self).len == kernel@.processes.len(),
        ensures
            final(self).len == old(self).len,
            kernel@.first_materialised(grant.number(), old(self).index as int) < old(self).len ==> r
                == grant.applied(
                kernel@,
                AppId {
                    idx: kernel@.first_materialised(grant.number(), old(self).index as int) as usize,
                },
            ) && r is Some && final(self).index == kernel@.first_materialised(
                grant.number(),
                old(self).index as int,
            ) + 1,
            kernel@.first_materialised(grant.number(), old(self).index as int) >= old(self).len
                ==> r is None && final(self).index == if old(self).index < old(self).len {
                old(self).len
            } else {
                old(self).index
            },
    {
        while self.index < self.len
            invariant
                kernel.wf(),
                self.len == old(self).len,
                self.len == kernel@.processes.len(),
                kernel@.first_materialised(grant.number(), old(self).index as int)
                    == kernel@.first_materialised(grant.number(), self.index as int),
                old(self).index < old(self).len ==> self.index <= self.len,
                old(self).index >= old(self).len ==> self.index == old(self).index,
            decreases self.len - self.index,
        {
            let idx = self.index;
            self.index = self.index + 1;
            let res = grant.grant(kernel, AppId::new(idx));
            if res.is_some() {
                return res;
            }
        }
        None
    }
}

} // verus!
