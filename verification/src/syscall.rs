//! The system calls, and what the kernel asks of the architecture to serve
//! them: reading and writing the frame of registers that the hardware saves
//! on the process's stack when the process stops.

use vstd::prelude::*;
use crate::memory::in_bounds;
use crate::memory::lemma_with_word_in;
use crate::memory::with_word_in;
use crate::memory::word_in;
use crate::memory::Memory;
use crate::memory::WORD_SIZE;
use crate::process::FunctionCall;

verus! {

/// The system calls, by their numbers 0 to 4.
#[derive(Copy, Clone, Debug, Eq, PartialEq, Structural)]
pub enum Syscall {
    /// Give the processor back and wait for a callback.
    YIELD,
    /// Hand the kernel a function to call back.
    SUBSCRIBE,
    /// Ask a driver to do something.
    COMMAND,
    /// Share a buffer with a driver.
    ALLOW,
    /// Operations on the process's own memory.
    MEMOP,
}

/// Why a process stopped and the kernel runs again.
#[derive(Copy, Clone, Debug, Eq, PartialEq, Structural)]
pub enum ContextSwitchReason {
    /// Its time was up, or an interrupt came in.
    Other,
    /// It made a system call.
    SyscallFired,
    /// It faulted.
    Fault,
}

/// The number of words in a saved frame: the four argument registers, `r12`,
/// the link register, the program counter and the status word.
pub const FRAME_WORDS: usize = 8;

/// The number of bytes in a saved frame.
pub const FRAME_SIZE: usize = 8 * WORD_SIZE;

/// The status word of a process that has not run yet: the Thumb bit and
/// nothing else.
pub const INITIAL_PSR: usize = 0x0100_0000;

/// The address of word `k` of the frame at `sp`.
pub open spec fn frame_slot(sp: int, k: int) -> int {
    sp + k * WORD_SIZE
}

/// The memory after a frame for `call` was written just below `sp`: the
/// arguments in words 0 to 3, the return address `yield_pc` in word 5 and the
/// function's address in word 6, both with the Thumb bit set, and the status
/// word `psr` in word 7. Word 4 and all memory outside the frame stay.
pub open spec fn pushed_frame(
    base: int,
    bytes: Seq<u8>,
    sp: int,
    call: FunctionCall,
    yield_pc: usize,
    psr: usize,
) -> Seq<u8> {
    let bottom = sp - FRAME_SIZE;
    let m7 = with_word_in(base, bytes, frame_slot(bottom, 7), psr);
    let m6 = with_word_in(base, m7, frame_slot(bottom, 6), call.pc | 1);
    let m5 = with_word_in(base, m6, frame_slot(bottom, 5), yield_pc | 1);
    let m0 = with_word_in(base, m5, frame_slot(bottom, 0), call.r0);
    let m1 = with_word_in(base, m0, frame_slot(bottom, 1), call.r1);
    let m2 = with_word_in(base, m1, frame_slot(bottom, 2), call.r2);
    with_word_in(base, m2, frame_slot(bottom, 3), call.r3)
}

/// What a pushed frame holds, word by word, and what it leaves alone.
pub proof fn lemma_pushed_frame(
    base: int,
    bytes: Seq<u8>,
    sp: int,
    call: FunctionCall,
    yield_pc: usize,
    psr: usize,
)
    requires
        in_bounds(base, bytes, sp - FRAME_SIZE, FRAME_SIZE as int),
    ensures
        ({
            let post = pushed_frame(base, bytes, sp, call, yield_pc, psr);
            let bottom = sp - FRAME_SIZE;
            &&& post.len() == bytes.len()
            &&& word_in(base, post, frame_slot(bottom, 0)) == call.r0
            &&& word_in(base, post, frame_slot(bottom, 1)) == call.r1
            &&& word_in(base, post, frame_slot(bottom, 2)) == call.r2
            &&& word_in(base, post, frame_slot(bottom, 3)) == call.r3
            &&& word_in(base, post, frame_slot(bottom, 4)) == word_in(
                base,
                bytes,
                frame_slot(bottom, 4),
            )
            &&& word_in(base, post, frame_slot(bottom, 5)) == yield_pc | 1
            &&& word_in(base, post, frame_slot(bottom, 6)) == call.pc | 1
            &&& word_in(base, post, frame_slot(bottom, 7)) == psr
            &&& forall|i: int|
                0 <= i < bytes.len() && !(bottom - base <= i < sp - base) ==> #[trigger] post[i]
                    == bytes[i]
            &&& forall|a: int|
                in_bounds(base, bytes, a, WORD_SIZE as int) && (a + WORD_SIZE <= bottom || sp
                    <= a) ==> #[trigger] word_in(base, post, a) == word_in(base, bytes, a)
        }),
{
    crate::memory::lemma_word_width();
    let bottom = sp - FRAME_SIZE;
    let m7 = with_word_in(base, bytes, frame_slot(bottom, 7), psr);
    let m6 = with_word_in(base, m7, frame_slot(bottom, 6), call.pc | 1);
    let m5 = with_word_in(base, m6, frame_slot(bottom, 5), yield_pc | 1);
    let m0 = with_word_in(base, m5, frame_slot(bottom, 0), call.r0);
    let m1 = with_word_in(base, m0, frame_slot(bottom, 1), call.r1);
    let m2 = with_word_in(base, m1, frame_slot(bottom, 2), call.r2);
    let m3 = with_word_in(base, m2, frame_slot(bottom, 3), call.r3);
    lemma_with_word_in(base, bytes, frame_slot(bottom, 7), psr);
    lemma_with_word_in(base, m7, frame_slot(bottom, 6), call.pc | 1);
    lemma_with_word_in(base, m6, frame_slot(bottom, 5), yield_pc | 1);
    lemma_with_word_in(base, m5, frame_slot(bottom, 0), call.r0);
    lemma_with_word_in(base, m0, frame_slot(bottom, 1), call.r1);
    lemma_with_word_in(base, m1, frame_slot(bottom, 2), call.r2);
    lemma_with_word_in(base, m2, frame_slot(bottom, 3), call.r3);
    assert forall|a: int|
        in_bounds(base, bytes, a, WORD_SIZE as int) && (a + WORD_SIZE <= bottom || sp
            <= a) implies #[trigger] word_in(base, m3, a) == word_in(base, bytes, a) by {
        assert(word_in(base, m7, a) == word_in(base, bytes, a));
        assert(word_in(base, m6, a) == word_in(base, m7, a));
        assert(word_in(base, m5, a) == word_in(base, m6, a));
        assert(word_in(base, m0, a) == word_in(base, m5, a));
        assert(word_in(base, m1, a) == word_in(base, m0, a));
        assert(word_in(base, m2, a) == word_in(base, m1, a));
        assert(word_in(base, m3, a) == word_in(base, m2, a));
    }
    let a4 = frame_slot(bottom, 4);
    assert(word_in(base, m7, a4) == word_in(base, bytes, a4));
    assert(word_in(base, m6, a4) == word_in(base, m7, a4));
    assert(word_in(base, m5, a4) == word_in(base, m6, a4));
    assert(word_in(base, m0, a4) == word_in(base, m5, a4));
    assert(word_in(base, m1, a4) == word_in(base, m0, a4));
    assert(word_in(base, m2, a4) == word_in(base, m1, a4));
    assert(word_in(base, m3, a4) == word_in(base, m2, a4));
    let a7 = frame_slot(bottom, 7);
    assert(word_in(base, m6, a7) == word_in(base, m7, a7));
    assert(word_in(base, m5, a7) == word_in(base, m6, a7));
    assert(word_in(base, m0, a7) == word_in(base, m5, a7));
    assert(word_in(base, m1, a7) == word_in(base, m0, a7));
    assert(word_in(base, m2, a7) == word_in(base, m1, a7));
    assert(word_in(base, m3, a7) == word_in(base, m2, a7));
    let a6 = frame_slot(bottom, 6);
    assert(word_in(base, m5, a6) == word_in(base, m6, a6));
    assert(word_in(base, m0, a6) == word_in(base, m5, a6));
    assert(word_in(base, m1, a6) == word_in(base, m0, a6));
    assert(word_in(base, m2, a6) == word_in(base, m1, a6));
    assert(word_in(base, m3, a6) == word_in(base, m2, a6));
    let a5 = frame_slot(bottom, 5);
    assert(word_in(base, m0, a5) == word_in(base, m5, a5));
    assert(word_in(base, m1, a5) == word_in(base, m0, a5));
    assert(word_in(base, m2, a5) == word_in(base, m1, a5));
    assert(word_in(base, m3, a5) == word_in(base, m2, a5));
    let a0 = frame_slot(bottom, 0);
    assert(word_in(base, m1, a0) == word_in(base, m0, a0));
    assert(word_in(base, m2, a0) == word_in(base, m1, a0));
    assert(word_in(base, m3, a0) == word_in(base, m2, a0));
    let a1 = frame_slot(bottom, 1);
    assert(word_in(base, m2, a1) == word_in(base, m1, a1));
    assert(word_in(base, m3, a1) == word_in(base, m2, a1));
    let a2 = frame_slot(bottom, 2);
    assert(word_in(base, m3, a2) == word_in(base, m2, a2));
}

/// What the kernel asks of the architecture it runs on. One value of the
/// implementing type belongs to one process: it keeps the return address and
/// the status word that were saved when the process last yielded.
pub trait SyscallInterface: Sized {
    /// The registers that are not part of the saved frame and have to be
    /// kept while the process is not running.
    type StoredState;

    /// The return address saved at the last yield; a callback returns to it.
    spec fn yield_pc(&self) -> usize;

    /// The status word saved at the last yield.
    spec fn psr(&self) -> usize;

    /// Why the process last stopped, until it is asked for.
    spec fn pending_reason(&self) -> ContextSwitchReason;

    /// The system call that the process made, read from the instruction
    /// before the return address saved in the frame at `sp`.
    spec fn syscall_number(
        ram_base: int,
        ram: Seq<u8>,
        flash_base: int,
        flash: Seq<u8>,
        sp: int,
    ) -> Option<Syscall>;

    /// The registers that a process starts with.
    spec fn initial_stored_state_spec() -> Self::StoredState;

    /// The state for a process that has not run yet.
    fn new() -> (r: Self)
        ensures
            r.yield_pc() == 0,
            r.psr() == INITIAL_PSR,
            r.pending_reason() == ContextSwitchReason::Other,
    ;

    /// The registers to start a process with.
    fn initial_stored_state() -> (r: Self::StoredState)
        ensures
            r == Self::initial_stored_state_spec(),
    ;

    /// The return address saved at the last yield.
    fn saved_yield_pc(&self) -> (r: usize)
        ensures
            r == self.yield_pc(),
    ;

    /// The status word saved at the last yield.
    fn saved_psr(&self) -> (r: usize)
        ensures
            r == self.psr(),
    ;

    /// Says why the process stopped, and forgets it: asked again before the
    /// process has run again, the answer is `Other`.
    fn get_context_switch_reason(&mut self) -> (r: ContextSwitchReason)
        ensures
            r == old(self).pending_reason(),
            final(self).pending_reason() == ContextSwitchReason::Other,
            final(self).yield_pc() == old(self).yield_pc(),
            final(self).psr() == old(self).psr(),
    ;

    /// The system call that the process made.
    fn get_syscall_number(&self, ram: &Memory, flash: &Memory, sp: usize) -> (r: Option<Syscall>)
        requires
            ram.wf(),
            flash.wf(),
            ram.contains_range(sp as int, FRAME_SIZE as int),
        ensures
            r == Self::syscall_number(ram.base() as int, ram@, flash.base() as int, flash@, sp as int),
    ;

    /// The four arguments of the system call: words 0 to 3 of the frame.
    fn get_syscall_data(&self, ram: &Memory, sp: usize) -> (r: (usize, usize, usize, usize))
        requires
            ram.wf(),
            ram.contains_range(sp as int, FRAME_SIZE as int),
        ensures
            r.0 == ram.word_at(frame_slot(sp as int, 0)),
            r.1 == ram.word_at(frame_slot(sp as int, 1)),
            r.2 == ram.word_at(frame_slot(sp as int, 2)),
            r.3 == ram.word_at(frame_slot(sp as int, 3)),
    ;

    /// Puts the result of the system call where the process will find it: in
    /// word 0 of the frame.
    fn set_syscall_return_value(&self, ram: &mut Memory, sp: usize, return_value: isize)
        requires
            old(ram).wf(),
            old(ram).contains_range(sp as int, FRAME_SIZE as int),
        ensures
            final(ram).base() == old(ram).base(),
            final(ram)@ == old(ram).with_word(sp as int, return_value as usize),
    ;

    /// Takes the frame at `sp` off the stack: remembers its return address
    /// (word 6) and status word (word 7), and gives the stack pointer above
    /// the frame.
    fn pop_syscall_stack(&mut self, ram: &Memory, sp: usize) -> (new_sp: usize)
        requires
            ram.wf(),
            ram.contains_range(sp as int, FRAME_SIZE as int),
        ensures
            new_sp == sp + FRAME_SIZE,
            final(self).yield_pc() == ram.word_at(frame_slot(sp as int, 6)),
            final(self).psr() == ram.word_at(frame_slot(sp as int, 7)),
            final(self).pending_reason() == old(self).pending_reason(),
    ;

    /// Puts a frame for `callback` on the stack below `sp`, so that the
    /// process runs the function when it is next switched to, and gives the
    /// new stack pointer.
    fn push_function_call(&self, ram: &mut Memory, sp: usize, callback: FunctionCall) -> (new_sp:
        usize)
        requires
            old(ram).wf(),
            old(ram).contains_range(sp - FRAME_SIZE, FRAME_SIZE as int),
        ensures
            new_sp == sp - FRAME_SIZE,
            final(ram).base() == old(ram).base(),
            final(ram)@ == pushed_frame(
                old(ram).base() as int,
                old(ram)@,
                sp as int,
                callback,
                self.yield_pc(),
                self.psr(),
            ),
    ;

    /// Makes the process start afresh: a callback will return to `yield_pc`,
    /// and the status word is the initial one.
    fn reset(&mut self, yield_pc: usize)
        ensures
            final(self).yield_pc() == yield_pc,
            final(self).psr() == INITIAL_PSR,
            final(self).pending_reason() == old(self).pending_reason(),
    ;
}

} // verus!
