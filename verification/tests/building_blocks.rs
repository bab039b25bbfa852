use kernel::cortexm::fault_status;
use kernel::cortexm::status_word;
use kernel::cortexm::StoredRegs;
use kernel::cortexm::SysCall;
use kernel::math::closest_power_of_two;
use kernel::math::has_single_bit;
use kernel::math::log_base_two;
use kernel::math::PowerOfTwo;
use kernel::memory::Memory;
use kernel::memory::WORD_SIZE;
use kernel::process::FunctionCall;
use kernel::queue::RingBuffer;
use kernel::returncode::ReturnCode;
use kernel::syscall::ContextSwitchReason;
use kernel::syscall::Syscall;
use kernel::syscall::SyscallInterface;
use kernel::syscall::FRAME_SIZE;
use kernel::syscall::FRAME_WORDS;
use kernel::syscall::INITIAL_PSR;

#[test]
fn closest_power_of_two_rounds_up() {
    assert_eq!(closest_power_of_two(1), 1);
    assert_eq!(closest_power_of_two(2), 2);
    assert_eq!(closest_power_of_two(3), 4);
    assert_eq!(closest_power_of_two(0x400), 0x400);
    assert_eq!(closest_power_of_two(0x401), 0x800);
    assert_eq!(closest_power_of_two(1000), 1024);
    assert_eq!(closest_power_of_two(0x7fff_ffff), 0x8000_0000);
    assert_eq!(closest_power_of_two(0x8000_0000), 0x8000_0000);
}

#[test]
fn log_base_two_rounds_down() {
    assert_eq!(log_base_two(0), 0);
    assert_eq!(log_base_two(1), 0);
    assert_eq!(log_base_two(2), 1);
    assert_eq!(log_base_two(3), 1);
    assert_eq!(log_base_two(16), 4);
    assert_eq!(log_base_two(0x7fff_ffff), 30);
    assert_eq!(log_base_two(0x8000_0000), 31);
    assert_eq!(log_base_two(u32::MAX), 31);
}

#[test]
fn has_single_bit_tells_powers_of_two() {
    assert!(!has_single_bit(0));
    assert!(has_single_bit(1));
    assert!(has_single_bit(16));
    assert!(!has_single_bit(48));
    assert!(has_single_bit(0x8000_0000));
    assert!(!has_single_bit(u32::MAX));
}

#[test]
fn power_of_two_keeps_the_exponent() {
    assert_eq!(PowerOfTwo::floor(16).exp(), 4);
    assert_eq!(PowerOfTwo::floor(17).exp(), 4);
    assert_eq!(PowerOfTwo::floor(17).as_num(), 16);
    assert_eq!(PowerOfTwo::ceiling(17).exp(), 5);
    assert_eq!(PowerOfTwo::ceiling(17).as_num(), 32);
    assert_eq!(PowerOfTwo::ceiling(32).as_num(), 32);
    assert_eq!(PowerOfTwo::ceiling(0x8000_0000).as_num(), 0x8000_0000);
    assert_eq!(PowerOfTwo::zero().as_num(), 1);
    assert_eq!(PowerOfTwo::floor(0).exp(), 0);
}

#[test]
fn ring_buffer_is_first_in_first_out() {
    let mut q: RingBuffer<u32> = RingBuffer::new(vec![0; 4]);
    assert!(!q.has_elements());
    assert_eq!(q.len(), 0);
    assert_eq!(q.dequeue(), None);
    assert!(q.enqueue(1));
    assert!(q.enqueue(2));
    assert!(!q.is_full());
    assert!(q.enqueue(3));
    // Four slots hold three items.
    assert!(q.is_full());
    assert!(!q.enqueue(4));
    assert_eq!(q.len(), 3);
    assert_eq!(q.dequeue(), Some(1));
    assert!(q.enqueue(5));
    assert_eq!(q.len(), 3);
    assert_eq!(q.dequeue(), Some(2));
    assert_eq!(q.dequeue(), Some(3));
    assert!(q.enqueue(6));
    assert!(q.enqueue(7));
    assert_eq!(q.len(), 3);
    assert_eq!(q.dequeue(), Some(5));
    assert_eq!(q.dequeue(), Some(6));
    assert_eq!(q.dequeue(), Some(7));
    assert_eq!(q.dequeue(), None);
    assert!(q.enqueue(8));
    q.empty();
    assert!(!q.has_elements());
    assert_eq!(q.dequeue(), None);
}

#[test]
fn ring_buffer_of_one_slot_holds_nothing() {
    let mut q: RingBuffer<u8> = RingBuffer::with_slots(1, 0);
    assert!(q.is_full());
    assert!(!q.enqueue(1));
    assert_eq!(q.len(), 0);
    let mut ten: RingBuffer<u8> = RingBuffer::with_slots(10, 0);
    for i in 0..9 {
        assert!(ten.enqueue(i));
    }
    assert!(!ten.enqueue(9));
    assert_eq!(ten.len(), 9);
}

#[test]
fn memory_stores_words_low_byte_first() {
    let mut m = Memory::new(0x100, 0x40);
    assert_eq!(m.start(), 0x100);
    assert_eq!(m.end(), 0x140);
    assert_eq!(m.len(), 0x40);
    assert_eq!(m.read_word(0x100), 0);
    m.write_word(0x108, 0x0403_0201);
    assert_eq!(m.read_word(0x108), 0x0403_0201);
    assert_eq!(m.read_byte(0x108), 1);
    assert_eq!(m.read_byte(0x109), 2);
    assert_eq!(m.read_byte(0x10a), 3);
    assert_eq!(m.read_byte(0x10b), 4);
    assert_eq!(m.read_word(0x108 - WORD_SIZE), 0);
    assert_eq!(m.read_word(0x108 + WORD_SIZE), 0);
    m.write_word(0x108, usize::MAX);
    assert_eq!(m.read_word(0x108), usize::MAX);
    for k in 0..WORD_SIZE {
        assert_eq!(m.read_byte(0x108 + k), 0xff);
    }
    assert_eq!(m.read_byte(0x107), 0);
    assert_eq!(m.read_byte(0x108 + WORD_SIZE), 0);
    // Not aligned to a word.
    m.write_word(0x121, 0x7766);
    assert_eq!(m.read_word(0x121), 0x7766);
    assert_eq!(m.read_byte(0x121), 0x66);
    assert_eq!(m.read_byte(0x122), 0x77);
    m.write_byte(0x121, 0x11);
    assert_eq!(m.read_word(0x121), 0x7711);
    assert_eq!(m.slice(0x121, 3), &[0x11, 0x77, 0]);
}

#[test]
fn memory_knows_its_bounds() {
    let m = Memory::from_bytes(0x100, vec![9, 8, 7, 6]);
    assert!(m.in_range(0x100, 4));
    assert!(m.in_range(0x104, 0));
    assert!(m.in_range(0x103, 1));
    assert!(!m.in_range(0x103, 2));
    assert!(!m.in_range(0xff, 1));
    assert!(!m.in_range(0x105, 0));
    assert!(!m.in_range(0x100, usize::MAX));
    assert!(!m.in_range(usize::MAX, 2));
    assert_eq!(m.read_byte(0x102), 7);
    assert_eq!(m.slice(0x101, 2), &[8, 7]);
}

#[test]
fn frame_has_eight_words() {
    assert_eq!(FRAME_WORDS, 8);
    assert_eq!(FRAME_SIZE, 8 * WORD_SIZE);
    assert_eq!(WORD_SIZE, std::mem::size_of::<usize>());
    assert_eq!(INITIAL_PSR, 0x0100_0000);
}

#[test]
fn syscall_number_is_the_low_byte_of_the_instruction() {
    let shim = SysCall::new();
    let mut flash_bytes = vec![0u8; 0x40];
    for (i, number) in [0u8, 1, 2, 3, 4, 5, 0xff].iter().enumerate() {
        flash_bytes[4 * i] = *number;
        flash_bytes[4 * i + 1] = 0xDF;
    }
    let flash = Memory::from_bytes(0x8000, flash_bytes);
    let mut ram = Memory::new(0x2000, 0x100);
    let sp = 0x2040;
    let expected = [
        Some(Syscall::YIELD),
        Some(Syscall::SUBSCRIBE),
        Some(Syscall::COMMAND),
        Some(Syscall::ALLOW),
        Some(Syscall::MEMOP),
        None,
        None,
    ];
    for (i, want) in expected.iter().enumerate() {
        ram.write_word(sp + 6 * WORD_SIZE, 0x8000 + 4 * i + 2);
        assert_eq!(shim.get_syscall_number(&ram, &flash, sp), *want);
    }
    // Code that runs from RAM.
    ram.write_byte(0x2010, 3);
    ram.write_byte(0x2011, 0xDF);
    ram.write_word(sp + 6 * WORD_SIZE, 0x2012);
    assert_eq!(shim.get_syscall_number(&ram, &flash, sp), Some(Syscall::ALLOW));
    // An instruction that lies in neither.
    ram.write_word(sp + 6 * WORD_SIZE, 0x9000);
    assert_eq!(shim.get_syscall_number(&ram, &flash, sp), None);
    ram.write_word(sp + 6 * WORD_SIZE, 1);
    assert_eq!(shim.get_syscall_number(&ram, &flash, sp), None);
    ram.write_word(sp + 6 * WORD_SIZE, 0x8001);
    assert_eq!(shim.get_syscall_number(&ram, &flash, sp), None);
}

#[test]
fn shim_reads_and_writes_the_frame() {
    let mut shim = SysCall::new();
    assert_eq!(shim.saved_yield_pc(), 0);
    assert_eq!(shim.saved_psr(), 0x0100_0000);
    let mut ram = Memory::new(0x2000, 0x100);
    let sp = 0x2080;
    for k in 0..8 {
        ram.write_word(sp + k * WORD_SIZE, 0x100 + k);
    }
    assert_eq!(shim.get_syscall_data(&ram, sp), (0x100, 0x101, 0x102, 0x103));
    shim.set_syscall_return_value(&mut ram, sp, -5);
    assert_eq!(shim.get_syscall_data(&ram, sp).0 as isize, -5);
    assert_eq!(shim.get_syscall_data(&ram, sp).1, 0x101);
    assert_eq!(shim.pop_syscall_stack(&ram, sp), sp + 8 * WORD_SIZE);
    assert_eq!(shim.saved_yield_pc(), 0x106);
    assert_eq!(shim.saved_psr(), 0x107);
    let call = FunctionCall { r0: 1, r1: 2, r2: 3, r3: 4, pc: 0x4000 };
    ram.write_word(sp - 4 * WORD_SIZE, 0xcc);
    let pushed = shim.push_function_call(&mut ram, sp, call);
    assert_eq!(pushed, sp - 8 * WORD_SIZE);
    let words: Vec<usize> = (0..8).map(|k| ram.read_word(pushed + k * WORD_SIZE)).collect();
    assert_eq!(words, vec![1, 2, 3, 4, 0xcc, 0x107, 0x4001, 0x107]);
    // The frame above is untouched.
    assert_eq!(ram.read_word(sp + WORD_SIZE), 0x101);
    shim.reset(0x9001);
    assert_eq!(shim.saved_yield_pc(), 0x9001);
    assert_eq!(shim.saved_psr(), 0x0100_0000);
}

#[test]
fn context_switch_reason_is_forgotten_when_read() {
    let mut shim = SysCall::new();
    assert_eq!(shim.get_context_switch_reason(), ContextSwitchReason::Other);
    shim.set_process_state(1);
    assert_eq!(shim.get_context_switch_reason(), ContextSwitchReason::SyscallFired);
    assert_eq!(shim.get_context_switch_reason(), ContextSwitchReason::Other);
    shim.set_process_state(2);
    assert_eq!(shim.get_context_switch_reason(), ContextSwitchReason::Fault);
    assert_eq!(shim.get_context_switch_reason(), ContextSwitchReason::Other);
    shim.set_process_state(3);
    assert_eq!(shim.get_context_switch_reason(), ContextSwitchReason::Other);
    shim.set_process_state(0);
    assert_eq!(shim.get_context_switch_reason(), ContextSwitchReason::Other);
}

#[test]
fn stored_registers_start_at_zero() {
    let regs = StoredRegs::default();
    assert_eq!(regs, StoredRegs { r4: 0, r5: 0, r6: 0, r7: 0, r8: 0, r9: 0, r10: 0, r11: 0 });
    assert_eq!(SysCall::initial_stored_state(), regs);
}

#[test]
fn return_codes_are_negative_on_error() {
    assert_eq!(isize::from(ReturnCode::SUCCESS), 0);
    assert_eq!(isize::from(ReturnCode::SuccessWithValue { value: 42 }), 42);
    assert_eq!(isize::from(ReturnCode::FAIL), -1);
    assert_eq!(isize::from(ReturnCode::EBUSY), -2);
    assert_eq!(isize::from(ReturnCode::EALREADY), -3);
    assert_eq!(isize::from(ReturnCode::EOFF), -4);
    assert_eq!(isize::from(ReturnCode::ERESERVE), -5);
    assert_eq!(isize::from(ReturnCode::EINVAL), -6);
    assert_eq!(isize::from(ReturnCode::ESIZE), -7);
    assert_eq!(isize::from(ReturnCode::ECANCEL), -8);
    assert_eq!(isize::from(ReturnCode::ENOMEM), -9);
    assert_eq!(isize::from(ReturnCode::ENOSUPPORT), -10);
    assert_eq!(isize::from(ReturnCode::ENODEVICE), -11);
    assert_eq!(isize::from(ReturnCode::EUNINSTALLED), -12);
    assert_eq!(isize::from(ReturnCode::ENOACK), -13);
}

#[test]
fn fault_status_reads_the_bits() {
    let none = fault_status(&[0, 0, 0, 0, 0]);
    assert!(none.no_faults_detected());
    assert!(!none.iaccviol && !none.forced && !none.mmfarvalid && !none.bfarvalid);
    // A data access violation with a valid address.
    let s = fault_status(&[0, 0x82, 0, 0x2000_4000, 0]);
    assert!(s.daccviol);
    assert!(s.mmfarvalid);
    assert!(!s.iaccviol);
    assert!(!s.bfarvalid);
    assert_eq!(s.mmfar, 0x2000_4000);
    assert!(!s.no_faults_detected());
    // A precise bus error, escalated.
    let s = fault_status(&[0, 0x8200, 0x4000_0000, 0, 0xE000_0000]);
    assert!(s.preciserr);
    assert!(s.bfarvalid);
    assert!(s.forced);
    assert!(!s.vecttbl);
    assert_eq!(s.bfar, 0xE000_0000);
    assert_eq!(s.cfsr, 0x8200);
    assert_eq!(s.hfsr, 0x4000_0000);
    // Each flag by itself.
    let bit = |b: u32| fault_status(&[0, 1 << b, 0, 0, 0]);
    assert!(bit(0).iaccviol);
    assert!(bit(3).munstkerr);
    assert!(bit(4).mstkerr);
    assert!(bit(5).mlsperr);
    assert!(bit(8).ibuserr);
    assert!(bit(10).impreciserr);
    assert!(bit(11).unstkerr);
    assert!(bit(12).stkerr);
    assert!(bit(13).lsperr);
    assert!(bit(16).undefinstr);
    assert!(bit(17).invstate);
    assert!(bit(18).invpc);
    assert!(bit(19).nocp);
    assert!(bit(24).unaligned);
    assert!(bit(25).divbysero);
    assert!(!bit(24).divbysero);
    assert!(!bit(2).iaccviol && !bit(2).daccviol && !bit(2).munstkerr);
    assert!(fault_status(&[0, 0, 2, 0, 0]).vecttbl);
    assert!(!fault_status(&[0xffff_ffff, 0, 0, 0, 0]).iaccviol);
}

#[test]
fn status_word_reads_the_flags() {
    let s = status_word(0x0100_0000);
    assert!(s.thumb_bit);
    assert_eq!((s.n, s.z, s.c, s.v, s.q), (0, 0, 0, 0, 0));
    assert_eq!(s.ge, (0, 0, 0, 0));
    assert_eq!(s.ici_it, 0);
    let s = status_word(0xA80A_0000);
    assert!(!s.thumb_bit);
    assert_eq!((s.n, s.z, s.c, s.v, s.q), (1, 0, 1, 0, 1));
    assert_eq!(s.ge, (1, 0, 1, 0));
    let s = status_word(0x0600_FC00);
    assert_eq!(s.ici_it, 0xff);
    let s = status_word(0x0200_0400);
    assert_eq!(s.ici_it, 0x41);
}
