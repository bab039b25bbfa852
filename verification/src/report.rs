//! The text of the crash reports: what the fault status registers say, and
//! the registers of the process that crashed.

use vstd::prelude::*;
use vstd::string::StringExecFns;
use crate::cortexm::status_word;
use crate::cortexm::status_word_of;
use crate::cortexm::ExceptionFrame;
use crate::cortexm::FaultStatus;
use crate::cortexm::StatusWord;
use crate::cortexm::StoredRegs;
use crate::process::ProcessStatistics;
use crate::process::State;
use crate::syscall::Syscall;
use crate::text::append_decimal;
use crate::text::append_hex;
use crate::text::decimal_text;
use crate::text::hex_text;

verus! {

/// `text` with `line` after it, if `flag` is set.
#[verifier::opaque]
pub open spec fn with_line(text: Seq<char>, flag: bool, line: Seq<char>) -> Seq<char> {
    if flag {
        text + line
    } else {
        text
    }
}

/// `text` with a line after it that names an address: the label, the
/// address as eight hexadecimal digits, and the end of the line.
#[verifier::opaque]
pub open spec fn with_address(text: Seq<char>, label: Seq<char>, address: u32) -> Seq<char> {
    text + label + hex_text(address as int, true, 8) + "\r\n"@
}

/// The heading of the report of a fault, and a line for each fault that
/// the memory management flags.
pub open spec fn memory_faults_text(status: FaultStatus) -> Seq<char> {
    let t = "\r\n---| Fault Status |---\r\n"@;
    let t = with_line(t, status.iaccviol, "Instruction Access Violation:       true\r\n"@);
    let t = with_line(t, status.daccviol, "Data Access Violation:              true\r\n"@);
    let t = with_line(t, status.munstkerr, "Memory Management Unstacking Fault: true\r\n"@);
    let t = with_line(t, status.mstkerr, "Memory Management Stacking Fault:   true\r\n"@);
    with_line(t, status.mlsperr, "Memory Management Lazy FP Fault:    true\r\n"@)
}

/// `text` with a line after it for each fault that the bus flags.
pub open spec fn with_bus_faults(text: Seq<char>, status: FaultStatus) -> Seq<char> {
    let t = with_line(text, status.ibuserr, "Instruction Bus Error:              true\r\n"@);
    let t = with_line(t, status.preciserr, "Precise Data Bus Error:             true\r\n"@);
    let t = with_line(t, status.impreciserr, "Imprecise Data Bus Error:           true\r\n"@);
    let t = with_line(t, status.unstkerr, "Bus Unstacking Fault:               true\r\n"@);
    let t = with_line(t, status.stkerr, "Bus Stacking Fault:                 true\r\n"@);
    with_line(t, status.lsperr, "Bus Lazy FP Fault:                  true\r\n"@)
}

/// `text` with a line after it for each fault of usage that is flagged, and
/// for each of the two hard faults.
pub open spec fn with_usage_faults(text: Seq<char>, status: FaultStatus) -> Seq<char> {
    let t = with_line(text, status.undefinstr, "Undefined Instruction Usage Fault:  true\r\n"@);
    let t = with_line(t, status.invstate, "Invalid State Usage Fault:          true\r\n"@);
    let t = with_line(t, status.invpc, "Invalid PC Load Usage Fault:        true\r\n"@);
    let t = with_line(t, status.nocp, "No Coprocessor Usage Fault:         true\r\n"@);
    let t = with_line(t, status.unaligned, "Unaligned Access Usage Fault:       true\r\n"@);
    let t = with_line(t, status.divbysero, "Divide By Zero:                     true\r\n"@);
    let t = with_line(t, status.vecttbl, "Bus Fault on Vector Table Read:     true\r\n"@);
    with_line(t, status.forced, "Forced Hard Fault:                  true\r\n"@)
}

/// `text` with a line after it that names an address, if `flag` is set.
#[verifier::opaque]
pub open spec fn with_address_if(text: Seq<char>, flag: bool, label: Seq<char>, address: u32)
    -> Seq<char> {
    if flag {
        with_address(text, label, address)
    } else {
        text
    }
}

/// `text` with the end of the report of a fault after it: the faulting
/// addresses that are valid, and the two status registers, or a line that
/// says that there was no fault.
pub open spec fn with_fault_registers(text: Seq<char>, status: FaultStatus) -> Seq<char> {
    let t = with_address_if(
        text,
        status.mmfarvalid,
        "Faulting Memory Address:            "@,
        status.mmfar,
    );
    let t = with_address_if(
        t,
        status.bfarvalid,
        "Bus Fault Address:                  "@,
        status.bfar,
    );
    let t = with_line(t, status.no_faults(), "No faults detected.\r\n"@);
    let t = with_address_if(
        t,
        !status.no_faults(),
        "Fault Status Register (CFSR):       "@,
        status.cfsr,
    );
    with_address_if(
        t,
        !status.no_faults(),
        "Hard Fault Status Register (HFSR):  "@,
        status.hfsr,
    )
}

/// The report of a fault: a heading, a line for each fault that the status
/// registers flag, the faulting addresses that are valid, and the two status
/// registers, or a line that says that there was no fault.
pub open spec fn fault_text(status: FaultStatus) -> Seq<char> {
    with_fault_registers(
        with_usage_faults(with_bus_faults(memory_faults_text(status), status), status),
        status,
    )
}

/// Appends `line`, if `flag` is set.
fn append_line(text: &mut String, flag: bool, line: &str)
    ensures
        final(text)@ == with_line(old(text)@, flag, line@),
{
    reveal(with_line);
    if flag {
        text.append(line);
    }
}

/// Appends a line that names an address.
fn append_address(text: &mut String, label: &str, address: u32)
    ensures
        final(text)@ == with_address(old(text)@, label@, address),
{
    reveal(with_address);
    text.append(label);
    append_hex(text, address as usize, true, 8);
    text.append("\r\n");
}

/// Appends a line that names an address, if `flag` is set.
fn append_address_if(text: &mut String, flag: bool, label: &str, address: u32)
    ensures
        final(text)@ == with_address_if(old(text)@, flag, label@, address),
{
    reveal(with_address_if);
    if flag {
        append_address(text, label, address);
    }
}

/// The heading of the report of a fault, and the faults of memory
/// management.
fn memory_faults_str(status: &FaultStatus) -> (r: String)
    ensures
        r@ == memory_faults_text(*status),
{
    let mut text = String::from_str("\r\n---| Fault Status |---\r\n");
    append_line(&mut text, status.iaccviol, "Instruction Access Violation:       true\r\n");
    append_line(&mut text, status.daccviol, "Data Access Violation:              true\r\n");
    append_line(&mut text, status.munstkerr, "Memory Management Unstacking Fault: true\r\n");
    append_line(&mut text, status.mstkerr, "Memory Management Stacking Fault:   true\r\n");
    append_line(&mut text, status.mlsperr, "Memory Management Lazy FP Fault:    true\r\n");
    text
}

/// Appends the faults of the bus.
fn append_bus_faults(text: &mut String, status: &FaultStatus)
    ensures
        final(text)@ == with_bus_faults(old(text)@, *status),
{
    append_line(text, status.ibuserr, "Instruction Bus Error:              true\r\n");
    append_line(text, status.preciserr, "Precise Data Bus Error:             true\r\n");
    append_line(text, status.impreciserr, "Imprecise Data Bus Error:           true\r\n");
    append_line(text, status.unstkerr, "Bus Unstacking Fault:               true\r\n");
    append_line(text, status.stkerr, "Bus Stacking Fault:                 true\r\n");
    append_line(text, status.lsperr, "Bus Lazy FP Fault:                  true\r\n");
}

/// Appends the faults of usage, and the hard faults.
fn append_usage_faults(text: &mut String, status: &FaultStatus)
    ensures
        final(text)@ == with_usage_faults(old(text)@, *status),
{
    append_line(text, status.undefinstr, "Undefined Instruction Usage Fault:  true\r\n");
    append_line(text, status.invstate, "Invalid State Usage Fault:          true\r\n");
    append_line(text, status.invpc, "Invalid PC Load Usage Fault:        true\r\n");
    append_line(text, status.nocp, "No Coprocessor Usage Fault:         true\r\n");
    append_line(text, status.unaligned, "Unaligned Access Usage Fault:       true\r\n");
    append_line(text, status.divbysero, "Divide By Zero:                     true\r\n");
    append_line(text, status.vecttbl, "Bus Fault on Vector Table Read:     true\r\n");
    append_line(text, status.forced, "Forced Hard Fault:                  true\r\n");
}

/// Appends the end of the report of a fault.
fn append_fault_registers(text: &mut String, status: &FaultStatus)
    ensures
        final(text)@ == with_fault_registers(old(text)@, *status),
{
    let none = status.no_faults_detected();
    append_address_if(
        text,
        status.mmfarvalid,
        "Faulting Memory Address:            ",
        status.mmfar,
    );
    append_address_if(text, status.bfarvalid, "Bus Fault Address:                  ", status.bfar);
    append_line(text, none, "No faults detected.\r\n");
    append_address_if(text, !none, "Fault Status Register (CFSR):       ", status.cfsr);
    append_address_if(text, !none, "Hard Fault Status Register (HFSR):  ", status.hfsr);
}

/// The report of a fault, as text.
pub fn fault_str(status: &FaultStatus) -> (r: String)
    ensures
        r@ == fault_text(*status),
{
    let mut text = memory_faults_str(status);
    append_bus_faults(&mut text, status);
    append_usage_faults(&mut text, status);
    append_fault_registers(&mut text, status);
    text
}

/// `text` with a label and a register after it: the register as at least
/// eight hexadecimal digits.
#[verifier::opaque]
pub open spec fn with_register(text: Seq<char>, label: Seq<char>, value: usize) -> Seq<char> {
    text + label + hex_text(value as int, true, 8)
}

/// `text` with a label and a number after it: the number in decimal, at
/// least `width` characters wide.
#[verifier::opaque]
pub open spec fn with_number(text: Seq<char>, label: Seq<char>, value: usize, width: nat) -> Seq<
    char,
> {
    text + label + decimal_text(value as int, width)
}

/// `text` with `more` after it.
#[verifier::opaque]
pub open spec fn with_text(text: Seq<char>, more: Seq<char>) -> Seq<char> {
    text + more
}

/// Appends a label and a register.
fn append_register(text: &mut String, label: &str, value: usize)
    ensures
        final(text)@ == with_register(old(text)@, label@, value),
{
    reveal(with_register);
    text.append(label);
    append_hex(text, value, true, 8);
}

/// Appends a label and a number.
fn append_number(text: &mut String, label: &str, value: usize, width: usize)
    ensures
        final(text)@ == with_number(old(text)@, label@, value, width as nat),
{
    reveal(with_number);
    text.append(label);
    append_decimal(text, value, width);
}

/// Appends `more`.
fn append_text(text: &mut String, more: &str)
    ensures
        final(text)@ == with_text(old(text)@, more@),
{
    reveal(with_text);
    text.append(more);
}

/// `text` with the registers of a process after it, two to a line: those
/// of the frame, those kept outside it, the stack pointer, and the return
/// address of the last yield.
pub open spec fn with_registers(
    text: Seq<char>,
    frame: ExceptionFrame,
    regs: StoredRegs,
    stack_pointer: usize,
    yield_pc: usize,
) -> Seq<char> {
    let t = with_register(text, "\r\n  R0 : "@, frame.r0);
    let t = with_register(t, "    R6 : "@, regs.r6);
    let t = with_register(t, "\r\n  R1 : "@, frame.r1);
    let t = with_register(t, "    R7 : "@, regs.r7);
    let t = with_register(t, "\r\n  R2 : "@, frame.r2);
    let t = with_register(t, "    R8 : "@, regs.r8);
    let t = with_register(t, "\r\n  R3 : "@, frame.r3);
    let t = with_register(t, "    R10: "@, regs.r10);
    let t = with_register(t, "\r\n  R4 : "@, regs.r4);
    let t = with_register(t, "    R11: "@, regs.r11);
    let t = with_register(t, "\r\n  R5 : "@, regs.r5);
    let t = with_register(t, "    R12: "@, frame.r12);
    let t = with_register(t, "\r\n  R9 : "@, regs.r9);
    let t = with_register(t, " (Static Base Register)\r\n  SP : "@, stack_pointer);
    let t = with_register(t, " (Process Stack Pointer)\r\n  LR : "@, frame.lr);
    let t = with_register(t, "\r\n  PC : "@, frame.pc);
    let t = with_register(t, "\r\n YPC : "@, yield_pc);
    with_text(t, "\r\n"@)
}

/// Appends the registers of a process.
fn append_registers(
    text: &mut String,
    frame: &ExceptionFrame,
    regs: &StoredRegs,
    stack_pointer: usize,
    yield_pc: usize,
)
    ensures
        final(text)@ == with_registers(old(text)@, *frame, *regs, stack_pointer, yield_pc),
{
    append_register(text, "\r\n  R0 : ", frame.r0);
    append_register(text, "    R6 : ", regs.r6);
    append_register(text, "\r\n  R1 : ", frame.r1);
    append_register(text, "    R7 : ", regs.r7);
    append_register(text, "\r\n  R2 : ", frame.r2);
    append_register(text, "    R8 : ", regs.r8);
    append_register(text, "\r\n  R3 : ", frame.r3);
    append_register(text, "    R10: ", regs.r10);
    append_register(text, "\r\n  R4 : ", regs.r4);
    append_register(text, "    R11: ", regs.r11);
    append_register(text, "\r\n  R5 : ", regs.r5);
    append_register(text, "    R12: ", frame.r12);
    append_register(text, "\r\n  R9 : ", regs.r9);
    append_register(text, " (Static Base Register)\r\n  SP : ", stack_pointer);
    append_register(text, " (Process Stack Pointer)\r\n  LR : ", frame.lr);
    append_register(text, "\r\n  PC : ", frame.pc);
    append_register(text, "\r\n YPC : ", yield_pc);
    append_text(text, "\r\n");
}

/// `text` with what a status word says after it: the flags of the
/// application, then the state of execution, with a warning where the
/// Thumb bit is not set.
pub open spec fn with_status_word(text: Seq<char>, word: StatusWord) -> Seq<char> {
    let t = with_number(text, "\r\n APSR: N "@, word.n, 0);
    let t = with_number(t, " Z "@, word.z, 0);
    let t = with_number(t, " C "@, word.c, 0);
    let t = with_number(t, " V "@, word.v, 0);
    let t = with_number(t, " Q "@, word.q, 0);
    let t = with_number(t, "\r\n       GE "@, word.ge.0, 0);
    let t = with_number(t, " "@, word.ge.1, 0);
    let t = with_number(t, " "@, word.ge.2, 0);
    let t = with_number(t, " "@, word.ge.3, 0);
    let t = with_text(t, "\r\n EPSR: ICI.IT "@ + hex_text(word.ici_it as int, false, 2));
    let t = with_line(t, word.thumb_bit, "\r\n       ThumbBit true "@);
    with_line(t, !word.thumb_bit, "\r\n       ThumbBit false !!ERROR - Cortex M Thumb only!"@)
}

/// Appends what a status word says.
fn append_status_word(text: &mut String, word: &StatusWord)
    ensures
        final(text)@ == with_status_word(old(text)@, *word),
{
    append_number(text, "\r\n APSR: N ", word.n, 0);
    append_number(text, " Z ", word.z, 0);
    append_number(text, " C ", word.c, 0);
    append_number(text, " V ", word.v, 0);
    append_number(text, " Q ", word.q, 0);
    append_number(text, "\r\n       GE ", word.ge.0, 0);
    append_number(text, " ", word.ge.1, 0);
    append_number(text, " ", word.ge.2, 0);
    append_number(text, " ", word.ge.3, 0);
    let ghost before = text@;
    text.append("\r\n EPSR: ICI.IT ");
    append_hex(text, word.ici_it, false, 2);
    proof {
        reveal(with_text);
        assert(text@ =~= with_text(
            before,
            "\r\n EPSR: ICI.IT "@ + hex_text(word.ici_it as int, false, 2),
        ));
    }
    append_line(text, word.thumb_bit, "\r\n       ThumbBit true ");
    append_line(
        text,
        !word.thumb_bit,
        "\r\n       ThumbBit false !!ERROR - Cortex M Thumb only!",
    );
}

/// The registers of a process and what its status word says.
pub open spec fn process_arch_detail_text(
    frame: ExceptionFrame,
    regs: StoredRegs,
    stack_pointer: usize,
    yield_pc: usize,
) -> Seq<char> {
    with_status_word(
        with_registers(Seq::empty(), frame, regs, stack_pointer, yield_pc),
        status_word_of(frame.xpsr),
    )
}

/// The registers of a process and what its status word says, as text.
pub fn print_process_arch_detail(
    frame: &ExceptionFrame,
    regs: &StoredRegs,
    stack_pointer: usize,
    yield_pc: usize,
) -> (r: String)
    ensures
        r@ == process_arch_detail_text(*frame, *regs, stack_pointer, yield_pc),
{
    let mut text = String::new();
    append_registers(&mut text, frame, regs, stack_pointer, yield_pc);
    let word = status_word(frame.xpsr);
    append_status_word(&mut text, &word);
    text
}

/// The name of a state.
pub open spec fn state_name(state: State) -> Seq<char> {
    match state {
        State::Running => "Running"@,
        State::Yielded => "Yielded"@,
        State::Fault => "Fault"@,
    }
}

/// The name of a system call; `None` for none.
pub open spec fn syscall_name(syscall: Option<Syscall>) -> Seq<char> {
    match syscall {
        Some(Syscall::YIELD) => "YIELD"@,
        Some(Syscall::SUBSCRIBE) => "SUBSCRIBE"@,
        Some(Syscall::COMMAND) => "COMMAND"@,
        Some(Syscall::ALLOW) => "ALLOW"@,
        Some(Syscall::MEMOP) => "MEMOP"@,
        None => "None"@,
    }
}

/// The name of a state.
fn state_str(state: State) -> (r: &'static str)
    ensures
        r@ == state_name(state),
{
    match state {
        State::Running => "Running",
        State::Yielded => "Yielded",
        State::Fault => "Fault",
    }
}

/// The name of a system call.
fn syscall_str(syscall: Option<Syscall>) -> (r: &'static str)
    ensures
        r@ == syscall_name(syscall),
{
    match syscall {
        Some(Syscall::YIELD) => "YIELD",
        Some(Syscall::SUBSCRIBE) => "SUBSCRIBE",
        Some(Syscall::COMMAND) => "COMMAND",
        Some(Syscall::ALLOW) => "ALLOW",
        Some(Syscall::MEMOP) => "MEMOP",
        None => "None",
    }
}

/// The mark behind a share of memory that is used beyond what was set
/// aside, and the blanks that stand in its place otherwise.
pub open spec fn exceeded_mark(exceeded: bool) -> Seq<char> {
    if exceeded {
        " EXCEEDED!"@
    } else {
        "          "@
    }
}

/// The mark behind a share of memory.
fn exceeded_str(exceeded: bool) -> (r: &'static str)
    ensures
        r@ == exceeded_mark(exceeded),
{
    if exceeded {
        " EXCEEDED!"
    } else {
        "          "
    }
}

/// The head of the report on a process: its name, its state, and its
/// counters.
pub open spec fn process_head_text(name: Seq<char>, s: ProcessStatistics) -> Seq<char> {
    let t = with_text("App: "@, name);
    let t = with_text(t, "   -   ["@);
    let t = with_text(t, state_name(s.state));
    let t = with_number(t, "]\r\n Events Queued: "@, s.events_queued, 0);
    let t = with_number(t, "   Syscall Count: "@, s.syscall_count, 0);
    let t = with_number(t, "   Dropped Callback Count: "@, s.dropped_callback_count, 0);
    let t = with_number(t, "\n Restart Count: "@, s.restart_count, 0);
    let t = with_text(t, "\n Last Syscall: "@);
    with_text(t, syscall_name(s.last_syscall))
}

/// The head of the report on a process.
fn process_head_str(name: &str, s: &ProcessStatistics) -> (r: String)
    ensures
        r@ == process_head_text(name@, *s),
{
    let mut text = String::from_str("App: ");
    append_text(&mut text, name);
    append_text(&mut text, "   -   [");
    append_text(&mut text, state_str(s.state));
    append_number(&mut text, "]\r\n Events Queued: ", s.events_queued, 0);
    append_number(&mut text, "   Syscall Count: ", s.syscall_count, 0);
    append_number(&mut text, "   Dropped Callback Count: ", s.dropped_callback_count, 0);
    append_number(&mut text, "\n Restart Count: ", s.restart_count, 0);
    append_text(&mut text, "\n Last Syscall: ");
    append_text(&mut text, syscall_str(s.last_syscall));
    text
}

/// `text` with the map of the process's RAM after it, from the top down:
/// the kernel's part, the heap, the data, and the stack, each with what is
/// used of it and what was set aside.
pub open spec fn with_ram_map(text: Seq<char>, s: ProcessStatistics) -> Seq<char> {
    let t = with_text(
        text,
        "\r\n\r\n ╔═══════════╤══════════════════════════════════════════╗\r\n ║  Address  │ Region Name    Used | Allocated (bytes)  ║\r\n ╚"@,
    );
    let t = with_register(t, ""@, s.sram_end);
    let t = with_number(
        t,
        "═╪══════════════════════════════════════════╝\r\n             │ ▼ Grant      "@,
        s.sram_grant_size,
        6,
    );
    let t = with_number(t, " | "@, s.sram_grant_allocated, 6);
    let t = with_text(t, exceeded_mark(s.sram_grant_exceeded));
    let t = with_register(t, "\r\n  "@, s.sram_grant_start);
    let t = with_register(
        t,
        " ┼───────────────────────────────────────────\r\n             │ Unused\r\n  "@,
        s.sram_heap_end,
    );
    let t = with_number(
        t,
        " ┼───────────────────────────────────────────\r\n             │ ▲ Heap       "@,
        s.sram_heap_size,
        6,
    );
    let t = with_number(t, " | "@, s.sram_heap_allocated, 6);
    let t = with_text(t, exceeded_mark(s.sram_heap_exceeded));
    let t = with_register(t, "     S\r\n  "@, s.sram_heap_start);
    let t = with_number(
        t,
        " ┼─────────────────────────────────────────── R\r\n             │ Data         "@,
        s.sram_data_size,
        6,
    );
    let t = with_number(t, " | "@, s.sram_data_allocated, 6);
    let t = with_register(t, "               A\r\n  "@, s.sram_stack_start);
    let t = with_number(
        t,
        " ┼─────────────────────────────────────────── M\r\n             │ ▼ Stack      "@,
        s.sram_stack_size,
        6,
    );
    let t = with_number(t, " | "@, s.sram_stack_allocated, 6);
    let t = with_text(t, exceeded_mark(s.sram_stack_exceeded));
    let t = with_register(t, "\r\n  "@, s.sram_stack_bottom);
    let t = with_register(
        t,
        " ┼───────────────────────────────────────────\r\n             │ Unused\r\n  "@,
        s.sram_start,
    );
    with_text(t, " ┴───────────────────────────────────────────\r\n             ....."@)
}

/// Appends the map of the process's RAM.
fn append_ram_map(text: &mut String, s: &ProcessStatistics)
    ensures
        final(text)@ == with_ram_map(old(text)@, *s),
{
    append_text(
        text,
        "\r\n\r\n ╔═══════════╤══════════════════════════════════════════╗\r\n ║  Address  │ Region Name    Used | Allocated (bytes)  ║\r\n ╚",
    );
    append_register(text, "", s.sram_end);
    append_number(
        text,
        "═╪══════════════════════════════════════════╝\r\n             │ ▼ Grant      ",
        s.sram_grant_size,
        6,
    );
    append_number(text, " | ", s.sram_grant_allocated, 6);
    append_text(text, exceeded_str(s.sram_grant_exceeded));
    append_register(text, "\r\n  ", s.sram_grant_start);
    append_register(
        text,
        " ┼───────────────────────────────────────────\r\n             │ Unused\r\n  ",
        s.sram_heap_end,
    );
    append_number(
        text,
        " ┼───────────────────────────────────────────\r\n             │ ▲ Heap       ",
        s.sram_heap_size,
        6,
    );
    append_number(text, " | ", s.sram_heap_allocated, 6);
    append_text(text, exceeded_str(s.sram_heap_exceeded));
    append_register(text, "     S\r\n  ", s.sram_heap_start);
    append_number(
        text,
        " ┼─────────────────────────────────────────── R\r\n             │ Data         ",
        s.sram_data_size,
        6,
    );
    append_number(text, " | ", s.sram_data_allocated, 6);
    append_register(text, "               A\r\n  ", s.sram_stack_start);
    append_number(
        text,
        " ┼─────────────────────────────────────────── M\r\n             │ ▼ Stack      ",
        s.sram_stack_size,
        6,
    );
    append_number(text, " | ", s.sram_stack_allocated, 6);
    append_text(text, exceeded_str(s.sram_stack_exceeded));
    append_register(text, "\r\n  ", s.sram_stack_bottom);
    append_register(
        text,
        " ┼───────────────────────────────────────────\r\n             │ Unused\r\n  ",
        s.sram_start,
    );
    append_text(text, " ┴───────────────────────────────────────────\r\n             .....");
}

/// `text` with the map of the process's image in flash after it, from the
/// top down: the application's code, and the protected region.
pub open spec fn with_flash_map(text: Seq<char>, s: ProcessStatistics) -> Seq<char> {
    let t = with_register(text, "\r\n  "@, s.flash_end);
    let t = with_number(
        t,
        " ┬─────────────────────────────────────────── F\r\n             │ App Flash    "@,
        s.flash_app_size,
        6,
    );
    let t = with_register(t, "                        L\r\n  "@, s.flash_app_start);
    let t = with_number(
        t,
        " ┼─────────────────────────────────────────── A\r\n             │ Protected    "@,
        s.flash_protected_size,
        6,
    );
    let t = with_register(t, "                        S\r\n  "@, s.flash_start);
    with_text(t, " ┴─────────────────────────────────────────── H\r\n"@)
}

/// Appends the map of the process's image in flash.
fn append_flash_map(text: &mut String, s: &ProcessStatistics)
    ensures
        final(text)@ == with_flash_map(old(text)@, *s),
{
    append_register(text, "\r\n  ", s.flash_end);
    append_number(
        text,
        " ┬─────────────────────────────────────────── F\r\n             │ App Flash    ",
        s.flash_app_size,
        6,
    );
    append_register(text, "                        L\r\n  ", s.flash_app_start);
    append_number(
        text,
        " ┼─────────────────────────────────────────── A\r\n             │ Protected    ",
        s.flash_protected_size,
        6,
    );
    append_register(text, "                        S\r\n  ", s.flash_start);
    append_text(text, " ┴─────────────────────────────────────────── H\r\n");
}

/// `text` with the hint for the debugger after it: where the RAM starts,
/// and where the entry function lies.
pub open spec fn with_debug_hint(text: Seq<char>, s: ProcessStatistics) -> Seq<char> {
    let t = with_text(
        text,
        "\r\n To debug, run `make debug RAM_START="@ + hex_text(s.sram_start as int, false, 1),
    );
    let t = with_text(t, " FLASH_INIT="@ + hex_text(s.flash_init_fn as int, false, 1));
    with_text(t, "`\r\n in the app's folder and open the .lst file.\r\n\r\n"@)
}

/// Appends the hint for the debugger.
fn append_debug_hint(text: &mut String, s: &ProcessStatistics)
    ensures
        final(text)@ == with_debug_hint(old(text)@, *s),
{
    reveal(with_text);
    let ghost t0 = text@;
    text.append("\r\n To debug, run `make debug RAM_START=");
    append_hex(text, s.sram_start, false, 1);
    let ghost t1 = text@;
    assert(t1 =~= with_text(
        t0,
        "\r\n To debug, run `make debug RAM_START="@ + hex_text(s.sram_start as int, false, 1),
    ));
    text.append(" FLASH_INIT=");
    append_hex(text, s.flash_init_fn, false, 1);
    assert(text@ =~= with_text(
        t1,
        " FLASH_INIT="@ + hex_text(s.flash_init_fn as int, false, 1),
    ));
    text.append("`\r\n in the app's folder and open the .lst file.\r\n\r\n");
}

/// The report on a process: its name, state and counters, the map of its
/// RAM and of its image in flash, its registers, what its status word
/// says, and a hint for the debugger.
pub open spec fn statistics_text(
    name: Seq<char>,
    s: ProcessStatistics,
    frame: ExceptionFrame,
    regs: StoredRegs,
    stack_pointer: usize,
) -> Seq<char> {
    let t = process_head_text(name, s);
    let t = with_ram_map(t, s);
    let t = with_flash_map(t, s);
    let t = with_registers(t, frame, regs, stack_pointer, s.yield_pc);
    let t = with_status_word(t, status_word_of(frame.xpsr));
    with_debug_hint(t, s)
}

/// The report on a process, as text.
pub fn statistics_str(
    name: &str,
    s: &ProcessStatistics,
    frame: &ExceptionFrame,
    regs: &StoredRegs,
    stack_pointer: usize,
) -> (r: String)
    ensures
        r@ == statistics_text(name@, *s, *frame, *regs, stack_pointer),
{
    let mut text = process_head_str(name, s);
    append_ram_map(&mut text, s);
    append_flash_map(&mut text, s);
    append_registers(&mut text, frame, regs, stack_pointer, s.yield_pc);
    let word = status_word(frame.xpsr);
    append_status_word(&mut text, &word);
    append_debug_hint(&mut text, s);
    text
}

} // verus!
