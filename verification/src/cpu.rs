//! The processor core: registers, status flags, cycle-metered fetch and
//! operand access, and the fetch-decode-execute loop.

use vstd::prelude::*;

use crate::decode::{decode, decode_spec, instr_cycles, mode_cycles, AddrMode, Instr, Reg};
use crate::memory::{addr_inc, high_byte, low_byte, word_at, wrap_inc, MEM, MEM_SIZE};

verus! {

/// Address of the reset vector: the word stored here names where execution
/// starts after a reset.
pub const RESET_VECTOR: u16 = 0xFFFC;

/// Base address of the stack page; the stack pointer is an offset into it.
pub const STACK_BASE: u16 = 0x0100;

/// Startup value of the stack pointer after a reset.
pub const RESET_SP: u8 = 0xFF;

/// The processor state: program counter, stack pointer, the three general
/// registers, and the status flags, each modeled as its own bit.
#[derive(Clone, Copy, Debug)]
pub struct CPU {
    /// Program counter: address of the next instruction byte.
    pub pc: u16,
    /// Stack pointer: offset into the stack page.
    pub sp: u8,
    /// Accumulator.
    pub a: u8,
    /// Index register X.
    pub x: u8,
    /// Index register Y.
    pub y: u8,
    /// Carry flag.
    pub c: bool,
    /// Zero flag.
    pub z: bool,
    /// Interrupt-disable flag.
    pub i: bool,
    /// Decimal-mode flag.
    pub d: bool,
    /// Break-command flag.
    pub b: bool,
    /// Overflow flag.
    pub v: bool,
    /// Negative flag.
    pub n: bool,
}

/// What a call to [`CPU::exec`] reports back: the cycles actually consumed,
/// and whether the core halted on an illegal opcode (as opposed to running
/// out of budget, which is not an error).
#[derive(Clone, Copy, Debug, PartialEq, Eq, Structural)]
pub struct ExecutionResult {
    /// Total cycles consumed, opcode fetches included.
    pub cycles_consumed: u32,
    /// True exactly when an opcode with no decode-table entry was fetched.
    pub halted: bool,
}

/// The stack-page address the stack pointer `sp` points at.
pub open spec fn stack_addr(sp: u8) -> int {
    STACK_BASE + sp
}

/// The stack pointer below `sp`, wrapping at 8 bits within the stack page.
pub open spec fn sp_dec(sp: u8) -> u8 {
    if sp == 0 {
        0xFF
    } else {
        (sp - 1) as u8
    }
}

/// Effective zero-page address for base `b` and index `i`: the sum wraps at
/// 8 bits and never leaves the zero page.
pub open spec fn zp_index(b: u8, i: u8) -> u8 {
    ((b + i) % 256) as u8
}

/// The CPU after the fresh value `value` has been loaded into `reg`, with
/// the Zero and Negative flags recomputed from that value and every other
/// flag untouched.
pub open spec fn cpu_with_load(cpu: CPU, reg: Reg, value: u8) -> CPU {
    let flagged = CPU { z: value == 0, n: (value & 0x80) != 0, ..cpu };
    match reg {
        Reg::A => CPU { a: value, ..flagged },
        Reg::X => CPU { x: value, ..flagged },
        Reg::Y => CPU { y: value, ..flagged },
    }
}

/// The operand a load resolves under `mode`, with `pc` at the instruction
/// byte that follows the opcode, and `x`/`y` the index registers.
pub open spec fn operand_spec(m: Seq<u8>, pc: u16, x: u8, y: u8, mode: AddrMode) -> u8 {
    let arg = m[pc as int];
    match mode {
        AddrMode::Immediate => arg,
        AddrMode::ZeroPage => m[arg as int],
        AddrMode::ZeroPageX => m[zp_index(arg, x) as int],
        AddrMode::ZeroPageY => m[zp_index(arg, y) as int],
    }
}

impl CPU {
    /// A processor with every register and flag zeroed; [`CPU::reset`]
    /// establishes the documented start state before the first execution.
    pub fn new() -> (cpu: CPU)
        ensures
            cpu == (CPU {
                pc: 0,
                sp: 0,
                a: 0,
                x: 0,
                y: 0,
                c: false,
                z: false,
                i: false,
                d: false,
                b: false,
                v: false,
                n: false,
            }),
    {
        CPU {
            pc: 0,
            sp: 0,
            a: 0,
            x: 0,
            y: 0,
            c: false,
            z: false,
            i: false,
            d: false,
            b: false,
            v: false,
            n: false,
        }
    }

    /// Establishes the documented start state: the program counter is loaded
    /// from the reset vector, the stack pointer takes its startup value, the
    /// general registers are zeroed and every flag is cleared (deterministic
    /// startup values; decimal mode in particular is clear).
    pub fn reset(&mut self, mem: &MEM)
        requires
            mem.wf(),
        ensures
            *final(self) == (CPU {
                pc: word_at(mem@, RESET_VECTOR),
                sp: RESET_SP,
                a: 0,
                x: 0,
                y: 0,
                c: false,
                z: false,
                i: false,
                d: false,
                b: false,
                v: false,
                n: false,
            }),
    {
        self.pc = mem.read_word(RESET_VECTOR);
        self.sp = RESET_SP;
        self.a = 0;
        self.x = 0;
        self.y = 0;
        self.c = false;
        self.z = false;
        self.i = false;
        self.d = false;
        self.b = false;
        self.v = false;
        self.n = false;
    }

    /// Reads the instruction byte at the program counter, advances the
    /// program counter past it, and charges one cycle.
    pub fn fetch_byte(&mut self, cycles: &mut u32, mem: &MEM) -> (data: u8)
        requires
            mem.wf(),
            *old(cycles) < u32::MAX,
        ensures
            data == mem@[old(self).pc as int],
            *final(self) == (CPU { pc: addr_inc(old(self).pc), ..*old(self) }),
            *final(cycles) == *old(cycles) + 1,
    {
        let data = mem.read_byte(self.pc);
        self.pc = wrap_inc(self.pc);
        *cycles = *cycles + 1;
        data
    }

    /// Reads the little-endian instruction word at the program counter (low
    /// byte first), advances the program counter past it, and charges two
    /// cycles.
    pub fn fetch_word(&mut self, cycles: &mut u32, mem: &MEM) -> (data: u16)
        requires
            mem.wf(),
            *old(cycles) < u32::MAX - 1,
        ensures
            data == word_at(mem@, old(self).pc),
            *final(self) == (CPU { pc: addr_inc(addr_inc(old(self).pc)), ..*old(self) }),
            *final(cycles) == *old(cycles) + 2,
    {
        let lo = self.fetch_byte(cycles, mem);
        let hi = self.fetch_byte(cycles, mem);
        (lo as u16) | ((hi as u16) << 8)
    }

    /// Reads an operand byte at `addr` and charges one cycle. An operand
    /// read never moves the program counter: the program counter tracks the
    /// instruction stream only.
    pub fn read_byte(&self, cycles: &mut u32, addr: u8, mem: &MEM) -> (data: u8)
        requires
            mem.wf(),
            *old(cycles) < u32::MAX,
        ensures
            data == mem@[addr as int],
            *final(cycles) == *old(cycles) + 1,
    {
        *cycles = *cycles + 1;
        mem.read_byte(addr as u16)
    }

    /// Recomputes the Zero and Negative flags from the accumulator: Zero
    /// exactly when it is 0, Negative exactly when its bit 7 is set.
    pub fn lda_set_status(&mut self)
        ensures
            *final(self) == (CPU {
                z: old(self).a == 0,
                n: (old(self).a & 0x80) != 0,
                ..*old(self)
            }),
    {
        self.z = self.a == 0;
        self.n = (self.a & 0x80) != 0;
    }

    /// Copies `value` into `reg` and recomputes the Zero and Negative flags
    /// from it; no other register or flag changes.
    pub fn set_register(&mut self, reg: Reg, value: u8)
        ensures
            *final(self) == cpu_with_load(*old(self), reg, value),
    {
        match reg {
            Reg::A => {
                self.a = value;
            },
            Reg::X => {
                self.x = value;
            },
            Reg::Y => {
                self.y = value;
            },
        }
        self.z = value == 0;
        self.n = (value & 0x80) != 0;
    }
}

/// Effective address for zero-page indexed addressing: base plus index with
/// 8-bit wraparound, independent of any overflow of the sum past 8 bits —
/// the access never crosses out of the zero page.
pub fn zero_page_indexed(base: u8, index: u8) -> (r: u8)
    ensures
        r == zp_index(base, index),
        r as int == (base + index) % 256,
{
    (((base as u16) + (index as u16)) % 256) as u8
}

/// The stack pointer below `sp`, computed executably.
fn sp_below(sp: u8) -> (r: u8)
    ensures
        r == sp_dec(sp),
{
    if sp == 0 {
        0xFF
    } else {
        sp - 1
    }
}

/// One instruction step from state `cpu` with memory `m`: the machine state
/// after fetching the byte at the program counter, decoding it and carrying
/// the instruction out, together with the cycles that costs and whether the
/// core halted on an opcode that has no decode-table entry.
pub open spec fn step_spec(cpu: CPU, m: Seq<u8>) -> (CPU, Seq<u8>, int, bool) {
    let opcode = m[cpu.pc as int];
    let pc1 = addr_inc(cpu.pc);
    match decode_spec(opcode) {
        None => (CPU { pc: pc1, ..cpu }, m, 1, true),
        Some(Instr::Load(reg, mode)) => (
            cpu_with_load(
                CPU { pc: addr_inc(pc1), ..cpu },
                reg,
                operand_spec(m, pc1, cpu.x, cpu.y, mode),
            ),
            m,
            mode_cycles(mode),
            false,
        ),
        Some(Instr::Jsr) => {
            let target = word_at(m, pc1);
            let ret = addr_inc(pc1);
            let m1 = m.update(stack_addr(cpu.sp), high_byte(ret)).update(
                stack_addr(sp_dec(cpu.sp)),
                low_byte(ret),
            );
            (CPU { pc: target, sp: sp_dec(sp_dec(cpu.sp)), ..cpu }, m1, 6, false)
        },
    }
}

/// Repeated stepping under a cycle budget: a new instruction is fetched only
/// while budget remains, a single instruction may spend past zero, and a halt
/// stops the run at once. Yields the end state, the memory, the cycles
/// consumed and whether the run halted on an illegal opcode.
pub open spec fn run_spec(cpu: CPU, m: Seq<u8>, budget: int) -> (CPU, Seq<u8>, int, bool)
    decreases budget,
{
    if budget <= 0 {
        (cpu, m, 0, false)
    } else {
        let (cpu1, m1, cost, halted) = step_spec(cpu, m);
        if halted {
            (cpu1, m1, cost, true)
        } else {
            let rest = if budget - cost >= 0 { budget - cost } else { 0 };
            let (cpu2, m2, more, h) = run_spec(cpu1, m1, rest);
            (cpu2, m2, cost + more, h)
        }
    }
}

/// One unfolding of [`run_spec`] under a positive budget, with the clamp on
/// the remaining budget smoothed away: a negative remainder runs no further,
/// exactly like a remainder of zero.
proof fn lemma_run_spec_unfold(cpu: CPU, m: Seq<u8>, budget: int)
    requires
        budget > 0,
    ensures
        ({
            let (cpu1, m1, cost, halted) = step_spec(cpu, m);
            run_spec(cpu, m, budget) == if halted {
                (cpu1, m1, cost, true)
            } else {
                let (cpu2, m2, more, h) = run_spec(cpu1, m1, budget - cost);
                (cpu2, m2, cost + more, h)
            }
        }),
{
    let (cpu1, m1, cost, halted) = step_spec(cpu, m);
    if !halted && budget - cost < 0 {
        assert(run_spec(cpu1, m1, 0) == run_spec(cpu1, m1, budget - cost));
    }
}

impl CPU {
    /// Resolves the operand of a load under `mode`, with the program counter
    /// at the instruction byte that follows the opcode: it advances the
    /// program counter past that byte and charges the mode's cycles beyond
    /// the opcode fetch (one for immediate, two for zero-page, three for
    /// zero-page indexed).
    pub fn resolve_operand(&mut self, mode: AddrMode, cycles: &mut u32, mem: &MEM) -> (value: u8)
        requires
            mem.wf(),
            *old(cycles) <= u32::MAX - 3,
        ensures
            value == operand_spec(mem@, old(self).pc, old(self).x, old(self).y, mode),
            *final(self) == (CPU { pc: addr_inc(old(self).pc), ..*old(self) }),
            *final(cycles) == *old(cycles) + mode_cycles(mode) - 1,
    {
        match mode {
            AddrMode::Immediate => self.fetch_byte(cycles, mem),
            AddrMode::ZeroPage => {
                let addr = self.fetch_byte(cycles, mem);
                self.read_byte(cycles, addr, mem)
            },
            AddrMode::ZeroPageX => {
                let base = self.fetch_byte(cycles, mem);
                let addr = zero_page_indexed(base, self.x);
                *cycles = *cycles + 1;  // the index-addition cycle
                self.read_byte(cycles, addr, mem)
            },
            AddrMode::ZeroPageY => {
                let base = self.fetch_byte(cycles, mem);
                let addr = zero_page_indexed(base, self.y);
                *cycles = *cycles + 1;  // the index-addition cycle
                self.read_byte(cycles, addr, mem)
            },
        }
    }

    /// Runs the fetch-decode-execute loop under `cycle_budget`: a new
    /// instruction is fetched only while budget remains, one in-flight
    /// instruction may spend past zero, and an opcode with no decode-table
    /// entry halts the run at once. Reports the cycles actually consumed and
    /// whether the run halted; exhausting the budget is not an error. The
    /// headroom asked of the budget keeps the cycle count of one in-flight
    /// instruction representable.
    pub fn exec(&mut self, cycle_budget: u32, mem: &mut MEM) -> (r: ExecutionResult)
        requires
            old(mem).wf(),
            cycle_budget <= u32::MAX - 6,
        ensures
            final(mem).wf(),
            ({
                let (cpu_end, mem_end, cost, halted) = run_spec(
                    *old(self),
                    old(mem)@,
                    cycle_budget as int,
                );
                *final(self) == cpu_end && final(mem)@ == mem_end
                    && r.cycles_consumed == cost && r.halted == halted
            }),
    {
        let mut consumed: u32 = 0;
        while consumed < cycle_budget
            invariant
                mem.wf(),
                cycle_budget <= u32::MAX - 6,
                consumed <= cycle_budget + 5,
                ({
                    let (cpu_end, mem_end, cost, halted) = run_spec(
                        *self,
                        mem@,
                        cycle_budget - consumed,
                    );
                    run_spec(*old(self), old(mem)@, cycle_budget as int) == (
                        cpu_end,
                        mem_end,
                        consumed + cost,
                        halted,
                    )
                }),
            decreases cycle_budget + 5 - consumed,
        {
            let ghost pre_cpu = *self;
            let ghost pre_mem = mem@;
            let ghost pre_consumed = consumed;
            proof {
                lemma_run_spec_unfold(pre_cpu, pre_mem, cycle_budget - pre_consumed);
            }
            let opcode = self.fetch_byte(&mut consumed, mem);
            match decode(opcode) {
                None => {
                    assert(step_spec(pre_cpu, pre_mem) == (*self, mem@, 1int, true));
                    return ExecutionResult { cycles_consumed: consumed, halted: true };
                },
                Some(Instr::Load(reg, mode)) => {
                    let value = self.resolve_operand(mode, &mut consumed, mem);
                    self.set_register(reg, value);
                    assert(step_spec(pre_cpu, pre_mem) == (
                        *self,
                        mem@,
                        consumed - pre_consumed,
                        false,
                    ));
                },
                Some(Instr::Jsr) => {
                    let pc_operand = self.pc;
                    let target = self.fetch_word(&mut consumed, mem);
                    let ret = wrap_inc(pc_operand);
                    mem.write_byte(STACK_BASE + (self.sp as u16), (ret >> 8) as u8);
                    let sp1 = sp_below(self.sp);
                    mem.write_byte(STACK_BASE + (sp1 as u16), (ret & 0xFF) as u8);
                    self.sp = sp_below(sp1);
                    self.pc = target;
                    consumed = consumed + 3;  // two stack pushes and the internal cycle
                    assert(step_spec(pre_cpu, pre_mem) == (*self, mem@, 6int, false));
                },
            }
        }
        ExecutionResult { cycles_consumed: consumed, halted: false }
    }
}

/// Law: a load of operand value zero sets the Zero flag and clears the
/// Negative flag, whatever the target register and whatever the addressing
/// mode.
pub proof fn lemma_load_zero_flags(cpu: CPU, m: Seq<u8>, reg: Reg, mode: AddrMode)
    requires
        decode_spec(m[cpu.pc as int]) == Some(Instr::Load(reg, mode)),
        operand_spec(m, addr_inc(cpu.pc), cpu.x, cpu.y, mode) == 0,
    ensures
        step_spec(cpu, m).0.z,
        !step_spec(cpu, m).0.n,
{
    assert((0u8 & 0x80) == 0) by (bit_vector);
}

/// Law: a load of an operand with bit 7 set sets the Negative flag and
/// clears the Zero flag, whatever the target register and whatever the
/// addressing mode.
pub proof fn lemma_load_negative_flags(cpu: CPU, m: Seq<u8>, reg: Reg, mode: AddrMode)
    requires
        decode_spec(m[cpu.pc as int]) == Some(Instr::Load(reg, mode)),
        (operand_spec(m, addr_inc(cpu.pc), cpu.x, cpu.y, mode) & 0x80) != 0,
    ensures
        step_spec(cpu, m).0.n,
        !step_spec(cpu, m).0.z,
{
    let value = operand_spec(m, addr_inc(cpu.pc), cpu.x, cpu.y, mode);
    assert((value & 0x80) != 0 ==> value != 0) by (bit_vector);
}

/// Law: cycle cost is fixed per addressing mode, whatever the operand value:
/// an immediate load costs exactly 2 cycles (opcode fetch plus operand
/// fetch), a zero-page load 3, a zero-page indexed load 4.
pub proof fn lemma_load_cycle_cost(cpu: CPU, m: Seq<u8>, reg: Reg, mode: AddrMode)
    requires
        decode_spec(m[cpu.pc as int]) == Some(Instr::Load(reg, mode)),
    ensures
        step_spec(cpu, m).2 == mode_cycles(mode),
        mode == AddrMode::Immediate ==> step_spec(cpu, m).2 == 2,
        mode == AddrMode::ZeroPage ==> step_spec(cpu, m).2 == 3,
        mode == AddrMode::ZeroPageX || mode == AddrMode::ZeroPageY ==> step_spec(cpu, m).2 == 4,
{
}

/// Law: a jump to subroutine pushes the address of the last byte of the
/// instruction (the address after the instruction, minus one) onto the
/// stack — high byte at the stack pointer's slot, low byte one below it —
/// drops the stack pointer by two, sets the program counter to the fetched
/// target, and costs exactly 6 cycles.
pub proof fn lemma_jsr_step(cpu: CPU, m: Seq<u8>)
    requires
        m.len() == MEM_SIZE,
        decode_spec(m[cpu.pc as int]) == Some(Instr::Jsr),
    ensures
        ({
            let (cpu1, m1, cost, halted) = step_spec(cpu, m);
            let ret = addr_inc(addr_inc(cpu.pc));
            cpu1.pc == word_at(m, addr_inc(cpu.pc)) && m1[stack_addr(cpu.sp)] == high_byte(ret)
                && m1[stack_addr(sp_dec(cpu.sp))] == low_byte(ret) && cpu1.sp == sp_dec(
                sp_dec(cpu.sp),
            ) && cost == 6 && !halted
        }),
{
}

/// Law: with a budget that a single instruction exhausts, the run carries
/// out exactly that one instruction and consumes its full cycle cost, the
/// budget's overshoot allowance covering the difference.
pub proof fn lemma_single_instruction_run(cpu: CPU, m: Seq<u8>, budget: int)
    requires
        1 <= budget,
        ({
            let d = decode_spec(m[cpu.pc as int]);
            d matches Some(instr) && budget <= instr_cycles(instr)
        }),
    ensures
        ({
            let (cpu1, m1, cost, halted) = step_spec(cpu, m);
            run_spec(cpu, m, budget) == (cpu1, m1, cost, halted)
        }),
{
    let (cpu1, m1, cost, halted) = step_spec(cpu, m);
    assert(run_spec(cpu1, m1, 0) == (cpu1, m1, 0int, false));
}

/// Law: an opcode with no decode-table entry halts execution at once,
/// whatever budget remained: only the fetch of that opcode is charged, and
/// neither memory nor any register beyond the program counter changes.
pub proof fn lemma_illegal_opcode_halts(cpu: CPU, m: Seq<u8>, budget: int)
    requires
        budget >= 1,
        decode_spec(m[cpu.pc as int]) is None,
    ensures
        run_spec(cpu, m, budget) == ((CPU { pc: addr_inc(cpu.pc), ..cpu }), m, 1int, true),
{
}

} // verus!
