//! The CPU core: machine state, the fetch primitive, the per-opcode
//! instruction handlers, and the single-step dispatcher.

use vstd::prelude::*;

use crate::FONT_SET;

verus! {

broadcast use vstd::array::group_array_axioms;

/// Width in bytes of one encoded instruction.
pub const CHIP8_OPCODE_SIZE: u16 = 2;

/// Number of font bytes preloaded at the bottom of memory.
pub const CHIP8_FONT_SET_SIZE: usize = 80;

/// Size of the addressable memory.
pub const CHIP8_RAM: usize = 4096;

/// Height of the monochrome display, in pixels.
pub const CHIP8_HEIGHT: usize = 32;

/// Width of the monochrome display, in pixels.
pub const CHIP8_WIDTH: usize = 64;

/// Number of general-purpose registers (V0 through VF).
pub const CHIP8_NUM_REGS: usize = 16;

/// Depth of the return-address stack.
pub const CHIP8_STACK_DEPTH: usize = 16;

/// How control flow moves after one instruction executes: advance to the
/// next instruction, skip over the following one, or jump to an absolute
/// address.
pub enum ProgramCounterAction {
    Skip,
    Next,
    Jump(u16),
}

/// A fatal condition raised by the single-step operation. No machine state
/// is mutated when one of these is reported.
#[derive(Debug, PartialEq, Eq, Structural, Clone, Copy)]
pub enum Chip8Error {
    /// The four-nibble pattern matches no defined instruction.
    UnknownOpcode(u16),
    /// A return was executed with an empty stack.
    StackUnderflow,
    /// A call was executed with the stack already full.
    StackOverflow,
}

/// The whole machine state, mutated exclusively by the single-step
/// operation.
pub struct Cpu {
    /// RAM memory; the first 80 bytes hold the font table.
    pub ram: [u8; CHIP8_RAM],
    /// Return-address stack; the stack pointer indexes the last pushed slot.
    pub stack: [u16; CHIP8_STACK_DEPTH],
    /// Program counter: address of the next instruction.
    pub pc: u16,
    /// Stack pointer; 0 means the stack is empty.
    pub sp: u8,
    /// Delay timer, decremented by the external driver.
    pub dt: u8,
    /// Sound timer, decremented by the external driver.
    pub st: u8,
    /// Index register.
    pub i: u16,
    /// Registers V0 through VF; VF doubles as the carry/borrow flag.
    pub v: [u8; CHIP8_NUM_REGS],
    /// Graphics memory: one byte per pixel, 32 rows of 64 columns.
    pub vram: [[u8; CHIP8_WIDTH]; CHIP8_HEIGHT],
}

/// The instruction class: the top nibble of the opcode.
pub open spec fn op_class(op: u16) -> u16 {
    op / 0x1000
}

/// The `x` operand field: the second nibble, selecting the first operand
/// register.
pub open spec fn op_x(op: u16) -> int {
    ((op / 0x100) % 0x10) as int
}

/// The `y` operand field: the third nibble, selecting the second operand
/// register.
pub open spec fn op_y(op: u16) -> int {
    ((op / 0x10) % 0x10) as int
}

/// The `n` operand field: the fourth nibble, a small immediate.
pub open spec fn op_n(op: u16) -> u16 {
    op % 0x10
}

/// The `kk` operand field: the low byte, an immediate operand.
pub open spec fn op_kk(op: u16) -> u8 {
    (op % 0x100) as u8
}

/// The `nnn` operand field: the low 12 bits, an address operand.
pub open spec fn op_nnn(op: u16) -> u16 {
    op % 0x1000
}

/// Whether the opcode's nibble pattern matches an instruction this core
/// defines. Any other pattern is a fatal decode error, never a no-op.
pub open spec fn known_opcode(op: u16) -> bool {
    ||| op == 0x00E0
    ||| op == 0x00EE
    ||| op_class(op) == 0x1
    ||| op_class(op) == 0x2
    ||| op_class(op) == 0x3
    ||| op_class(op) == 0x4
    ||| (op_class(op) == 0x5 && op_n(op) == 0x0)
    ||| op_class(op) == 0x6
    ||| op_class(op) == 0x7
    ||| (op_class(op) == 0x8 && (op_n(op) <= 0x7 || op_n(op) == 0xE))
}

/// Everything but the program counter carries over unchanged.
pub open spec fn state_preserved(pre: Cpu, post: Cpu) -> bool {
    post == (Cpu { pc: post.pc, ..pre })
}

/// Everything but the registers and the program counter carries over
/// unchanged.
pub open spec fn regs_only_changed(pre: Cpu, post: Cpu) -> bool {
    post == (Cpu { v: post.v, pc: post.pc, ..pre })
}

/// Register `x` takes `val`; every other register carries over.
pub open spec fn v_set(
    pre: [u8; CHIP8_NUM_REGS],
    post: [u8; CHIP8_NUM_REGS],
    x: int,
    val: u8,
) -> bool {
    &&& post[x] == val
    &&& forall|k: int| 0 <= k < 16 && k != x ==> post[k] == pre[k]
}

/// Register `x` takes `val` and then the flag register VF takes `flag`;
/// the flag write comes last, so when `x` is 15 the flag wins. Every other
/// register carries over.
pub open spec fn v_set_with_flag(
    pre: [u8; CHIP8_NUM_REGS],
    post: [u8; CHIP8_NUM_REGS],
    x: int,
    val: u8,
    flag: u8,
) -> bool {
    &&& post[15] == flag
    &&& x != 15 ==> post[x] == val
    &&& forall|k: int| 0 <= k < 16 && k != x && k != 15 ==> post[k] == pre[k]
}

/// 00E0, CLS: every pixel of the frame buffer is zeroed; nothing else
/// changes.
pub open spec fn spec_cls(pre: Cpu, post: Cpu) -> bool {
    &&& post == (Cpu { vram: post.vram, pc: post.pc, ..pre })
    &&& forall|r: int, c: int| 0 <= r < 32 && 0 <= c < 64 ==> post.vram[r][c] == 0
}

/// 00EE, RET: the stack pointer, which indexed the last pushed entry, moves
/// down one slot; the stack contents themselves are untouched. The popped
/// return address becomes the jump target.
pub open spec fn spec_ret(pre: Cpu, post: Cpu) -> bool {
    &&& pre.sp >= 1
    &&& post == (Cpu { sp: post.sp, pc: post.pc, ..pre })
    &&& post.sp == pre.sp - 1
}

/// 2nnn, CALL: the stack pointer moves up one slot first, then the return
/// address (the instruction after the call) is written to that slot.
pub open spec fn spec_call(pre: Cpu, post: Cpu) -> bool {
    &&& pre.sp < 15
    &&& post == (Cpu { sp: post.sp, stack: post.stack, pc: post.pc, ..pre })
    &&& post.sp == pre.sp + 1
    &&& post.stack[pre.sp + 1] == pre.pc + 2
    &&& forall|k: int| 0 <= k < 16 && k != pre.sp + 1 ==> post.stack[k] == pre.stack[k]
}

/// 6xkk, LD Vx,kk: the register takes the immediate byte.
pub open spec fn spec_ld_imm(pre: Cpu, post: Cpu, x: int, kk: u8) -> bool {
    &&& regs_only_changed(pre, post)
    &&& v_set(pre.v, post.v, x, kk)
}

/// 7xkk, ADD Vx,kk: wraparound addition of the immediate byte; VF is not a
/// flag here and keeps whatever it held (unless it is Vx itself).
pub open spec fn spec_add_imm(pre: Cpu, post: Cpu, x: int, kk: u8) -> bool {
    &&& regs_only_changed(pre, post)
    &&& v_set(pre.v, post.v, x, ((pre.v[x] + kk) % 256) as u8)
}

/// 8xy0, LD Vx,Vy.
pub open spec fn spec_ld_reg(pre: Cpu, post: Cpu, x: int, y: int) -> bool {
    &&& regs_only_changed(pre, post)
    &&& v_set(pre.v, post.v, x, pre.v[y])
}

/// 8xy1, OR Vx,Vy.
pub open spec fn spec_or_reg(pre: Cpu, post: Cpu, x: int, y: int) -> bool {
    &&& regs_only_changed(pre, post)
    &&& v_set(pre.v, post.v, x, pre.v[x] | pre.v[y])
}

/// 8xy2, AND Vx,Vy.
pub open spec fn spec_and_reg(pre: Cpu, post: Cpu, x: int, y: int) -> bool {
    &&& regs_only_changed(pre, post)
    &&& v_set(pre.v, post.v, x, pre.v[x] & pre.v[y])
}

/// 8xy3, XOR Vx,Vy.
pub open spec fn spec_xor_reg(pre: Cpu, post: Cpu, x: int, y: int) -> bool {
    &&& regs_only_changed(pre, post)
    &&& v_set(pre.v, post.v, x, pre.v[x] ^ pre.v[y])
}

/// 8xy4, ADD Vx,Vy: wraparound addition; VF becomes 1 exactly when the sum
/// overflowed eight bits.
pub open spec fn spec_add_reg(pre: Cpu, post: Cpu, x: int, y: int) -> bool {
    &&& regs_only_changed(pre, post)
    &&& v_set_with_flag(
        pre.v,
        post.v,
        x,
        ((pre.v[x] + pre.v[y]) % 256) as u8,
        if pre.v[x] + pre.v[y] > 255 {
            1u8
        } else {
            0u8
        },
    )
}

/// 8xy5, SUB Vx,Vy: wraparound subtraction; VF becomes 1 exactly when the
/// subtraction underflowed.
pub open spec fn spec_sub_reg(pre: Cpu, post: Cpu, x: int, y: int) -> bool {
    &&& regs_only_changed(pre, post)
    &&& v_set_with_flag(
        pre.v,
        post.v,
        x,
        ((pre.v[x] - pre.v[y]) % 256) as u8,
        if pre.v[x] < pre.v[y] {
            1u8
        } else {
            0u8
        },
    )
}

/// 8xy6, SHR Vx: VF takes the pre-shift low bit, then Vx is halved.
pub open spec fn spec_shr(pre: Cpu, post: Cpu, x: int) -> bool {
    &&& regs_only_changed(pre, post)
    &&& v_set_with_flag(pre.v, post.v, x, (pre.v[x] / 2) as u8, (pre.v[x] % 2) as u8)
}

/// 8xy7, SUBN Vx,Vy: Vx takes Vy minus Vx with wraparound; VF becomes 1
/// exactly when that subtraction underflowed.
pub open spec fn spec_subn_reg(pre: Cpu, post: Cpu, x: int, y: int) -> bool {
    &&& regs_only_changed(pre, post)
    &&& v_set_with_flag(
        pre.v,
        post.v,
        x,
        ((pre.v[y] - pre.v[x]) % 256) as u8,
        if pre.v[y] < pre.v[x] {
            1u8
        } else {
            0u8
        },
    )
}

/// 8xyE, SHL Vx: VF takes the pre-shift high bit, then Vx is doubled with
/// the low eight bits kept.
pub open spec fn spec_shl(pre: Cpu, post: Cpu, x: int) -> bool {
    &&& regs_only_changed(pre, post)
    &&& v_set_with_flag(
        pre.v,
        post.v,
        x,
        ((2 * pre.v[x]) % 256) as u8,
        if pre.v[x] >= 128 {
            1u8
        } else {
            0u8
        },
    )
}

/// Where the program counter lands when an instruction falls through to
/// the next instruction (`Next`) or skips over the following one (`Skip`).
pub open spec fn spec_skip_target(pc: u16, skip: bool) -> int {
    if skip {
        pc + 4
    } else {
        pc + 2
    }
}

/// The effect of one successfully executed instruction: the instruction's
/// state change together with its control action applied to the program
/// counter.
pub open spec fn spec_step_ok(pre: Cpu, post: Cpu, op: u16) -> bool {
    let x = op_x(op);
    let y = op_y(op);
    let kk = op_kk(op);
    let nnn = op_nnn(op);
    if op == 0x00E0 {
        spec_cls(pre, post) && post.pc == pre.pc + 2
    } else if op == 0x00EE {
        spec_ret(pre, post) && post.pc == pre.stack[pre.sp as int]
    } else if op_class(op) == 0x1 {
        state_preserved(pre, post) && post.pc == nnn
    } else if op_class(op) == 0x2 {
        spec_call(pre, post) && post.pc == nnn
    } else if op_class(op) == 0x3 {
        state_preserved(pre, post) && post.pc == spec_skip_target(pre.pc, pre.v[x] == kk)
    } else if op_class(op) == 0x4 {
        state_preserved(pre, post) && post.pc == spec_skip_target(pre.pc, pre.v[x] != kk)
    } else if op_class(op) == 0x5 {
        state_preserved(pre, post) && post.pc == spec_skip_target(pre.pc, pre.v[x] == pre.v[y])
    } else if op_class(op) == 0x6 {
        spec_ld_imm(pre, post, x, kk) && post.pc == pre.pc + 2
    } else if op_class(op) == 0x7 {
        spec_add_imm(pre, post, x, kk) && post.pc == pre.pc + 2
    } else {
        let effect = if op_n(op) == 0x0 {
            spec_ld_reg(pre, post, x, y)
        } else if op_n(op) == 0x1 {
            spec_or_reg(pre, post, x, y)
        } else if op_n(op) == 0x2 {
            spec_and_reg(pre, post, x, y)
        } else if op_n(op) == 0x3 {
            spec_xor_reg(pre, post, x, y)
        } else if op_n(op) == 0x4 {
            spec_add_reg(pre, post, x, y)
        } else if op_n(op) == 0x5 {
            spec_sub_reg(pre, post, x, y)
        } else if op_n(op) == 0x6 {
            spec_shr(pre, post, x)
        } else if op_n(op) == 0x7 {
            spec_subn_reg(pre, post, x, y)
        } else {
            spec_shl(pre, post, x)
        };
        effect && post.pc == pre.pc + 2
    }
}

/// One full step on an already-fetched opcode: either a fatal condition is
/// reported with the state untouched, or exactly one instruction's effect
/// applies.
pub open spec fn spec_step(pre: Cpu, opcode: u16, post: Cpu, r: Result<(), Chip8Error>) -> bool {
    if !known_opcode(opcode) {
        r == Err::<(), Chip8Error>(Chip8Error::UnknownOpcode(opcode)) && post == pre
    } else if opcode == 0x00EE && pre.sp == 0 {
        r == Err::<(), Chip8Error>(Chip8Error::StackUnderflow) && post == pre
    } else if op_class(opcode) == 0x2 && pre.sp >= 15 {
        r == Err::<(), Chip8Error>(Chip8Error::StackOverflow) && post == pre
    } else {
        r == Ok::<(), Chip8Error>(()) && spec_step_ok(pre, post, opcode)
    }
}

impl ProgramCounterAction {
    /// Skip the next instruction when the condition holds, otherwise fall
    /// through to it.
    pub fn skip_if(condition: bool) -> (action: ProgramCounterAction)
        ensures
            action == (if condition {
                ProgramCounterAction::Skip
            } else {
                ProgramCounterAction::Next
            }),
    {
        if condition {
            ProgramCounterAction::Skip
        } else {
            ProgramCounterAction::Next
        }
    }
}

impl Cpu {
    /// The stack pointer stays a valid index into the stack.
    pub open spec fn wf(self) -> bool {
        self.sp < 16
    }

    /// Builds the machine in its start state: font table in low memory,
    /// program counter at the conventional load address, everything else
    /// zeroed.
    pub fn new() -> (cpu: Cpu)
        ensures
            cpu.wf(),
            cpu.pc == 0x200,
            cpu.sp == 0,
            cpu.dt == 0,
            cpu.st == 0,
            cpu.i == 0,
            forall|k: int| 0 <= k < 80 ==> cpu.ram[k] == FONT_SET[k],
            forall|k: int| 80 <= k < 4096 ==> cpu.ram[k] == 0,
            forall|k: int| 0 <= k < 16 ==> cpu.v[k] == 0,
            forall|k: int| 0 <= k < 16 ==> cpu.stack[k] == 0,
            forall|r: int, c: int| 0 <= r < 32 && 0 <= c < 64 ==> cpu.vram[r][c] == 0,
    {
        let mut ram = [0u8; CHIP8_RAM];

        // Load the font set into ram.
        for idx in 0..CHIP8_FONT_SET_SIZE
            invariant
                forall|k: int| 0 <= k < idx ==> ram[k] == FONT_SET[k],
                forall|k: int| idx <= k < 4096 ==> ram[k] == 0,
        {
            ram[idx] = FONT_SET[idx];
        }

        Cpu {
            ram,
            pc: 0x200,
            vram: [[0; CHIP8_WIDTH]; CHIP8_HEIGHT],
            sp: 0,
            dt: 0,
            st: 0,
            i: 0,
            v: [0; CHIP8_NUM_REGS],
            stack: [0; CHIP8_STACK_DEPTH],
        }
    }

    /// The big-endian 16-bit instruction word stored at the given address.
    pub open spec fn spec_opcode_at(self, addr: int) -> u16
        recommends
            0 <= addr,
            addr + 1 < 4096,
    {
        (self.ram[addr] * 256 + self.ram[addr + 1]) as u16
    }

    /// Reads the big-endian instruction word at the program counter. Pure
    /// read: no mutation.
    pub fn read_opcode(&self) -> (opcode: u16)
        requires
            self.pc + 1 < 4096,
        ensures
            opcode == self.spec_opcode_at(self.pc as int),
    {
        let index = self.pc as usize;
        let hi: u16 = self.ram[index] as u16;
        let lo: u16 = self.ram[index + 1] as u16;
        proof {
            assert((hi << 8) | lo == hi * 256 + lo) by (bit_vector)
                requires
                    hi < 256,
                    lo < 256,
            ;
        }
        (hi << 8) | lo
    }

    /// SE Vx,kk: skip the next instruction when Vx equals the immediate.
    pub fn op_3xkk(&mut self, x: usize, kk: u8) -> (action: ProgramCounterAction)
        requires
            x < 16,
        ensures
            *final(self) == *old(self),
            action == (if old(self).v[x as int] == kk {
                ProgramCounterAction::Skip
            } else {
                ProgramCounterAction::Next
            }),
    {
        ProgramCounterAction::skip_if(self.v[x] == kk)
    }

    /// SNE Vx,kk: skip the next instruction when Vx differs from the
    /// immediate.
    pub fn op_4xkk(&mut self, x: usize, kk: u8) -> (action: ProgramCounterAction)
        requires
            x < 16,
        ensures
            *final(self) == *old(self),
            action == (if old(self).v[x as int] != kk {
                ProgramCounterAction::Skip
            } else {
                ProgramCounterAction::Next
            }),
    {
        ProgramCounterAction::skip_if(self.v[x] != kk)
    }

    /// SE Vx,Vy: skip the next instruction when the two registers are
    /// equal.
    pub fn op_5xy0(&mut self, x: usize, y: usize) -> (action: ProgramCounterAction)
        requires
            x < 16,
            y < 16,
        ensures
            *final(self) == *old(self),
            action == (if old(self).v[x as int] == old(self).v[y as int] {
                ProgramCounterAction::Skip
            } else {
                ProgramCounterAction::Next
            }),
    {
        ProgramCounterAction::skip_if(self.v[x] == self.v[y])
    }

    /// LD Vx,kk: the register takes the immediate byte.
    pub fn op_6xkk(&mut self, x: usize, kk: u8) -> (action: ProgramCounterAction)
        requires
            x < 16,
        ensures
            spec_ld_imm(*old(self), *final(self), x as int, kk),
            final(self).pc == old(self).pc,
            action == ProgramCounterAction::Next,
    {
        self.v[x] = kk;
        ProgramCounterAction::Next
    }

    /// ADD Vx,kk: wraparound addition of the immediate byte; VF carries no
    /// flag for this instruction.
    pub fn op_7xkk(&mut self, x: usize, kk: u8) -> (action: ProgramCounterAction)
        requires
            x < 16,
        ensures
            spec_add_imm(*old(self), *final(self), x as int, kk),
            final(self).pc == old(self).pc,
            action == ProgramCounterAction::Next,
    {
        self.v[x] = self.v[x].wrapping_add(kk);
        ProgramCounterAction::Next
    }

    /// LD Vx,Vy: the first register takes the second one's value.
    pub fn op_8xy0(&mut self, x: usize, y: usize) -> (action: ProgramCounterAction)
        requires
            x < 16,
            y < 16,
        ensures
            spec_ld_reg(*old(self), *final(self), x as int, y as int),
            final(self).pc == old(self).pc,
            action == ProgramCounterAction::Next,
    {
        self.v[x] = self.v[y];
        ProgramCounterAction::Next
    }

    /// OR Vx,Vy.
    pub fn op_8xy1(&mut self, x: usize, y: usize) -> (action: ProgramCounterAction)
        requires
            x < 16,
            y < 16,
        ensures
            spec_or_reg(*old(self), *final(self), x as int, y as int),
            final(self).pc == old(self).pc,
            action == ProgramCounterAction::Next,
    {
        self.v[x] = self.v[x] | self.v[y];
        ProgramCounterAction::Next
    }

    /// AND Vx,Vy.
    pub fn op_8xy2(&mut self, x: usize, y: usize) -> (action: ProgramCounterAction)
        requires
            x < 16,
            y < 16,
        ensures
            spec_and_reg(*old(self), *final(self), x as int, y as int),
            final(self).pc == old(self).pc,
            action == ProgramCounterAction::Next,
    {
        self.v[x] = self.v[x] & self.v[y];
        ProgramCounterAction::Next
    }

    /// XOR Vx,Vy.
    pub fn op_8xy3(&mut self, x: usize, y: usize) -> (action: ProgramCounterAction)
        requires
            x < 16,
            y < 16,
        ensures
            spec_xor_reg(*old(self), *final(self), x as int, y as int),
            final(self).pc == old(self).pc,
            action == ProgramCounterAction::Next,
    {
        self.v[x] = self.v[x] ^ self.v[y];
        ProgramCounterAction::Next
    }

    /// ADD Vx,Vy: wraparound addition; VF is written last and becomes 1
    /// exactly when the eight-bit addition overflowed.
    pub fn op_8xy4(&mut self, x: usize, y: usize) -> (action: ProgramCounterAction)
        requires
            x < 16,
            y < 16,
        ensures
            spec_add_reg(*old(self), *final(self), x as int, y as int),
            final(self).pc == old(self).pc,
            action == ProgramCounterAction::Next,
    {
        let vx = self.v[x];
        let vy = self.v[y];
        let result = vx.wrapping_add(vy);

        self.v[x] = result;
        self.v[0xf] = if vx as u16 + vy as u16 > 255 {
            1
        } else {
            0
        };

        ProgramCounterAction::Next
    }

    /// SUB Vx,Vy: wraparound subtraction; VF is written last and becomes 1
    /// exactly when the subtraction underflowed.
    pub fn op_8xy5(&mut self, x: usize, y: usize) -> (action: ProgramCounterAction)
        requires
            x < 16,
            y < 16,
        ensures
            spec_sub_reg(*old(self), *final(self), x as int, y as int),
            final(self).pc == old(self).pc,
            action == ProgramCounterAction::Next,
    {
        let vx = self.v[x];
        let vy = self.v[y];
        let result = vx.wrapping_sub(vy);

        self.v[x] = result;
        self.v[0xf] = if vx < vy {
            1
        } else {
            0
        };

        ProgramCounterAction::Next
    }

    /// SHR Vx: the pre-shift value supplies both the shifted result and,
    /// written last, the low bit captured into VF. The decoded `y` operand
    /// is unused, as the instruction set defines.
    #[allow(unused_variables)]
    pub fn op_8xy6(&mut self, x: usize, y: usize) -> (action: ProgramCounterAction)
        requires
            x < 16,
        ensures
            spec_shr(*old(self), *final(self), x as int),
            final(self).pc == old(self).pc,
            action == ProgramCounterAction::Next,
    {
        let vx = self.v[x];
        proof {
            assert(vx >> 1 == vx / 2) by (bit_vector);
            assert(vx & 0x1 == vx % 2) by (bit_vector);
        }
        self.v[x] = vx >> 1;
        self.v[0xf] = vx & 0x1;

        ProgramCounterAction::Next
    }

    /// SUBN Vx,Vy: Vx takes Vy minus Vx with wraparound; VF is written
    /// last and becomes 1 exactly when that subtraction underflowed.
    pub fn op_8xy7(&mut self, x: usize, y: usize) -> (action: ProgramCounterAction)
        requires
            x < 16,
            y < 16,
        ensures
            spec_subn_reg(*old(self), *final(self), x as int, y as int),
            final(self).pc == old(self).pc,
            action == ProgramCounterAction::Next,
    {
        let vx = self.v[x];
        let vy = self.v[y];
        let result = vy.wrapping_sub(vx);

        self.v[x] = result;
        self.v[0xf] = if vy < vx {
            1
        } else {
            0
        };

        ProgramCounterAction::Next
    }

    /// SHL Vx: the pre-shift value supplies both the doubled result and,
    /// written last, the high bit captured into VF. The decoded `y` operand
    /// is unused, as the instruction set defines.
    #[allow(unused_variables)]
    pub fn op_8xye(&mut self, x: usize, y: usize) -> (action: ProgramCounterAction)
        requires
            x < 16,
        ensures
            spec_shl(*old(self), *final(self), x as int),
            final(self).pc == old(self).pc,
            action == ProgramCounterAction::Next,
    {
        let vx = self.v[x];
        let tmp = vx & 0b10000000;
        proof {
            assert(vx << 1 == ((2 * vx) % 256) as u8) by (bit_vector);
            assert((vx & 0b10000000 > 0) <==> vx >= 128) by (bit_vector);
        }
        self.v[x] = vx << 1;
        if tmp > 0 {
            self.v[0xf] = 1;
        } else {
            self.v[0xf] = 0;
        }

        ProgramCounterAction::Next
    }

    /// RET: pops the return address that the matching call pushed. With an
    /// empty stack the underflow is reported and nothing changes.
    pub fn op_00ee(&mut self) -> (r: Result<ProgramCounterAction, Chip8Error>)
        requires
            old(self).wf(),
        ensures
            match r {
                Ok(action) => {
                    &&& spec_ret(*old(self), *final(self))
                    &&& final(self).pc == old(self).pc
                    &&& action == ProgramCounterAction::Jump(
                        old(self).stack[old(self).sp as int],
                    )
                },
                Err(e) => {
                    &&& e == Chip8Error::StackUnderflow
                    &&& old(self).sp == 0
                    &&& *final(self) == *old(self)
                },
            },
            r is Err <==> old(self).sp == 0,
    {
        if self.sp == 0 {
            return Err(Chip8Error::StackUnderflow);
        }
        let addr = self.stack[self.sp as usize];
        self.sp = self.sp - 1;
        Ok(ProgramCounterAction::Jump(addr))
    }

    /// JP addr: jump to the absolute address operand.
    pub fn op_1nnn(&mut self, nnn: u16) -> (action: ProgramCounterAction)
        ensures
            *final(self) == *old(self),
            action == ProgramCounterAction::Jump(nnn),
    {
        ProgramCounterAction::Jump(nnn)
    }

    /// CALL addr: increments the stack pointer first, then writes the
    /// return address to the new top slot, mirroring RET's convention.
    /// With the stack already full the overflow is reported and nothing
    /// changes.
    pub fn op_2nnn(&mut self, nnn: u16) -> (r: Result<ProgramCounterAction, Chip8Error>)
        requires
            old(self).wf(),
            old(self).pc + 2 <= 0xFFFF,
        ensures
            match r {
                Ok(action) => {
                    &&& spec_call(*old(self), *final(self))
                    &&& final(self).pc == old(self).pc
                    &&& action == ProgramCounterAction::Jump(nnn)
                },
                Err(e) => {
                    &&& e == Chip8Error::StackOverflow
                    &&& old(self).sp >= 15
                    &&& *final(self) == *old(self)
                },
            },
            r is Err <==> old(self).sp >= 15,
    {
        if self.sp >= 15 {
            return Err(Chip8Error::StackOverflow);
        }
        self.sp = self.sp + 1;
        let ret_addr = self.pc + 2;
        self.stack[self.sp as usize] = ret_addr;

        Ok(ProgramCounterAction::Jump(nnn))
    }

    /// CLS: clear the screen.
    #[inline]
    #[verifier::loop_isolation(false)]
    pub fn op_00e0(&mut self) -> (action: ProgramCounterAction)
        ensures
            spec_cls(*old(self), *final(self)),
            final(self).pc == old(self).pc,
            action == ProgramCounterAction::Next,
    {
        for row in 0..CHIP8_HEIGHT
            invariant
                *self == (Cpu { vram: self.vram, ..*old(self) }),
                forall|r: int, c: int| 0 <= r < row && 0 <= c < 64 ==> self.vram[r][c] == 0,
        {
            for col in 0..CHIP8_WIDTH
                invariant
                    *self == (Cpu { vram: self.vram, ..*old(self) }),
                    forall|r: int, c: int| 0 <= r < row && 0 <= c < 64 ==> self.vram[r][c] == 0,
                    forall|c: int| 0 <= c < col ==> self.vram[row as int][c] == 0,
            {
                self.vram[row][col] = 0;
            }
        }

        ProgramCounterAction::Next
    }

    /// Executes one already-fetched instruction: splits the opcode into
    /// nibbles, dispatches to exactly one handler, and applies the
    /// resulting control action to the program counter. A fatal condition
    /// (unknown nibble pattern, stack underflow or overflow) is reported
    /// with no state mutated for that step.
    pub fn run(&mut self, opcode: u16) -> (r: Result<(), Chip8Error>)
        requires
            old(self).wf(),
            old(self).pc + 4 <= 0xFFFF,
        ensures
            final(self).wf(),
            spec_step(*old(self), opcode, *final(self), r),
    {
        let n1: u16 = opcode / 0x1000;
        let n2: u16 = (opcode / 0x100) % 0x10;
        let n3: u16 = (opcode / 0x10) % 0x10;
        let n4: u16 = opcode % 0x10;

        let nnn: u16 = opcode % 0x1000;
        let kk: u8 = (opcode % 0x100) as u8;
        let x = n2 as usize;
        let y = n3 as usize;

        let action = match (n1, n2, n3, n4) {
            (0x0, 0x0, 0xE, 0x0) => self.op_00e0(),
            (0x0, 0x0, 0xE, 0xE) => match self.op_00ee() {
                Ok(a) => a,
                Err(e) => {
                    return Err(e);
                },
            },
            (0x1, _, _, _) => self.op_1nnn(nnn),
            (0x2, _, _, _) => match self.op_2nnn(nnn) {
                Ok(a) => a,
                Err(e) => {
                    return Err(e);
                },
            },
            (0x3, _, _, _) => self.op_3xkk(x, kk),
            (0x4, _, _, _) => self.op_4xkk(x, kk),
            (0x5, _, _, 0x0) => self.op_5xy0(x, y),
            (0x6, _, _, _) => self.op_6xkk(x, kk),
            (0x7, _, _, _) => self.op_7xkk(x, kk),
            (0x8, _, _, 0x0) => self.op_8xy0(x, y),
            (0x8, _, _, 0x1) => self.op_8xy1(x, y),
            (0x8, _, _, 0x2) => self.op_8xy2(x, y),
            (0x8, _, _, 0x3) => self.op_8xy3(x, y),
            (0x8, _, _, 0x4) => self.op_8xy4(x, y),
            (0x8, _, _, 0x5) => self.op_8xy5(x, y),
            (0x8, _, _, 0x6) => self.op_8xy6(x, y),
            (0x8, _, _, 0x7) => self.op_8xy7(x, y),
            (0x8, _, _, 0xE) => self.op_8xye(x, y),
            _ => {
                return Err(Chip8Error::UnknownOpcode(opcode));
            },
        };

        match action {
            ProgramCounterAction::Next => {
                self.pc = self.pc + CHIP8_OPCODE_SIZE;
            },
            ProgramCounterAction::Skip => {
                self.pc = self.pc + 2 * CHIP8_OPCODE_SIZE;
            },
            ProgramCounterAction::Jump(addr) => {
                self.pc = addr;
            },
        }
        Ok(())
    }
}

/// A call followed by a return restores control to the instruction after
/// the call: stepping any state through `2nnn` and then `00EE` leaves the
/// program counter at the call's address plus one instruction width, with
/// the stack pointer back at its pre-call value and the registers, memory
/// and frame buffer untouched throughout.
pub proof fn lemma_call_ret_round_trip(pre: Cpu, mid: Cpu, post: Cpu, opcode: u16)
    requires
        op_class(opcode) == 0x2,
        spec_step(pre, opcode, mid, Ok(())),
        spec_step(mid, 0x00EE, post, Ok(())),
    ensures
        post.pc == pre.pc + 2,
        post.sp == pre.sp,
        post.ram == pre.ram,
        post.v == pre.v,
        post.vram == pre.vram,
{
}

/// Clearing the screen is idempotent: a second `00E0` immediately after a
/// first leaves the frame buffer exactly as the first left it (all zero),
/// and each of the two steps advances the program counter by one
/// instruction width.
pub proof fn lemma_cls_idempotent(pre: Cpu, mid: Cpu, post: Cpu)
    requires
        spec_step(pre, 0x00E0, mid, Ok(())),
        spec_step(mid, 0x00E0, post, Ok(())),
    ensures
        post.vram == mid.vram,
        forall|r: int, c: int| 0 <= r < 32 && 0 <= c < 64 ==> post.vram[r][c] == 0,
        mid.pc == pre.pc + 2,
        post.pc == pre.pc + 4,
{
    assert forall|r: int| 0 <= r < 32 implies post.vram[r] == mid.vram[r] by {
        assert(post.vram[r]@ =~= mid.vram[r]@);
    }
    assert(post.vram@ =~= mid.vram@);
}

} // verus!
