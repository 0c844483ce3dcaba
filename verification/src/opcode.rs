//! Instruction decoding: the argument fields of a raw 16-bit instruction and
//! the dispatch from an instruction to the operation it names, together with
//! the executable semantics of every operation.

use vstd::prelude::*;

use crate::cpu::{Cpu, CpuView, ExecError};
use crate::cpu::{in_program, view_wf, MEMORY_LENGTH, NUM_REGISTERS, STACK_LENGTH};
use crate::cpu::{VIRTUAL_DISPLAY_HEIGHT, VIRTUAL_DISPLAY_WIDTH};
use crate::keyboard::key_pressed;

verus! {

/// how many bytes are present in an instruction
pub const INSTR_SIZE: usize = 2;

/// Represents possible arguments to an opcode. Not all argument
/// fields will be present for all opcodes.
#[derive(Debug, Copy, Clone, PartialEq, Eq, Structural)]
pub struct OpCodeArgs {
    /// Low nibble of the high byte (data register index)
    pub x: usize,
    /// High nibble of the low byte (data register index)
    pub y: usize,
    /// Lowest nibble (scalar value)
    pub n: u8,
    /// Lower byte (scalar value)
    pub kk: u8,
    /// Lower 3 nibbles (address)
    pub nnn: usize,
}

/// The argument fields that the fixed bit masks extract from an instruction.
pub open spec fn spec_args(opcode: u16) -> OpCodeArgs {
    OpCodeArgs {
        x: ((opcode & 0x0F00) >> 8) as usize,
        y: ((opcode & 0x00F0) >> 4) as usize,
        n: (opcode & 0x000F) as u8,
        kk: (opcode & 0x00FF) as u8,
        nnn: (opcode & 0x0FFF) as usize,
    }
}

/// The ranges that the argument fields always fall in: each register index
/// and the low nibble are below 16, and the address is below 0x1000.
pub open spec fn args_wf(args: OpCodeArgs) -> bool {
    &&& args.x < 16
    &&& args.y < 16
    &&& args.n < 16
    &&& args.nnn < 0x1000
}

/// Extracting the fields always lands them in their ranges.
pub proof fn lemma_args_wf(opcode: u16)
    ensures
        args_wf(spec_args(opcode)),
{
    assert(((opcode & 0x0F00) >> 8) < 16) by (bit_vector);
    assert(((opcode & 0x00F0) >> 4) < 16) by (bit_vector);
    assert((opcode & 0x000F) < 16) by (bit_vector);
    assert((opcode & 0x0FFF) < 0x1000) by (bit_vector);
}

impl OpCodeArgs {
    /// Returns an OpCodeArgs structure given an opcode.
    pub fn from_u16(opcode: u16) -> (args: OpCodeArgs)
        ensures
            args == spec_args(opcode),
            args_wf(args),
    {
        proof {
            lemma_args_wf(opcode);
        }
        OpCodeArgs {
            x: ((opcode & 0x0F00) >> 8) as usize,
            y: ((opcode & 0x00F0) >> 4) as usize,
            n: (opcode & 0x000F) as u8,
            kk: (opcode & 0x00FF) as u8,
            nnn: (opcode & 0x0FFF) as usize,
        }
    }
}

/// Decoding the argument fields of a synthesized instruction yields exactly
/// the bits used to synthesize it: for every category nibble and every
/// choice of the X, Y and N nibbles, the extracted register indices, low
/// nibble, low byte and address are the synthesized ones.
pub proof fn lemma_decode_encode_round_trip(cat: u16, x: u16, y: u16, n: u16)
    requires
        cat < 16,
        x < 16,
        y < 16,
        n < 16,
    ensures
        ({
            let op = (cat << 12) | (x << 8) | (y << 4) | n;
            &&& spec_args(op).x == x as usize
            &&& spec_args(op).y == y as usize
            &&& spec_args(op).n == n as u8
            &&& spec_args(op).kk == ((y << 4) | n) as u8
            &&& spec_args(op).nnn == ((x << 8) | (y << 4) | n) as usize
        }),
{
    let op = (cat << 12) | (x << 8) | (y << 4) | n;
    assert((op & 0x0F00) >> 8 == x && (op & 0x00F0) >> 4 == y && (op & 0x000F) == n
        && (op & 0x00FF) == ((y << 4) | n) && (op & 0x0FFF) == ((x << 8) | (y << 4) | n))
        by (bit_vector)
        requires
            op == (cat << 12) | (x << 8) | (y << 4) | n,
            cat < 16,
            x < 16,
            y < 16,
            n < 16,
    ;
}

/// Re-encoding the extracted argument fields recovers the instruction's low
/// twelve bits, and the low byte is the Y nibble joined with the N nibble.
pub proof fn lemma_encode_decode_round_trip(opcode: u16)
    ensures
        ((spec_args(opcode).x as u16) << 8) | ((spec_args(opcode).y as u16) << 4)
            | (spec_args(opcode).n as u16) == (opcode & 0x0FFF),
        ((spec_args(opcode).y as u16) << 4) | (spec_args(opcode).n as u16)
            == (spec_args(opcode).kk as u16),
{
    lemma_args_wf(opcode);
    let a = (opcode & 0x0F00) >> 8;
    let b = (opcode & 0x00F0) >> 4;
    let c = opcode & 0x000F;
    assert((a << 8) | (b << 4) | c == (opcode & 0x0FFF) && (b << 4) | c == (opcode & 0x00FF))
        by (bit_vector)
        requires
            a == (opcode & 0x0F00) >> 8,
            b == (opcode & 0x00F0) >> 4,
            c == opcode & 0x000F,
    ;
    assert((opcode & 0x000F) < 256 && (opcode & 0x00FF) < 256) by (bit_vector);
    assert(spec_args(opcode).x as u16 == a);
    assert(spec_args(opcode).y as u16 == b);
    assert(spec_args(opcode).n as u16 == c);
    assert(spec_args(opcode).kk as u16 == (opcode & 0x00FF));
}

/// The closed set of operations an instruction can name. Dispatch goes by
/// the top four bits of the instruction and, where those are not enough, by
/// a secondary selector (the trailing nibble or byte).
#[derive(Debug, Copy, Clone, PartialEq, Eq, Structural)]
pub enum Operation {
    Cls,
    Ret,
    JpAddr,
    CallAddr,
    SeVxByte,
    SneVxByte,
    SeVxVy,
    LdVxByte,
    AddVxByte,
    LdVxVy,
    OrVxVy,
    AndVxVy,
    XorVxVy,
    AddVxVy,
    SubVxVy,
    ShrVxVy,
    SubnVxVy,
    ShlVxVy,
    SneVxVy,
    LdIAddr,
    JpV0Addr,
    RndVxByte,
    DrwVxVyNibble,
    SkpVx,
    SknpVx,
    LdVxDt,
    LdVxK,
    LdDtVx,
    LdStVx,
    AddIVx,
    LdFVx,
    LdBVx,
    LdIVx,
    LdVxI,
}

/// Which operation a raw instruction names, or `None` if it matches no
/// dispatch entry. Only the categories 0x0, 0x8, 0x9, 0xE and 0xF need a
/// secondary selector beyond the top four bits. The 0x0 class has no
/// handler besides clear-screen and return: any other 0x0nnn instruction
/// matches no entry and execution stops rather than silently going on.
pub open spec fn spec_decode(opcode: u16) -> Option<Operation> {
    let args = spec_args(opcode);
    let category = opcode & 0xF000;
    if category == 0x0000 {
        if opcode == 0x00E0 {
            Some(Operation::Cls)
        } else if opcode == 0x00EE {
            Some(Operation::Ret)
        } else {
            None
        }
    } else if category == 0x1000 {
        Some(Operation::JpAddr)
    } else if category == 0x2000 {
        Some(Operation::CallAddr)
    } else if category == 0x3000 {
        Some(Operation::SeVxByte)
    } else if category == 0x4000 {
        Some(Operation::SneVxByte)
    } else if category == 0x5000 {
        Some(Operation::SeVxVy)
    } else if category == 0x6000 {
        Some(Operation::LdVxByte)
    } else if category == 0x7000 {
        Some(Operation::AddVxByte)
    } else if category == 0x8000 {
        if args.n == 0x0 {
            Some(Operation::LdVxVy)
        } else if args.n == 0x1 {
            Some(Operation::OrVxVy)
        } else if args.n == 0x2 {
            Some(Operation::AndVxVy)
        } else if args.n == 0x3 {
            Some(Operation::XorVxVy)
        } else if args.n == 0x4 {
            Some(Operation::AddVxVy)
        } else if args.n == 0x5 {
            Some(Operation::SubVxVy)
        } else if args.n == 0x6 {
            Some(Operation::ShrVxVy)
        } else if args.n == 0x7 {
            Some(Operation::SubnVxVy)
        } else if args.n == 0xE {
            Some(Operation::ShlVxVy)
        } else {
            None
        }
    } else if category == 0x9000 {
        if args.n == 0x0 {
            Some(Operation::SneVxVy)
        } else {
            None
        }
    } else if category == 0xA000 {
        Some(Operation::LdIAddr)
    } else if category == 0xB000 {
        Some(Operation::JpV0Addr)
    } else if category == 0xC000 {
        Some(Operation::RndVxByte)
    } else if category == 0xD000 {
        Some(Operation::DrwVxVyNibble)
    } else if category == 0xE000 {
        if args.kk == 0x9E {
            Some(Operation::SkpVx)
        } else if args.kk == 0xA1 {
            Some(Operation::SknpVx)
        } else {
            None
        }
    } else if category == 0xF000 {
        if args.kk == 0x07 {
            Some(Operation::LdVxDt)
        } else if args.kk == 0x0A {
            Some(Operation::LdVxK)
        } else if args.kk == 0x15 {
            Some(Operation::LdDtVx)
        } else if args.kk == 0x18 {
            Some(Operation::LdStVx)
        } else if args.kk == 0x1E {
            Some(Operation::AddIVx)
        } else if args.kk == 0x29 {
            Some(Operation::LdFVx)
        } else if args.kk == 0x33 {
            Some(Operation::LdBVx)
        } else if args.kk == 0x55 {
            Some(Operation::LdIVx)
        } else if args.kk == 0x65 {
            Some(Operation::LdVxI)
        } else {
            None
        }
    } else {
        None
    }
}

// -------------------------------------------------------------
// The mathematical semantics of each operation: a function from
// the machine-state model before the instruction to the model
// after it. Every handler below is proved against one of these.
// -------------------------------------------------------------

/// The wrapping byte sum: the mathematical sum reduced modulo 256.
pub open spec fn byte_add(a: u8, b: u8) -> u8 {
    if a + b > 255 {
        (a + b - 256) as u8
    } else {
        (a + b) as u8
    }
}

/// The carry bit of a byte sum: one exactly when the sum exceeds 255.
pub open spec fn carry_bit(a: u8, b: u8) -> u8 {
    if a + b > 255 {
        1u8
    } else {
        0u8
    }
}

/// The wrapping byte difference: the mathematical difference reduced
/// modulo 256.
pub open spec fn byte_sub(a: u8, b: u8) -> u8 {
    if a >= b {
        (a - b) as u8
    } else {
        (a - b + 256) as u8
    }
}

/// The NOT-borrow bit of a byte difference: one exactly when no borrow
/// happens, that is when the minuend is at least the subtrahend.
pub open spec fn not_borrow_bit(a: u8, b: u8) -> u8 {
    if a >= b {
        1u8
    } else {
        0u8
    }
}

/// The wrapping byte operations equal the mathematical sum and difference
/// modulo 256: overflow never escapes the byte and never faults.
pub proof fn lemma_byte_ops_wrap(a: u8, b: u8)
    ensures
        byte_add(a, b) == (a + b) % 256,
        byte_sub(a, b) == (a - b) % 256,
{
    if a + b > 255 {
        vstd::arithmetic::div_mod::lemma_mod_sub_multiples_vanish(a + b, 256);
        vstd::arithmetic::div_mod::lemma_small_mod((a + b - 256) as nat, 256);
    } else {
        vstd::arithmetic::div_mod::lemma_small_mod((a + b) as nat, 256);
    }
    if a >= b {
        vstd::arithmetic::div_mod::lemma_small_mod((a - b) as nat, 256);
    } else {
        vstd::arithmetic::div_mod::lemma_mod_add_multiples_vanish(a - b, 256);
        vstd::arithmetic::div_mod::lemma_small_mod((a - b + 256) as nat, 256);
    }
}

/// The memory address `off` bytes past the address register, bounded to the
/// memory range: memory-indirect opcodes wrap around the end of memory.
pub open spec fn mem_at(i: u16, off: int) -> int {
    (i + off) % (MEMORY_LENGTH as int)
}

/// 0x00E0 "CLS": every pixel off, screen marked dirty.
pub open spec fn cls_spec(pre: CpuView) -> CpuView {
    CpuView {
        vram: Seq::new((VIRTUAL_DISPLAY_WIDTH * VIRTUAL_DISPLAY_HEIGHT) as nat, |p: int| false),
        draw: true,
        pc: (pre.pc + INSTR_SIZE) as usize,
        ..pre
    }
}

/// 0x00EE "RET": pop the stack into the program counter and advance past
/// the call instruction. Only meaningful when the stack is not empty.
pub open spec fn ret_spec(pre: CpuView) -> CpuView {
    CpuView {
        sp: (pre.sp - 1) as usize,
        pc: (pre.stack[pre.sp - 1] + INSTR_SIZE) as usize,
        ..pre
    }
}

/// 0x1nnn "JP addr": the program counter is set absolutely, no advance.
pub open spec fn jp_addr_spec(pre: CpuView, nnn: usize) -> CpuView {
    CpuView { pc: nnn, ..pre }
}

/// 0x2nnn "CALL addr": push the current instruction address, then jump.
/// Only meaningful when the stack is not full.
pub open spec fn call_addr_spec(pre: CpuView, nnn: usize) -> CpuView {
    CpuView {
        stack: pre.stack.update(pre.sp as int, pre.pc),
        sp: (pre.sp + 1) as usize,
        pc: nnn,
        ..pre
    }
}

/// The program counter after a conditional skip: one extra instruction
/// width when the condition holds, the normal advance otherwise.
pub open spec fn skip_pc(pre: CpuView, cond: bool) -> usize {
    if cond {
        (pre.pc + 2 * INSTR_SIZE) as usize
    } else {
        (pre.pc + INSTR_SIZE) as usize
    }
}

/// 0x3xkk "SE Vx, byte": skip the next instruction if Vx = kk.
pub open spec fn se_vx_byte_spec(pre: CpuView, x: int, kk: u8) -> CpuView {
    CpuView { pc: skip_pc(pre, pre.regs[x] == kk), ..pre }
}

/// 0x4xkk "SNE Vx, byte": skip the next instruction if Vx != kk.
pub open spec fn sne_vx_byte_spec(pre: CpuView, x: int, kk: u8) -> CpuView {
    CpuView { pc: skip_pc(pre, pre.regs[x] != kk), ..pre }
}

/// 0x5xy0 "SE Vx, Vy": skip the next instruction if Vx = Vy.
pub open spec fn se_vx_vy_spec(pre: CpuView, x: int, y: int) -> CpuView {
    CpuView { pc: skip_pc(pre, pre.regs[x] == pre.regs[y]), ..pre }
}

/// 0x9xy0 "SNE Vx, Vy": skip the next instruction if Vx != Vy.
pub open spec fn sne_vx_vy_spec(pre: CpuView, x: int, y: int) -> CpuView {
    CpuView { pc: skip_pc(pre, pre.regs[x] != pre.regs[y]), ..pre }
}

/// 0x6xkk "LD Vx, byte": Vx := kk.
pub open spec fn ld_vx_byte_spec(pre: CpuView, x: int, kk: u8) -> CpuView {
    CpuView { regs: pre.regs.update(x, kk), pc: (pre.pc + INSTR_SIZE) as usize, ..pre }
}

/// 0x7xkk "ADD Vx, byte": Vx := Vx + kk, wrapping, no flag side effect.
pub open spec fn add_vx_byte_spec(pre: CpuView, x: int, kk: u8) -> CpuView {
    CpuView {
        regs: pre.regs.update(x, byte_add(pre.regs[x], kk)),
        pc: (pre.pc + INSTR_SIZE) as usize,
        ..pre
    }
}

/// 0x8xy0 "LD Vx, Vy": Vx := Vy.
pub open spec fn ld_vx_vy_spec(pre: CpuView, x: int, y: int) -> CpuView {
    CpuView { regs: pre.regs.update(x, pre.regs[y]), pc: (pre.pc + INSTR_SIZE) as usize, ..pre }
}

/// 0x8xy1 "OR Vx, Vy": Vx := Vx OR Vy.
pub open spec fn or_vx_vy_spec(pre: CpuView, x: int, y: int) -> CpuView {
    CpuView {
        regs: pre.regs.update(x, pre.regs[x] | pre.regs[y]),
        pc: (pre.pc + INSTR_SIZE) as usize,
        ..pre
    }
}

/// 0x8xy2 "AND Vx, Vy": Vx := Vx AND Vy.
pub open spec fn and_vx_vy_spec(pre: CpuView, x: int, y: int) -> CpuView {
    CpuView {
        regs: pre.regs.update(x, pre.regs[x] & pre.regs[y]),
        pc: (pre.pc + INSTR_SIZE) as usize,
        ..pre
    }
}

/// 0x8xy3 "XOR Vx, Vy": Vx := Vx XOR Vy.
pub open spec fn xor_vx_vy_spec(pre: CpuView, x: int, y: int) -> CpuView {
    CpuView {
        regs: pre.regs.update(x, pre.regs[x] ^ pre.regs[y]),
        pc: (pre.pc + INSTR_SIZE) as usize,
        ..pre
    }
}

/// 0x8xy4 "ADD Vx, Vy": Vx := Vx + Vy wrapping, VF := carry. The flag is
/// written after the sum, so it wins when X is the flag register itself.
pub open spec fn add_vx_vy_spec(pre: CpuView, x: int, y: int) -> CpuView {
    CpuView {
        regs: pre.regs.update(x, byte_add(pre.regs[x], pre.regs[y])).update(
            15,
            carry_bit(pre.regs[x], pre.regs[y]),
        ),
        pc: (pre.pc + INSTR_SIZE) as usize,
        ..pre
    }
}

/// 0x8xy5 "SUB Vx, Vy": Vx := Vx - Vy wrapping, VF := NOT borrow.
pub open spec fn sub_vx_vy_spec(pre: CpuView, x: int, y: int) -> CpuView {
    CpuView {
        regs: pre.regs.update(x, byte_sub(pre.regs[x], pre.regs[y])).update(
            15,
            not_borrow_bit(pre.regs[x], pre.regs[y]),
        ),
        pc: (pre.pc + INSTR_SIZE) as usize,
        ..pre
    }
}

/// 0x8xy7 "SUBN Vx, Vy": Vx := Vy - Vx wrapping, VF := NOT borrow.
pub open spec fn subn_vx_vy_spec(pre: CpuView, x: int, y: int) -> CpuView {
    CpuView {
        regs: pre.regs.update(x, byte_sub(pre.regs[y], pre.regs[x])).update(
            15,
            not_borrow_bit(pre.regs[y], pre.regs[x]),
        ),
        pc: (pre.pc + INSTR_SIZE) as usize,
        ..pre
    }
}

/// 0x8xy6 "SHR Vx": VF := the shifted-out low bit of Vx, then Vx is shifted
/// right by exactly one bit. The flag is written first, so when X is the
/// flag register the shift acts on the just-written flag, as the sequential
/// semantics demands.
pub open spec fn shr_vx_vy_spec(pre: CpuView, x: int) -> CpuView {
    let flagged = pre.regs.update(15, pre.regs[x] & 1);
    CpuView {
        regs: flagged.update(x, flagged[x] >> 1u8),
        pc: (pre.pc + INSTR_SIZE) as usize,
        ..pre
    }
}

/// 0x8xyE "SHL Vx": VF := the shifted-out high bit of Vx, then Vx is
/// shifted left by exactly one bit, wrapping. The flag is written first,
/// as in the right shift.
pub open spec fn shl_vx_vy_spec(pre: CpuView, x: int) -> CpuView {
    let flagged = pre.regs.update(15, pre.regs[x] >> 7u8);
    CpuView {
        regs: flagged.update(x, flagged[x] << 1u8),
        pc: (pre.pc + INSTR_SIZE) as usize,
        ..pre
    }
}

/// 0xAnnn "LD I, addr": the address register := nnn.
pub open spec fn ld_i_addr_spec(pre: CpuView, nnn: usize) -> CpuView {
    CpuView { i: nnn as u16, pc: (pre.pc + INSTR_SIZE) as usize, ..pre }
}

/// 0xBnnn "JP V0, addr": jump to nnn + V0, no advance.
pub open spec fn jp_v0_addr_spec(pre: CpuView, nnn: usize) -> CpuView {
    CpuView { pc: (nnn + pre.regs[0]) as usize, ..pre }
}

/// 0xCxkk "RND Vx, byte": Vx := the drawn random byte AND kk.
pub open spec fn rnd_vx_byte_spec(pre: CpuView, x: int, kk: u8, rnd: u8) -> CpuView {
    CpuView { regs: pre.regs.update(x, rnd & kk), pc: (pre.pc + INSTR_SIZE) as usize, ..pre }
}

/// 0xEx9E "SKP Vx": skip the next instruction if the key numbered by Vx is
/// pressed. Key values outside the pad never count as pressed.
pub open spec fn skp_vx_spec(pre: CpuView, x: int) -> CpuView {
    CpuView { pc: skip_pc(pre, key_pressed(pre.keys, pre.regs[x])), ..pre }
}

/// 0xExA1 "SKNP Vx": skip the next instruction if that key is not pressed.
pub open spec fn sknp_vx_spec(pre: CpuView, x: int) -> CpuView {
    CpuView { pc: skip_pc(pre, !key_pressed(pre.keys, pre.regs[x])), ..pre }
}

/// 0xFx07 "LD Vx, DT": Vx := the delay timer.
pub open spec fn ld_vx_dt_spec(pre: CpuView, x: int) -> CpuView {
    CpuView { regs: pre.regs.update(x, pre.delay), pc: (pre.pc + INSTR_SIZE) as usize, ..pre }
}

/// 0xFx15 "LD DT, Vx": the delay timer := Vx.
pub open spec fn ld_dt_vx_spec(pre: CpuView, x: int) -> CpuView {
    CpuView { delay: pre.regs[x], pc: (pre.pc + INSTR_SIZE) as usize, ..pre }
}

/// 0xFx18 "LD ST, Vx": the sound timer := Vx.
pub open spec fn ld_st_vx_spec(pre: CpuView, x: int) -> CpuView {
    CpuView { sound: pre.regs[x], pc: (pre.pc + INSTR_SIZE) as usize, ..pre }
}

/// 0xFx1E "ADD I, Vx": the address register grows by Vx, wrapping at its
/// sixteen-bit width, and VF records whether it wrapped.
pub open spec fn add_i_vx_spec(pre: CpuView, x: int) -> CpuView {
    let s = pre.i + pre.regs[x];
    CpuView {
        i: if s > 0xFFFF {
            (s - 0x10000) as u16
        } else {
            s as u16
        },
        regs: pre.regs.update(
            15,
            if s > 0xFFFF {
                1u8
            } else {
                0u8
            },
        ),
        pc: (pre.pc + INSTR_SIZE) as usize,
        ..pre
    }
}

/// 0xFx29 "LD F, Vx": the address register := the font address of digit
/// Vx, five bytes per glyph from the base of the font table.
pub open spec fn ld_f_vx_spec(pre: CpuView, x: int) -> CpuView {
    CpuView { i: (pre.regs[x] * 5) as u16, pc: (pre.pc + INSTR_SIZE) as usize, ..pre }
}

/// 0xFx0A "LD Vx, K": while no key is pressed nothing changes at all — the
/// program counter stays put and the instruction re-executes on the next
/// step. On a step where some key is pressed, the lowest pressed key index
/// lands in Vx and execution advances.
pub open spec fn ld_vx_k_spec(pre: CpuView, x: int) -> CpuView {
    match crate::keyboard::first_pressed_from(pre.keys, 0) {
        Option::None => pre,
        Option::Some(k) => CpuView {
            regs: pre.regs.update(x, k),
            pc: (pre.pc + INSTR_SIZE) as usize,
            ..pre
        },
    }
}

/// 0xFx33 "LD B, Vx": the three decimal digits of Vx (hundreds, tens,
/// ones) land in memory at the address register and the two bytes after
/// it, each address bounded to the memory range.
pub open spec fn ld_b_vx_spec(pre: CpuView, x: int) -> CpuView {
    let val = pre.regs[x];
    CpuView {
        memory: pre.memory.update(mem_at(pre.i, 0), (val / 100) as u8).update(
            mem_at(pre.i, 1),
            ((val / 10) % 10) as u8,
        ).update(mem_at(pre.i, 2), (val % 10) as u8),
        pc: (pre.pc + INSTR_SIZE) as usize,
        ..pre
    }
}

/// 0xFx55 "LD [I], Vx": registers V0 through Vx land in memory starting at
/// the address register (inclusive range), each address bounded to the
/// memory range; every other byte keeps its value.
pub open spec fn ld_i_vx_spec(pre: CpuView, x: int) -> CpuView {
    CpuView {
        memory: Seq::new(
            MEMORY_LENGTH as nat,
            |p: int|
                {
                    let off = (p - pre.i) % (MEMORY_LENGTH as int);
                    if off <= x {
                        pre.regs[off]
                    } else {
                        pre.memory[p]
                    }
                },
        ),
        pc: (pre.pc + INSTR_SIZE) as usize,
        ..pre
    }
}

/// 0xFx65 "LD Vx, [I]": registers V0 through Vx are read from memory
/// starting at the address register (inclusive range), each address
/// bounded to the memory range; every other register keeps its value.
pub open spec fn ld_vx_i_spec(pre: CpuView, x: int) -> CpuView {
    CpuView {
        regs: Seq::new(
            NUM_REGISTERS as nat,
            |r: int|
                if r <= x {
                    pre.memory[mem_at(pre.i, r)]
                } else {
                    pre.regs[r]
                },
        ),
        pc: (pre.pc + INSTR_SIZE) as usize,
        ..pre
    }
}

/// The index of the pixel at column `px` of row `py` in the frame buffer,
/// which stores the rows one after another.
pub open spec fn pixel_index(px: int, py: int) -> int {
    py * (VIRTUAL_DISPLAY_WIDTH as int) + px
}

/// Bit `k` of a sprite row, most significant bit first: bit 0 is the
/// leftmost pixel of the row.
pub open spec fn sprite_bit(row: u8, k: int) -> bool {
    row & (0x80u8 >> (k as u8)) != 0
}

/// Row `j` of the sprite that the address register points at, wrapped to
/// the memory range.
pub open spec fn sprite_row(pre: CpuView, j: int) -> u8 {
    pre.memory[mem_at(pre.i, j)]
}

/// The wrapped horizontal distance from the draw origin column Vx to the
/// column of pixel `p`.
pub open spec fn drw_dx(pre: CpuView, x: int, p: int) -> int {
    (p % (VIRTUAL_DISPLAY_WIDTH as int) - pre.regs[x]) % (VIRTUAL_DISPLAY_WIDTH as int)
}

/// The wrapped vertical distance from the draw origin row Vy to the row of
/// pixel `p`.
pub open spec fn drw_dy(pre: CpuView, y: int, p: int) -> int {
    (p / (VIRTUAL_DISPLAY_WIDTH as int) - pre.regs[y]) % (VIRTUAL_DISPLAY_HEIGHT as int)
}

/// Whether drawing an `n`-row sprite at (Vx, Vy) touches pixel `p`: the
/// pixel lies within eight wrapped columns and `n` wrapped rows of the
/// origin. Drawing wraps around both axes of the display.
pub open spec fn drw_hit(pre: CpuView, x: int, y: int, n: int, p: int) -> bool {
    drw_dx(pre, x, p) < 8 && drw_dy(pre, y, p) < n
}

/// The sprite bit that falls on pixel `p` when drawing at (Vx, Vy).
pub open spec fn drw_sprite_bit_at(pre: CpuView, x: int, y: int, p: int) -> bool {
    sprite_bit(sprite_row(pre, drw_dy(pre, y, p)), drw_dx(pre, x, p))
}

/// The frame buffer after a draw: every touched pixel is XORed with its
/// sprite bit, every other pixel keeps its value.
pub open spec fn drw_vram(pre: CpuView, x: int, y: int, n: int) -> Seq<bool> {
    Seq::new(
        (VIRTUAL_DISPLAY_WIDTH * VIRTUAL_DISPLAY_HEIGHT) as nat,
        |p: int|
            if drw_hit(pre, x, y, n, p) {
                pre.vram[p] != drw_sprite_bit_at(pre, x, y, p)
            } else {
                pre.vram[p]
            },
    )
}

/// Whether a draw collides: some touched pixel was on and its sprite bit
/// is set, so the XOR turns it off.
pub open spec fn drw_collision(pre: CpuView, x: int, y: int, n: int) -> bool {
    exists|p: int|
        0 <= p < VIRTUAL_DISPLAY_WIDTH * VIRTUAL_DISPLAY_HEIGHT && drw_hit(pre, x, y, n, p)
            && pre.vram[p] && drw_sprite_bit_at(pre, x, y, p)
}

/// 0xDxyn "DRW Vx, Vy, nibble": the n-byte sprite at the address register
/// is XORed onto the frame buffer at (Vx, Vy) with wraparound on both
/// axes, VF records whether any XOR turned an on pixel off, and the screen
/// is marked dirty.
pub open spec fn drw_vx_vy_nibble_spec(pre: CpuView, x: int, y: int, n: int) -> CpuView {
    CpuView {
        vram: drw_vram(pre, x, y, n),
        regs: pre.regs.update(
            15,
            if drw_collision(pre, x, y, n) {
                1u8
            } else {
                0u8
            },
        ),
        draw: true,
        pc: (pre.pc + INSTR_SIZE) as usize,
        ..pre
    }
}

/// Which pixels the draw loops have already toggled: the first `j` wrapped
/// rows whole, and the first `k` wrapped columns of row `j`.
pub open spec fn drw_done(pre: CpuView, x: int, y: int, j: int, k: int, p: int) -> bool {
    drw_hit(pre, x, y, j, p) || (drw_dy(pre, y, p) == j && drw_dx(pre, x, p) < k)
}

/// Wrapping an offset below the modulus and taking the offset back out
/// returns the offset: the round trip through a bounded address is exact.
pub proof fn lemma_wrap_unwrap(base: int, d: int, m: int)
    requires
        0 < m,
        0 <= base,
        0 <= d < m,
    ensures
        (((base + d) % m) - base) % m == d,
{
    let s = base + d;
    let q = s / m;
    vstd::arithmetic::div_mod::lemma_fundamental_div_mod(s, m);
    assert((s % m) - base == d - m * q);
    vstd::arithmetic::mul::lemma_mul_unary_negation(m, q);
    assert(d - m * q == m * (-q) + d);
    vstd::arithmetic::div_mod::lemma_mod_multiples_vanish(-q, d, m);
    vstd::arithmetic::div_mod::lemma_small_mod(d as nat, m as nat);
}

/// Taking an address's offset from a base and wrapping the base forward by
/// that offset lands back on the address: bounded addresses and offsets
/// determine each other.
pub proof fn lemma_unwrap_wrap(base: int, a: int, m: int)
    requires
        0 < m,
        0 <= base,
        0 <= a < m,
    ensures
        (base + ((a - base) % m)) % m == a,
{
    let q = (a - base) / m;
    vstd::arithmetic::div_mod::lemma_fundamental_div_mod(a - base, m);
    assert(base + ((a - base) % m) == a - m * q);
    vstd::arithmetic::mul::lemma_mul_unary_negation(m, q);
    assert(a - m * q == m * (-q) + a);
    vstd::arithmetic::div_mod::lemma_mod_multiples_vanish(-q, a, m);
    vstd::arithmetic::div_mod::lemma_small_mod(a as nat, m as nat);
}

/// The semantics of one decoded operation on the machine-state model: the
/// fatal error it raises, or the state after it. `rnd` is the byte the
/// random-number collaborator handed in; only the RND operation reads it.
pub open spec fn exec_op_spec(pre: CpuView, op: Operation, args: OpCodeArgs, rnd: u8) -> Result<
    CpuView,
    ExecError,
> {
    match op {
        Operation::Cls => Ok(cls_spec(pre)),
        Operation::Ret => if pre.sp == 0 {
            Err(ExecError::StackUnderflow)
        } else {
            Ok(ret_spec(pre))
        },
        Operation::JpAddr => Ok(jp_addr_spec(pre, args.nnn)),
        Operation::CallAddr => if pre.sp >= STACK_LENGTH {
            Err(ExecError::StackOverflow)
        } else {
            Ok(call_addr_spec(pre, args.nnn))
        },
        Operation::SeVxByte => Ok(se_vx_byte_spec(pre, args.x as int, args.kk)),
        Operation::SneVxByte => Ok(sne_vx_byte_spec(pre, args.x as int, args.kk)),
        Operation::SeVxVy => Ok(se_vx_vy_spec(pre, args.x as int, args.y as int)),
        Operation::LdVxByte => Ok(ld_vx_byte_spec(pre, args.x as int, args.kk)),
        Operation::AddVxByte => Ok(add_vx_byte_spec(pre, args.x as int, args.kk)),
        Operation::LdVxVy => Ok(ld_vx_vy_spec(pre, args.x as int, args.y as int)),
        Operation::OrVxVy => Ok(or_vx_vy_spec(pre, args.x as int, args.y as int)),
        Operation::AndVxVy => Ok(and_vx_vy_spec(pre, args.x as int, args.y as int)),
        Operation::XorVxVy => Ok(xor_vx_vy_spec(pre, args.x as int, args.y as int)),
        Operation::AddVxVy => Ok(add_vx_vy_spec(pre, args.x as int, args.y as int)),
        Operation::SubVxVy => Ok(sub_vx_vy_spec(pre, args.x as int, args.y as int)),
        Operation::ShrVxVy => Ok(shr_vx_vy_spec(pre, args.x as int)),
        Operation::SubnVxVy => Ok(subn_vx_vy_spec(pre, args.x as int, args.y as int)),
        Operation::ShlVxVy => Ok(shl_vx_vy_spec(pre, args.x as int)),
        Operation::SneVxVy => Ok(sne_vx_vy_spec(pre, args.x as int, args.y as int)),
        Operation::LdIAddr => Ok(ld_i_addr_spec(pre, args.nnn)),
        Operation::JpV0Addr => Ok(jp_v0_addr_spec(pre, args.nnn)),
        Operation::RndVxByte => Ok(rnd_vx_byte_spec(pre, args.x as int, args.kk, rnd)),
        Operation::DrwVxVyNibble => Ok(
            drw_vx_vy_nibble_spec(pre, args.x as int, args.y as int, args.n as int),
        ),
        Operation::SkpVx => Ok(skp_vx_spec(pre, args.x as int)),
        Operation::SknpVx => Ok(sknp_vx_spec(pre, args.x as int)),
        Operation::LdVxDt => Ok(ld_vx_dt_spec(pre, args.x as int)),
        Operation::LdVxK => Ok(ld_vx_k_spec(pre, args.x as int)),
        Operation::LdDtVx => Ok(ld_dt_vx_spec(pre, args.x as int)),
        Operation::LdStVx => Ok(ld_st_vx_spec(pre, args.x as int)),
        Operation::AddIVx => Ok(add_i_vx_spec(pre, args.x as int)),
        Operation::LdFVx => Ok(ld_f_vx_spec(pre, args.x as int)),
        Operation::LdBVx => Ok(ld_b_vx_spec(pre, args.x as int)),
        Operation::LdIVx => Ok(ld_i_vx_spec(pre, args.x as int)),
        Operation::LdVxI => Ok(ld_vx_i_spec(pre, args.x as int)),
    }
}

/// The immediate add and the register-to-register ALU operations never
/// raise a fatal error: whatever the operands, their semantics is total
/// and wraps modulo 256 where it overflows.
pub proof fn lemma_alu_never_fatal(pre: CpuView, op: Operation, args: OpCodeArgs, rnd: u8)
    requires
        op == Operation::AddVxByte || op == Operation::LdVxVy || op == Operation::OrVxVy || op
            == Operation::AndVxVy || op == Operation::XorVxVy || op == Operation::AddVxVy || op
            == Operation::SubVxVy || op == Operation::ShrVxVy || op == Operation::SubnVxVy || op
            == Operation::ShlVxVy,
    ensures
        exec_op_spec(pre, op, args, rnd) is Ok,
{
}

/// The wait-for-key stall law: on a step where no key at all is pressed,
/// the instruction changes nothing — in particular the program counter
/// does not advance, so the instruction re-executes on every such step.
pub proof fn lemma_wait_for_key_stalls(pre: CpuView, x: int)
    requires
        forall|j: int| 0 <= j < 16 ==> !pre.keys[j],
    ensures
        ld_vx_k_spec(pre, x) == pre,
{
    crate::keyboard::lemma_first_pressed_from(pre.keys, 0);
}

/// The wait-for-key advance law: on a step where `k` is the lowest pressed
/// key, the instruction stores exactly `k` in Vx and advances the program
/// counter exactly one instruction.
pub proof fn lemma_wait_for_key_pressed(pre: CpuView, x: int, k: u8)
    requires
        k < 16,
        pre.keys[k as int],
        forall|j: int| 0 <= j < k ==> !pre.keys[j],
    ensures
        ld_vx_k_spec(pre, x) == (CpuView {
            regs: pre.regs.update(x, k),
            pc: (pre.pc + INSTR_SIZE) as usize,
            ..pre
        }),
{
    crate::keyboard::lemma_first_pressed_from(pre.keys, 0);
    let r = crate::keyboard::first_pressed_from(pre.keys, 0);
    assert(r is Some);
    let f = r->Some_0;
    assert(pre.keys[f as int]);
    assert(!(f < k)) by {
        if f < k {
            assert(!pre.keys[f as int]);
        }
    }
    assert(!(k < f)) by {
        if k < f {
            assert(!pre.keys[k as int]);
        }
    }
}

/// The draw collision law: drawing any sprite onto a clear screen reports
/// no collision, and drawing the same sprite again right away turns every
/// touched pixel back off — the screen is clear again — and reports a
/// collision exactly when the sprite put any pixel on the screen at all.
pub proof fn lemma_draw_twice_round_trip(pre: CpuView, x: int, y: int, n: int)
    requires
        pre.vram.len() == VIRTUAL_DISPLAY_WIDTH * VIRTUAL_DISPLAY_HEIGHT,
        pre.regs.len() == NUM_REGISTERS,
        0 <= x < 16,
        x != 15,
        0 <= y < 16,
        y != 15,
        0 <= n < 16,
        forall|p: int| 0 <= p < VIRTUAL_DISPLAY_WIDTH * VIRTUAL_DISPLAY_HEIGHT ==> !pre.vram[p],
    ensures
        drw_vx_vy_nibble_spec(pre, x, y, n).regs[15] == 0,
        ({
            let once = drw_vx_vy_nibble_spec(pre, x, y, n);
            let twice = drw_vx_vy_nibble_spec(once, x, y, n);
            &&& twice.vram =~= pre.vram
            &&& (twice.regs[15] == 1 <==> exists|p: int|
                0 <= p < VIRTUAL_DISPLAY_WIDTH * VIRTUAL_DISPLAY_HEIGHT && drw_hit(pre, x, y, n, p)
                    && drw_sprite_bit_at(pre, x, y, p))
            &&& (twice.regs[15] == 0 || twice.regs[15] == 1)
        }),
{
    let w = VIRTUAL_DISPLAY_WIDTH * VIRTUAL_DISPLAY_HEIGHT;
    let once = drw_vx_vy_nibble_spec(pre, x, y, n);
    let twice = drw_vx_vy_nibble_spec(once, x, y, n);
    assert(!drw_collision(pre, x, y, n));
    assert(once.regs[x] == pre.regs[x] && once.regs[y] == pre.regs[y]);
    assert forall|p: int| 0 <= p < w implies drw_hit(once, x, y, n, p) == drw_hit(pre, x, y, n, p)
        && drw_sprite_bit_at(once, x, y, p) == drw_sprite_bit_at(pre, x, y, p) by {
        assert(drw_dx(once, x, p) == drw_dx(pre, x, p));
        assert(drw_dy(once, y, p) == drw_dy(pre, y, p));
        assert(sprite_row(once, drw_dy(pre, y, p)) == sprite_row(pre, drw_dy(pre, y, p)));
    }
    assert forall|p: int| 0 <= p < w implies twice.vram[p] == pre.vram[p] by {
        if drw_hit(pre, x, y, n, p) {
            assert(once.vram[p] == (false != drw_sprite_bit_at(pre, x, y, p)));
        }
    }
    if twice.regs[15] == 1 {
        assert(drw_collision(once, x, y, n));
        let p0 = choose|p: int|
            0 <= p < w && drw_hit(once, x, y, n, p) && once.vram[p] && drw_sprite_bit_at(
                once,
                x,
                y,
                p,
            );
        assert(drw_hit(pre, x, y, n, p0) && drw_sprite_bit_at(pre, x, y, p0));
    }
    if exists|p: int| 0 <= p < w && drw_hit(pre, x, y, n, p) && drw_sprite_bit_at(pre, x, y, p) {
        let p0 = choose|p: int|
            0 <= p < w && drw_hit(pre, x, y, n, p) && drw_sprite_bit_at(pre, x, y, p);
        assert(once.vram[p0] == (false != drw_sprite_bit_at(pre, x, y, p0)));
        assert(drw_hit(once, x, y, n, p0) && once.vram[p0] && drw_sprite_bit_at(once, x, y, p0));
        assert(drw_collision(once, x, y, n));
    }
}

/// Every operation except RND ignores the random byte: the machine is
/// deterministic whenever the instruction is not the random one.
pub proof fn lemma_exec_op_rnd_irrelevant(
    pre: CpuView,
    op: Operation,
    args: OpCodeArgs,
    r1: u8,
    r2: u8,
)
    requires
        op != Operation::RndVxByte,
    ensures
        exec_op_spec(pre, op, args, r1) == exec_op_spec(pre, op, args, r2),
{
}

/// Represents a decoded instruction: the raw opcode value read from memory,
/// its extracted argument fields, and the operation it names.
#[derive(Debug, Copy, Clone, PartialEq, Eq, Structural)]
pub struct OpCode {
    pub opcode: u16,
    pub args: OpCodeArgs,
    pub operation: Operation,
}

impl OpCode {
    /// Construct a new OpCode given its u16 opcode, its argument fields and
    /// its operation.
    pub fn new(opcode: u16, args: OpCodeArgs, operation: Operation) -> (o: OpCode)
        ensures
            o.opcode == opcode,
            o.args == args,
            o.operation == operation,
    {
        OpCode { opcode, args, operation }
    }

    /// Constructs a new OpCode object given a u16 opcode value, or `None` if
    /// the value matches no dispatch entry.
    pub fn from_u16(opcode: u16) -> (r: Option<OpCode>)
        ensures
            r is Some <==> spec_decode(opcode) is Some,
            r matches Some(o) ==> o.opcode == opcode && o.args == spec_args(opcode)
                && spec_decode(opcode) == Some(o.operation) && args_wf(o.args),
    {
        // get the opcode arguments and the first nibble then go
        // down our lookups to determine which opcode this is
        let category = opcode & 0xF000;
        let args = OpCodeArgs::from_u16(opcode);

        if category == 0x0000 {
            if opcode == 0x00E0 {
                Some(OpCode::new(opcode, args, Operation::Cls))
            } else if opcode == 0x00EE {
                Some(OpCode::new(opcode, args, Operation::Ret))
            } else {
                None
            }
        } else if category == 0x1000 {
            Some(OpCode::new(opcode, args, Operation::JpAddr))
        } else if category == 0x2000 {
            Some(OpCode::new(opcode, args, Operation::CallAddr))
        } else if category == 0x3000 {
            Some(OpCode::new(opcode, args, Operation::SeVxByte))
        } else if category == 0x4000 {
            Some(OpCode::new(opcode, args, Operation::SneVxByte))
        } else if category == 0x5000 {
            Some(OpCode::new(opcode, args, Operation::SeVxVy))
        } else if category == 0x6000 {
            Some(OpCode::new(opcode, args, Operation::LdVxByte))
        } else if category == 0x7000 {
            Some(OpCode::new(opcode, args, Operation::AddVxByte))
        } else if category == 0x8000 {
            if args.n == 0x0 {
                Some(OpCode::new(opcode, args, Operation::LdVxVy))
            } else if args.n == 0x1 {
                Some(OpCode::new(opcode, args, Operation::OrVxVy))
            } else if args.n == 0x2 {
                Some(OpCode::new(opcode, args, Operation::AndVxVy))
            } else if args.n == 0x3 {
                Some(OpCode::new(opcode, args, Operation::XorVxVy))
            } else if args.n == 0x4 {
                Some(OpCode::new(opcode, args, Operation::AddVxVy))
            } else if args.n == 0x5 {
                Some(OpCode::new(opcode, args, Operation::SubVxVy))
            } else if args.n == 0x6 {
                Some(OpCode::new(opcode, args, Operation::ShrVxVy))
            } else if args.n == 0x7 {
                Some(OpCode::new(opcode, args, Operation::SubnVxVy))
            } else if args.n == 0xE {
                Some(OpCode::new(opcode, args, Operation::ShlVxVy))
            } else {
                None
            }
        } else if category == 0x9000 {
            if args.n == 0x0 {
                Some(OpCode::new(opcode, args, Operation::SneVxVy))
            } else {
                None
            }
        } else if category == 0xA000 {
            Some(OpCode::new(opcode, args, Operation::LdIAddr))
        } else if category == 0xB000 {
            Some(OpCode::new(opcode, args, Operation::JpV0Addr))
        } else if category == 0xC000 {
            Some(OpCode::new(opcode, args, Operation::RndVxByte))
        } else if category == 0xD000 {
            Some(OpCode::new(opcode, args, Operation::DrwVxVyNibble))
        } else if category == 0xE000 {
            if args.kk == 0x9E {
                Some(OpCode::new(opcode, args, Operation::SkpVx))
            } else if args.kk == 0xA1 {
                Some(OpCode::new(opcode, args, Operation::SknpVx))
            } else {
                None
            }
        } else if category == 0xF000 {
            if args.kk == 0x07 {
                Some(OpCode::new(opcode, args, Operation::LdVxDt))
            } else if args.kk == 0x0A {
                Some(OpCode::new(opcode, args, Operation::LdVxK))
            } else if args.kk == 0x15 {
                Some(OpCode::new(opcode, args, Operation::LdDtVx))
            } else if args.kk == 0x18 {
                Some(OpCode::new(opcode, args, Operation::LdStVx))
            } else if args.kk == 0x1E {
                Some(OpCode::new(opcode, args, Operation::AddIVx))
            } else if args.kk == 0x29 {
                Some(OpCode::new(opcode, args, Operation::LdFVx))
            } else if args.kk == 0x33 {
                Some(OpCode::new(opcode, args, Operation::LdBVx))
            } else if args.kk == 0x55 {
                Some(OpCode::new(opcode, args, Operation::LdIVx))
            } else if args.kk == 0x65 {
                Some(OpCode::new(opcode, args, Operation::LdVxI))
            } else {
                None
            }
        } else {
            None
        }
    }

    // -------------------------------------------------------------
    // Below are the implementations for each of the opcodes. The
    // execution engine dispatches to these after decoding, and each
    // is proved against its transition function above.
    // -------------------------------------------------------------

    /// 0x00E0
    /// "CLS" opcode. Clears the display.
    pub fn opcode_cls(_args: &OpCodeArgs, cpu: &mut Cpu)
        requires
            old(cpu).wf(),
            in_program(old(cpu)@),
        ensures
            final(cpu).wf(),
            final(cpu)@ == cls_spec(old(cpu)@),
    {
        cpu.vram = crate::filled_vec(VIRTUAL_DISPLAY_WIDTH * VIRTUAL_DISPLAY_HEIGHT, false);
        cpu.draw_flag = true;

        cpu.program_counter = cpu.program_counter + INSTR_SIZE;
        proof {
            assert(cpu@ =~= cls_spec(old(cpu)@));
        }
    }

    /// 0x00EE
    /// "RET" opcode. Returns from a subroutine. Fails with a stack
    /// underflow exactly when nothing was pushed.
    pub fn opcode_ret(_args: &OpCodeArgs, cpu: &mut Cpu) -> (r: Result<(), ExecError>)
        requires
            old(cpu).wf(),
            in_program(old(cpu)@),
        ensures
            final(cpu).wf(),
            old(cpu)@.sp == 0 ==> r == Err::<(), ExecError>(ExecError::StackUnderflow)
                && final(cpu)@ == old(cpu)@,
            old(cpu)@.sp > 0 ==> r == Ok::<(), ExecError>(())
                && final(cpu)@ == ret_spec(old(cpu)@),
    {
        // check the stack bounds
        if cpu.stack_pointer == 0 {
            return Err(ExecError::StackUnderflow);
        }

        cpu.stack_pointer = cpu.stack_pointer - 1;
        cpu.program_counter = cpu.stack[cpu.stack_pointer] + INSTR_SIZE;
        Ok(())
    }

    /// 0x1nnn
    /// "JP addr" opcode. Jumps to a specified address.
    pub fn opcode_jp_addr(args: &OpCodeArgs, cpu: &mut Cpu)
        requires
            old(cpu).wf(),
            args_wf(*args),
            in_program(old(cpu)@),
        ensures
            final(cpu).wf(),
            final(cpu)@ == jp_addr_spec(old(cpu)@, args.nnn),
    {
        cpu.program_counter = args.nnn;
    }

    /// 0x2nnn
    /// "CALL addr" opcode. Calls the subroutine at the given address. Fails
    /// with a stack overflow exactly when the stack is already full.
    pub fn opcode_call_addr(args: &OpCodeArgs, cpu: &mut Cpu) -> (r: Result<(), ExecError>)
        requires
            old(cpu).wf(),
            args_wf(*args),
            in_program(old(cpu)@),
        ensures
            final(cpu).wf(),
            old(cpu)@.sp == STACK_LENGTH ==> r == Err::<(), ExecError>(ExecError::StackOverflow)
                && final(cpu)@ == old(cpu)@,
            old(cpu)@.sp < STACK_LENGTH ==> r == Ok::<(), ExecError>(()) && final(cpu)@
                == call_addr_spec(old(cpu)@, args.nnn),
    {
        if cpu.stack_pointer >= STACK_LENGTH {
            return Err(ExecError::StackOverflow);
        }

        cpu.stack[cpu.stack_pointer] = cpu.program_counter;
        cpu.stack_pointer = cpu.stack_pointer + 1;
        cpu.program_counter = args.nnn;
        Ok(())
    }

    /// 0x3xkk
    /// "SE Vx, byte" opcode. Skip next instruction if Vx = kk.
    pub fn opcode_se_vx_byte(args: &OpCodeArgs, cpu: &mut Cpu)
        requires
            old(cpu).wf(),
            args_wf(*args),
            in_program(old(cpu)@),
        ensures
            final(cpu).wf(),
            final(cpu)@ == se_vx_byte_spec(old(cpu)@, args.x as int, args.kk),
    {
        if cpu.data_registers[args.x] == args.kk {
            cpu.program_counter = cpu.program_counter + INSTR_SIZE;
        }

        cpu.program_counter = cpu.program_counter + INSTR_SIZE;
    }

    /// 0x4xkk
    /// "SNE Vx, byte" opcode. Skip next instruction if Vx != kk.
    pub fn opcode_sne_vx_byte(args: &OpCodeArgs, cpu: &mut Cpu)
        requires
            old(cpu).wf(),
            args_wf(*args),
            in_program(old(cpu)@),
        ensures
            final(cpu).wf(),
            final(cpu)@ == sne_vx_byte_spec(old(cpu)@, args.x as int, args.kk),
    {
        if cpu.data_registers[args.x] != args.kk {
            cpu.program_counter = cpu.program_counter + INSTR_SIZE;
        }

        cpu.program_counter = cpu.program_counter + INSTR_SIZE;
    }

    /// 0x5xy0
    /// "SE Vx, Vy" opcode. Skip next instruction if Vx = Vy.
    pub fn opcode_se_vx_vy(args: &OpCodeArgs, cpu: &mut Cpu)
        requires
            old(cpu).wf(),
            args_wf(*args),
            in_program(old(cpu)@),
        ensures
            final(cpu).wf(),
            final(cpu)@ == se_vx_vy_spec(old(cpu)@, args.x as int, args.y as int),
    {
        if cpu.data_registers[args.x] == cpu.data_registers[args.y] {
            cpu.program_counter = cpu.program_counter + INSTR_SIZE;
        }

        cpu.program_counter = cpu.program_counter + INSTR_SIZE;
    }

    /// 0x6xkk
    /// "LD Vx, byte" opcode. Set Vx = kk.
    pub fn opcode_ld_vx_byte(args: &OpCodeArgs, cpu: &mut Cpu)
        requires
            old(cpu).wf(),
            args_wf(*args),
            in_program(old(cpu)@),
        ensures
            final(cpu).wf(),
            final(cpu)@ == ld_vx_byte_spec(old(cpu)@, args.x as int, args.kk),
    {
        cpu.data_registers[args.x] = args.kk;

        cpu.program_counter = cpu.program_counter + INSTR_SIZE;
    }

    /// 0x7xkk
    /// "ADD Vx, byte" opcode. Set Vx = Vx + kk, wrapping modulo 256, with
    /// no flag side effect and no fatal condition on overflow.
    pub fn opcode_add_vx_byte(args: &OpCodeArgs, cpu: &mut Cpu)
        requires
            old(cpu).wf(),
            args_wf(*args),
            in_program(old(cpu)@),
        ensures
            final(cpu).wf(),
            final(cpu)@ == add_vx_byte_spec(old(cpu)@, args.x as int, args.kk),
    {
        let sum: u16 = (cpu.data_registers[args.x] as u16) + (args.kk as u16);
        let value: u8 = if sum > 255 {
            (sum - 256) as u8
        } else {
            sum as u8
        };
        cpu.data_registers[args.x] = value;

        cpu.program_counter = cpu.program_counter + INSTR_SIZE;
    }

    /// 0x8xy0
    /// "LD Vx, Vy" opcode. Set Vx = Vy.
    pub fn opcode_ld_vx_vy(args: &OpCodeArgs, cpu: &mut Cpu)
        requires
            old(cpu).wf(),
            args_wf(*args),
            in_program(old(cpu)@),
        ensures
            final(cpu).wf(),
            final(cpu)@ == ld_vx_vy_spec(old(cpu)@, args.x as int, args.y as int),
    {
        let value = cpu.data_registers[args.y];
        cpu.data_registers[args.x] = value;

        cpu.program_counter = cpu.program_counter + INSTR_SIZE;
    }

    /// 0x8xy1
    /// "OR Vx, Vy" opcode. Set Vx = Vx OR Vy.
    pub fn opcode_or_vx_vy(args: &OpCodeArgs, cpu: &mut Cpu)
        requires
            old(cpu).wf(),
            args_wf(*args),
            in_program(old(cpu)@),
        ensures
            final(cpu).wf(),
            final(cpu)@ == or_vx_vy_spec(old(cpu)@, args.x as int, args.y as int),
    {
        let value = cpu.data_registers[args.x] | cpu.data_registers[args.y];
        cpu.data_registers[args.x] = value;

        cpu.program_counter = cpu.program_counter + INSTR_SIZE;
    }

    /// 0x8xy2
    /// "AND Vx, Vy" opcode. Set Vx = Vx AND Vy.
    pub fn opcode_and_vx_vy(args: &OpCodeArgs, cpu: &mut Cpu)
        requires
            old(cpu).wf(),
            args_wf(*args),
            in_program(old(cpu)@),
        ensures
            final(cpu).wf(),
            final(cpu)@ == and_vx_vy_spec(old(cpu)@, args.x as int, args.y as int),
    {
        let value = cpu.data_registers[args.x] & cpu.data_registers[args.y];
        cpu.data_registers[args.x] = value;

        cpu.program_counter = cpu.program_counter + INSTR_SIZE;
    }

    /// 0x8xy3
    /// "XOR Vx, Vy" opcode. Set Vx = Vx XOR Vy.
    pub fn opcode_xor_vx_vy(args: &OpCodeArgs, cpu: &mut Cpu)
        requires
            old(cpu).wf(),
            args_wf(*args),
            in_program(old(cpu)@),
        ensures
            final(cpu).wf(),
            final(cpu)@ == xor_vx_vy_spec(old(cpu)@, args.x as int, args.y as int),
    {
        let value = cpu.data_registers[args.x] ^ cpu.data_registers[args.y];
        cpu.data_registers[args.x] = value;

        cpu.program_counter = cpu.program_counter + INSTR_SIZE;
    }

    /// 0x8xy4
    /// "ADD Vx, Vy" opcode. Set Vx = Vx + Vy wrapping, set VF = carry.
    pub fn opcode_add_vx_vy(args: &OpCodeArgs, cpu: &mut Cpu)
        requires
            old(cpu).wf(),
            args_wf(*args),
            in_program(old(cpu)@),
        ensures
            final(cpu).wf(),
            final(cpu)@ == add_vx_vy_spec(old(cpu)@, args.x as int, args.y as int),
    {
        let sum: u16 = (cpu.data_registers[args.x] as u16) + (cpu.data_registers[args.y] as u16);
        let value: u8 = if sum > 255 {
            (sum - 256) as u8
        } else {
            sum as u8
        };
        let flag: u8 = if sum > 255 {
            1
        } else {
            0
        };
        cpu.data_registers[args.x] = value;
        cpu.data_registers[0xF] = flag;

        cpu.program_counter = cpu.program_counter + INSTR_SIZE;
    }

    /// 0x8xy5
    /// "SUB Vx, Vy" opcode. Set Vx = Vx - Vy wrapping, set VF = NOT borrow.
    pub fn opcode_sub_vx_vy(args: &OpCodeArgs, cpu: &mut Cpu)
        requires
            old(cpu).wf(),
            args_wf(*args),
            in_program(old(cpu)@),
        ensures
            final(cpu).wf(),
            final(cpu)@ == sub_vx_vy_spec(old(cpu)@, args.x as int, args.y as int),
    {
        let a = cpu.data_registers[args.x];
        let b = cpu.data_registers[args.y];
        let value: u8 = if a >= b {
            a - b
        } else {
            ((a as u16) + 256 - (b as u16)) as u8
        };
        let flag: u8 = if a >= b {
            1
        } else {
            0
        };
        cpu.data_registers[args.x] = value;
        cpu.data_registers[0xF] = flag;

        cpu.program_counter = cpu.program_counter + INSTR_SIZE;
    }

    /// 0x8xy6
    /// "SHR Vx {, Vy}" opcode. Set VF = the low bit of Vx, then Vx = Vx SHR 1.
    pub fn opcode_shr_vx_vy(args: &OpCodeArgs, cpu: &mut Cpu)
        requires
            old(cpu).wf(),
            args_wf(*args),
            in_program(old(cpu)@),
        ensures
            final(cpu).wf(),
            final(cpu)@ == shr_vx_vy_spec(old(cpu)@, args.x as int),
    {
        let flag = cpu.data_registers[args.x] & 0x1;
        cpu.data_registers[0xF] = flag;
        let value = cpu.data_registers[args.x];
        cpu.data_registers[args.x] = value >> 1u8;

        cpu.program_counter = cpu.program_counter + INSTR_SIZE;
    }

    /// 0x8xy7
    /// "SUBN Vx, Vy" opcode. Set Vx = Vy - Vx wrapping, set VF = NOT borrow.
    pub fn opcode_subn_vx_vy(args: &OpCodeArgs, cpu: &mut Cpu)
        requires
            old(cpu).wf(),
            args_wf(*args),
            in_program(old(cpu)@),
        ensures
            final(cpu).wf(),
            final(cpu)@ == subn_vx_vy_spec(old(cpu)@, args.x as int, args.y as int),
    {
        let a = cpu.data_registers[args.y];
        let b = cpu.data_registers[args.x];
        let value: u8 = if a >= b {
            a - b
        } else {
            ((a as u16) + 256 - (b as u16)) as u8
        };
        let flag: u8 = if a >= b {
            1
        } else {
            0
        };
        cpu.data_registers[args.x] = value;
        cpu.data_registers[0xF] = flag;

        cpu.program_counter = cpu.program_counter + INSTR_SIZE;
    }

    /// 0x8xyE
    /// "SHL Vx {, Vy}" opcode. Set VF = the high bit of Vx, then Vx = Vx SHL 1.
    pub fn opcode_shl_vx_vy(args: &OpCodeArgs, cpu: &mut Cpu)
        requires
            old(cpu).wf(),
            args_wf(*args),
            in_program(old(cpu)@),
        ensures
            final(cpu).wf(),
            final(cpu)@ == shl_vx_vy_spec(old(cpu)@, args.x as int),
    {
        let flag = cpu.data_registers[args.x] >> 7u8;
        cpu.data_registers[0xF] = flag;
        let value = cpu.data_registers[args.x];
        cpu.data_registers[args.x] = value << 1u8;

        cpu.program_counter = cpu.program_counter + INSTR_SIZE;
    }

    /// 0x9xy0
    /// "SNE Vx, Vy" opcode. Skip next instruction if Vx != Vy.
    pub fn opcode_sne_vx_vy(args: &OpCodeArgs, cpu: &mut Cpu)
        requires
            old(cpu).wf(),
            args_wf(*args),
            in_program(old(cpu)@),
        ensures
            final(cpu).wf(),
            final(cpu)@ == sne_vx_vy_spec(old(cpu)@, args.x as int, args.y as int),
    {
        if cpu.data_registers[args.x] != cpu.data_registers[args.y] {
            cpu.program_counter = cpu.program_counter + INSTR_SIZE;
        }

        cpu.program_counter = cpu.program_counter + INSTR_SIZE;
    }

    /// 0xAnnn
    /// "LD I, addr" opcode. Set I = nnn.
    pub fn opcode_ld_i_addr(args: &OpCodeArgs, cpu: &mut Cpu)
        requires
            old(cpu).wf(),
            args_wf(*args),
            in_program(old(cpu)@),
        ensures
            final(cpu).wf(),
            final(cpu)@ == ld_i_addr_spec(old(cpu)@, args.nnn),
    {
        cpu.i_register = args.nnn as u16;

        cpu.program_counter = cpu.program_counter + INSTR_SIZE;
    }

    /// 0xBnnn
    /// "JP V0, addr" opcode. Jump to location nnn + V0.
    pub fn opcode_jp_v0_addr(args: &OpCodeArgs, cpu: &mut Cpu)
        requires
            old(cpu).wf(),
            args_wf(*args),
            in_program(old(cpu)@),
        ensures
            final(cpu).wf(),
            final(cpu)@ == jp_v0_addr_spec(old(cpu)@, args.nnn),
    {
        cpu.program_counter = args.nnn + (cpu.data_registers[0x0] as usize);
    }

    /// 0xCxkk
    /// "RND Vx, byte" opcode. Set Vx = the given random byte AND kk. The
    /// engine hands in the byte it drew; the masking is exact for every
    /// value the draw can produce.
    pub fn opcode_rnd_vx_byte(args: &OpCodeArgs, cpu: &mut Cpu, random_byte: u8)
        requires
            old(cpu).wf(),
            args_wf(*args),
            in_program(old(cpu)@),
        ensures
            final(cpu).wf(),
            final(cpu)@ == rnd_vx_byte_spec(old(cpu)@, args.x as int, args.kk, random_byte),
    {
        cpu.data_registers[args.x] = random_byte & args.kk;

        cpu.program_counter = cpu.program_counter + INSTR_SIZE;
    }

    /// 0xDxyn
    /// "DRW Vx, Vy, nibble" opcode. Display n-byte sprite starting at
    /// memory location I at (Vx, Vy) with wraparound on both axes, set
    /// VF = collision.
    pub fn opcode_drw_vx_vy_nibble(args: &OpCodeArgs, cpu: &mut Cpu)
        requires
            old(cpu).wf(),
            args_wf(*args),
            in_program(old(cpu)@),
        ensures
            final(cpu).wf(),
            final(cpu)@ == drw_vx_vy_nibble_spec(
                old(cpu)@,
                args.x as int,
                args.y as int,
                args.n as int,
            ),
    {
        let ghost pre = old(cpu)@;
        let ghost xg = args.x as int;
        let ghost yg = args.y as int;
        let vx = cpu.data_registers[args.x] as usize;
        let vy = cpu.data_registers[args.y] as usize;
        let n = args.n as usize;
        let mut collision: u8 = 0;
        let mut j: usize = 0;
        while j < n
            invariant
                view_wf(pre),
                args_wf(*args),
                xg == args.x as int,
                yg == args.y as int,
                vx == pre.regs[xg],
                vy == pre.regs[yg],
                n == args.n,
                j <= n,
                cpu@ == (CpuView { vram: cpu@.vram, ..pre }),
                cpu@.vram.len() == VIRTUAL_DISPLAY_WIDTH * VIRTUAL_DISPLAY_HEIGHT,
                forall|p: int|
                    0 <= p < VIRTUAL_DISPLAY_WIDTH * VIRTUAL_DISPLAY_HEIGHT ==> cpu@.vram[p] == (
                    if drw_done(pre, xg, yg, j as int, 0, p) {
                        pre.vram[p] != drw_sprite_bit_at(pre, xg, yg, p)
                    } else {
                        pre.vram[p]
                    }),
                collision == 0 || collision == 1,
                collision == 1 <==> exists|p: int|
                    0 <= p < VIRTUAL_DISPLAY_WIDTH * VIRTUAL_DISPLAY_HEIGHT && drw_done(
                        pre,
                        xg,
                        yg,
                        j as int,
                        0,
                        p,
                    ) && pre.vram[p] && drw_sprite_bit_at(pre, xg, yg, p),
            decreases n - j,
        {
            let row = cpu.memory[(cpu.i_register as usize + j) % MEMORY_LENGTH];
            let py = (vy + j) % VIRTUAL_DISPLAY_HEIGHT;
            proof {
                assert(row == sprite_row(pre, j as int));
            }
            let mut k: usize = 0;
            while k < 8
                invariant
                    view_wf(pre),
                    args_wf(*args),
                    xg == args.x as int,
                    yg == args.y as int,
                    vx == pre.regs[xg],
                    vy == pre.regs[yg],
                    n == args.n,
                    j < n,
                    k <= 8,
                    row == sprite_row(pre, j as int),
                    py as int == (vy + j) % (VIRTUAL_DISPLAY_HEIGHT as int),
                    cpu@ == (CpuView { vram: cpu@.vram, ..pre }),
                    cpu@.vram.len() == VIRTUAL_DISPLAY_WIDTH * VIRTUAL_DISPLAY_HEIGHT,
                    forall|p: int|
                        0 <= p < VIRTUAL_DISPLAY_WIDTH * VIRTUAL_DISPLAY_HEIGHT ==> cpu@.vram[p]
                            == (if drw_done(pre, xg, yg, j as int, k as int, p) {
                            pre.vram[p] != drw_sprite_bit_at(pre, xg, yg, p)
                        } else {
                            pre.vram[p]
                        }),
                    collision == 0 || collision == 1,
                    collision == 1 <==> exists|p: int|
                        0 <= p < VIRTUAL_DISPLAY_WIDTH * VIRTUAL_DISPLAY_HEIGHT && drw_done(
                            pre,
                            xg,
                            yg,
                            j as int,
                            k as int,
                            p,
                        ) && pre.vram[p] && drw_sprite_bit_at(pre, xg, yg, p),
                decreases 8 - k,
            {
                let bit = (row & (0x80u8 >> (k as u8))) != 0;
                let px = (vx + k) % VIRTUAL_DISPLAY_WIDTH;
                let idx = py * VIRTUAL_DISPLAY_WIDTH + px;
                proof {
                    vstd::arithmetic::div_mod::lemma_fundamental_div_mod_converse(
                        idx as int,
                        VIRTUAL_DISPLAY_WIDTH as int,
                        py as int,
                        px as int,
                    );
                    lemma_wrap_unwrap(vx as int, k as int, VIRTUAL_DISPLAY_WIDTH as int);
                    lemma_wrap_unwrap(vy as int, j as int, VIRTUAL_DISPLAY_HEIGHT as int);
                    assert(drw_dx(pre, xg, idx as int) == k as int);
                    assert(drw_dy(pre, yg, idx as int) == j as int);
                    assert(!drw_done(pre, xg, yg, j as int, k as int, idx as int));
                    assert(bit == drw_sprite_bit_at(pre, xg, yg, idx as int));
                    assert forall|p: int|
                        0 <= p < VIRTUAL_DISPLAY_WIDTH * VIRTUAL_DISPLAY_HEIGHT && drw_dy(
                            pre,
                            yg,
                            p,
                        ) == j as int && drw_dx(pre, xg, p) == k as int implies p
                        == idx as int by {
                        lemma_unwrap_wrap(
                            vx as int,
                            p % (VIRTUAL_DISPLAY_WIDTH as int),
                            VIRTUAL_DISPLAY_WIDTH as int,
                        );
                        lemma_unwrap_wrap(
                            vy as int,
                            p / (VIRTUAL_DISPLAY_WIDTH as int),
                            VIRTUAL_DISPLAY_HEIGHT as int,
                        );
                        vstd::arithmetic::div_mod::lemma_fundamental_div_mod(
                            p,
                            VIRTUAL_DISPLAY_WIDTH as int,
                        );
                    }
                }
                let cur = cpu.vram[idx];
                if cur && bit {
                    collision = 1;
                }
                cpu.vram[idx] = cur ^ bit;
                proof {
                    let w = (VIRTUAL_DISPLAY_WIDTH * VIRTUAL_DISPLAY_HEIGHT) as int;
                    if collision == 1 {
                        if cur && bit {
                            assert(idx < VIRTUAL_DISPLAY_WIDTH * VIRTUAL_DISPLAY_HEIGHT);
                            assert(drw_done(pre, xg, yg, j as int, k as int + 1, idx as int)
                                && pre.vram[idx as int] && drw_sprite_bit_at(
                                pre,
                                xg,
                                yg,
                                idx as int,
                            ));
                        } else {
                            let p0 = choose|p: int|
                                0 <= p < w && drw_done(pre, xg, yg, j as int, k as int, p)
                                    && pre.vram[p] && drw_sprite_bit_at(pre, xg, yg, p);
                            assert(drw_done(pre, xg, yg, j as int, k as int + 1, p0));
                        }
                    } else {
                        assert forall|p: int|
                            0 <= p < w && drw_done(pre, xg, yg, j as int, k as int + 1, p)
                                && pre.vram[p] implies !drw_sprite_bit_at(pre, xg, yg, p) by {
                            if !drw_done(pre, xg, yg, j as int, k as int, p) {
                                assert(drw_dy(pre, yg, p) == j as int && drw_dx(pre, xg, p)
                                    == k as int);
                                assert(p == idx as int);
                            }
                        }
                    }
                }
                k = k + 1;
            }
            j = j + 1;
        }
        cpu.data_registers[0xF] = collision;
        cpu.draw_flag = true;

        cpu.program_counter = cpu.program_counter + INSTR_SIZE;
        proof {
            assert(cpu@.vram =~= drw_vram(pre, xg, yg, args.n as int));
            assert(cpu@ =~= drw_vx_vy_nibble_spec(pre, xg, yg, args.n as int));
        }
    }

    /// 0xEx9E
    /// "SKP Vx" opcode. Skip next instruction if key with the value of Vx is pressed.
    pub fn opcode_skp_vx(args: &OpCodeArgs, cpu: &mut Cpu)
        requires
            old(cpu).wf(),
            args_wf(*args),
            in_program(old(cpu)@),
        ensures
            final(cpu).wf(),
            final(cpu)@ == skp_vx_spec(old(cpu)@, args.x as int),
    {
        if cpu.keyboard.is_pressed(cpu.data_registers[args.x]) {
            cpu.program_counter = cpu.program_counter + INSTR_SIZE;
        }

        cpu.program_counter = cpu.program_counter + INSTR_SIZE;
    }

    /// 0xExA1
    /// "SKNP Vx" opcode. Skip next instruction if key with the value of Vx is not pressed.
    pub fn opcode_sknp_vx(args: &OpCodeArgs, cpu: &mut Cpu)
        requires
            old(cpu).wf(),
            args_wf(*args),
            in_program(old(cpu)@),
        ensures
            final(cpu).wf(),
            final(cpu)@ == sknp_vx_spec(old(cpu)@, args.x as int),
    {
        if !cpu.keyboard.is_pressed(cpu.data_registers[args.x]) {
            cpu.program_counter = cpu.program_counter + INSTR_SIZE;
        }

        cpu.program_counter = cpu.program_counter + INSTR_SIZE;
    }

    /// 0xFx07
    /// "LD Vx, DT" opcode. Set Vx = delay timer value.
    pub fn opcode_ld_vx_dt(args: &OpCodeArgs, cpu: &mut Cpu)
        requires
            old(cpu).wf(),
            args_wf(*args),
            in_program(old(cpu)@),
        ensures
            final(cpu).wf(),
            final(cpu)@ == ld_vx_dt_spec(old(cpu)@, args.x as int),
    {
        let value = cpu.delay_timer;
        cpu.data_registers[args.x] = value;

        cpu.program_counter = cpu.program_counter + INSTR_SIZE;
    }

    /// 0xFx15
    /// "LD DT, Vx" opcode. Set delay timer = Vx.
    pub fn opcode_ld_dt_vx(args: &OpCodeArgs, cpu: &mut Cpu)
        requires
            old(cpu).wf(),
            args_wf(*args),
            in_program(old(cpu)@),
        ensures
            final(cpu).wf(),
            final(cpu)@ == ld_dt_vx_spec(old(cpu)@, args.x as int),
    {
        cpu.delay_timer = cpu.data_registers[args.x];

        cpu.program_counter = cpu.program_counter + INSTR_SIZE;
    }

    /// 0xFx18
    /// "LD ST, Vx" opcode. Set sound timer = Vx.
    pub fn opcode_ld_st_vx(args: &OpCodeArgs, cpu: &mut Cpu)
        requires
            old(cpu).wf(),
            args_wf(*args),
            in_program(old(cpu)@),
        ensures
            final(cpu).wf(),
            final(cpu)@ == ld_st_vx_spec(old(cpu)@, args.x as int),
    {
        cpu.sound_timer = cpu.data_registers[args.x];

        cpu.program_counter = cpu.program_counter + INSTR_SIZE;
    }

    /// 0xFx1E
    /// "ADD I, Vx" opcode. Set I = I + Vx wrapping at the register's
    /// sixteen-bit width, with VF recording the wrap.
    pub fn opcode_add_i_vx(args: &OpCodeArgs, cpu: &mut Cpu)
        requires
            old(cpu).wf(),
            args_wf(*args),
            in_program(old(cpu)@),
        ensures
            final(cpu).wf(),
            final(cpu)@ == add_i_vx_spec(old(cpu)@, args.x as int),
    {
        let s: u32 = (cpu.i_register as u32) + (cpu.data_registers[args.x] as u32);
        if s > 0xFFFF {
            cpu.i_register = (s - 0x10000) as u16;
            cpu.data_registers[0xF] = 1;
        } else {
            cpu.i_register = s as u16;
            cpu.data_registers[0xF] = 0;
        }

        cpu.program_counter = cpu.program_counter + INSTR_SIZE;
    }

    /// 0xFx29
    /// "LD F, Vx" opcode. Set I = location of sprite for digit Vx.
    pub fn opcode_ld_f_vx(args: &OpCodeArgs, cpu: &mut Cpu)
        requires
            old(cpu).wf(),
            args_wf(*args),
            in_program(old(cpu)@),
        ensures
            final(cpu).wf(),
            final(cpu)@ == ld_f_vx_spec(old(cpu)@, args.x as int),
    {
        cpu.i_register = (cpu.data_registers[args.x] as u16) * 5;

        cpu.program_counter = cpu.program_counter + INSTR_SIZE;
    }

    /// 0xFx0A
    /// "LD Vx, K" opcode. Wait for a key press, store the value of the key
    /// in Vx. While no key is pressed the program counter does not advance,
    /// so the instruction re-executes on the next step.
    pub fn opcode_ld_vx_k(args: &OpCodeArgs, cpu: &mut Cpu)
        requires
            old(cpu).wf(),
            args_wf(*args),
            in_program(old(cpu)@),
        ensures
            final(cpu).wf(),
            final(cpu)@ == ld_vx_k_spec(old(cpu)@, args.x as int),
    {
        // check for the first pressed key. if no keys are pressed, simply
        // don't increase the program counter
        match cpu.keyboard.first_pressed() {
            Some(k) => {
                cpu.data_registers[args.x] = k;
                cpu.program_counter = cpu.program_counter + INSTR_SIZE;
            },
            None => {},
        }
    }

    /// 0xFx33
    /// "LD B, Vx" opcode. Store BCD representation of Vx in memory
    /// locations I, I+1, and I+2, each bounded to the memory range.
    pub fn opcode_ld_b_vx(args: &OpCodeArgs, cpu: &mut Cpu)
        requires
            old(cpu).wf(),
            args_wf(*args),
            in_program(old(cpu)@),
        ensures
            final(cpu).wf(),
            final(cpu)@ == ld_b_vx_spec(old(cpu)@, args.x as int),
    {
        let val = cpu.data_registers[args.x];
        let m0 = (cpu.i_register as usize) % MEMORY_LENGTH;
        let m1 = (cpu.i_register as usize + 1) % MEMORY_LENGTH;
        let m2 = (cpu.i_register as usize + 2) % MEMORY_LENGTH;
        cpu.memory[m0] = val / 100;
        cpu.memory[m1] = (val / 10) % 10;
        cpu.memory[m2] = val % 10;

        cpu.program_counter = cpu.program_counter + INSTR_SIZE;
    }

    /// 0xFx55
    /// "LD [I], Vx" opcode. Store registers V0 through Vx in memory
    /// starting at location I, each address bounded to the memory range.
    pub fn opcode_ld_i_vx(args: &OpCodeArgs, cpu: &mut Cpu)
        requires
            old(cpu).wf(),
            args_wf(*args),
            in_program(old(cpu)@),
        ensures
            final(cpu).wf(),
            final(cpu)@ == ld_i_vx_spec(old(cpu)@, args.x as int),
    {
        let ghost pre = old(cpu)@;
        let mut j: usize = 0;
        while j < args.x + 1
            invariant
                view_wf(pre),
                args_wf(*args),
                j <= args.x + 1,
                cpu@ == (CpuView { memory: cpu@.memory, ..pre }),
                cpu@.memory.len() == MEMORY_LENGTH,
                forall|p: int|
                    0 <= p < MEMORY_LENGTH ==> cpu@.memory[p] == {
                        let off = (p - pre.i) % (MEMORY_LENGTH as int);
                        if off < j {
                            pre.regs[off]
                        } else {
                            pre.memory[p]
                        }
                    },
            decreases args.x + 1 - j,
        {
            let addr = (cpu.i_register as usize + j) % MEMORY_LENGTH;
            let value = cpu.data_registers[j];
            proof {
                lemma_wrap_unwrap(pre.i as int, j as int, MEMORY_LENGTH as int);
                assert forall|p: int|
                    0 <= p < MEMORY_LENGTH && p != addr implies #[trigger] ((p - pre.i) % (
                    MEMORY_LENGTH as int)) != j as int by {
                    lemma_unwrap_wrap(pre.i as int, p, MEMORY_LENGTH as int);
                }
            }
            cpu.memory[addr] = value;
            j = j + 1;
        }
        cpu.program_counter = cpu.program_counter + INSTR_SIZE;
        proof {
            assert(cpu@.memory =~= ld_i_vx_spec(pre, args.x as int).memory);
            assert(cpu@ =~= ld_i_vx_spec(pre, args.x as int));
        }
    }

    /// 0xFx65
    /// "LD Vx, [I]" opcode. Read registers V0 through Vx from memory
    /// starting at location I, each address bounded to the memory range.
    pub fn opcode_ld_vx_i(args: &OpCodeArgs, cpu: &mut Cpu)
        requires
            old(cpu).wf(),
            args_wf(*args),
            in_program(old(cpu)@),
        ensures
            final(cpu).wf(),
            final(cpu)@ == ld_vx_i_spec(old(cpu)@, args.x as int),
    {
        let ghost pre = old(cpu)@;
        let mut j: usize = 0;
        while j < args.x + 1
            invariant
                view_wf(pre),
                args_wf(*args),
                j <= args.x + 1,
                cpu@ == (CpuView { regs: cpu@.regs, ..pre }),
                cpu@.regs.len() == NUM_REGISTERS,
                forall|r: int|
                    0 <= r < NUM_REGISTERS ==> cpu@.regs[r] == (if r < j {
                        pre.memory[mem_at(pre.i, r)]
                    } else {
                        pre.regs[r]
                    }),
            decreases args.x + 1 - j,
        {
            let addr = (cpu.i_register as usize + j) % MEMORY_LENGTH;
            let value = cpu.memory[addr];
            cpu.data_registers[j] = value;
            j = j + 1;
        }
        cpu.program_counter = cpu.program_counter + INSTR_SIZE;
        proof {
            assert(cpu@.regs =~= ld_vx_i_spec(pre, args.x as int).regs);
            assert(cpu@ =~= ld_vx_i_spec(pre, args.x as int));
        }
    }
}

} // verus!
