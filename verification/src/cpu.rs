//! The virtual machine state and the execution engine: the register file,
//! memory, stack, timers and frame buffer, together with the fetch-decode-
//! execute step and the 60 Hz timer policy.

use vstd::prelude::*;

use crate::keyboard::Keyboard;
use crate::opcode::{exec_op_spec, spec_args, spec_decode, OpCode, Operation};

verus! {

/// How many bytes of system memory there are
pub const MEMORY_LENGTH: usize = 0xFFF;

/// How many items our stack holds
pub const STACK_LENGTH: usize = 0x10;

/// The number of data registers we have
pub const NUM_REGISTERS: usize = 0x10;

/// The address at which the system's font data starts in memory
pub const FONT_SET_START_ADDR: usize = 0x000;

/// The address in memory where the user program begins
pub const USER_PROGRAM_START_ADDR: usize = 0x200;

/// The number of pixels in our virtual display width
pub const VIRTUAL_DISPLAY_WIDTH: usize = 64;

/// The number of pixels in our virtual display height
pub const VIRTUAL_DISPLAY_HEIGHT: usize = 32;

/// How many nanoseconds lie between two 60 Hz timer ticks
pub const TIMER_INTERVAL_NANOS: u64 = 16_666_666;

/// The fontset of the interpreter that can be referenced by user programs:
/// sixteen glyphs of five bytes each, one per hexadecimal digit.
pub const FONT_SET: [u8; 80] = [
    0xF0, 0x90, 0x90, 0x90, 0xF0,
    0x20, 0x60, 0x20, 0x20, 0x70,
    0xF0, 0x10, 0xF0, 0x80, 0xF0,
    0xF0, 0x10, 0xF0, 0x10, 0xF0,
    0x90, 0x90, 0xF0, 0x10, 0x10,
    0xF0, 0x80, 0xF0, 0x10, 0xF0,
    0xF0, 0x80, 0xF0, 0x90, 0xF0,
    0xF0, 0x10, 0x20, 0x40, 0x40,
    0xF0, 0x90, 0xF0, 0x90, 0xF0,
    0xF0, 0x90, 0xF0, 0x10, 0xF0,
    0xF0, 0x90, 0xF0, 0x90, 0x90,
    0xE0, 0x90, 0xE0, 0x90, 0xE0,
    0xF0, 0x80, 0x80, 0x80, 0xF0,
    0xE0, 0x90, 0x90, 0x90, 0xE0,
    0xF0, 0x80, 0xF0, 0x80, 0xF0,
    0xF0, 0x80, 0xF0, 0x80, 0x80,
];

/// Why loading a program image can fail: the image does not fit into the
/// memory that lies past the load address.
#[derive(Debug, Clone, Copy, PartialEq, Eq, Structural)]
pub enum ProgramLoadError {
    ProgramTooLarge,
}

/// The fatal conditions that stop execution: an instruction that matches no
/// dispatch entry, a call past the stack's capacity, and a return with
/// nothing pushed. Each propagates to the caller as a distinguishable value.
#[derive(Debug, Clone, Copy, PartialEq, Eq, Structural)]
pub enum ExecError {
    UnimplementedOpcode(u16),
    StackOverflow,
    StackUnderflow,
}

/// The mathematical model of the machine state: what every contract of the
/// library speaks about.
#[verifier::ext_equal]
pub struct CpuView {
    pub memory: Seq<u8>,
    pub regs: Seq<u8>,
    pub i: u16,
    pub delay: u8,
    pub sound: u8,
    pub pc: usize,
    pub sp: usize,
    pub stack: Seq<usize>,
    pub prog_len: usize,
    pub vram: Seq<bool>,
    pub draw: bool,
    pub keys: Seq<bool>,
    pub last_tick: u64,
}

/// Structure to represent the virtual CPU and perform execution
pub struct Cpu {
    /// the main system memory
    pub memory: Vec<u8>,
    /// the system data registers, V0 through VF
    pub data_registers: Vec<u8>,
    /// the I register, used for storing addresses
    pub i_register: u16,
    /// the delay timer, decreased at 60Hz when non-zero
    pub delay_timer: u8,
    /// the sound timer, decreased at 60Hz when non-zero
    pub sound_timer: u8,
    /// the program counter, points to the current instruction in memory
    pub program_counter: usize,
    /// the stack pointer, points to the current index in the stack
    pub stack_pointer: usize,
    /// the call stack, stores return addresses from subroutines
    pub stack: Vec<usize>,
    /// use this to know if the PC is past the end of the program
    pub program_length: usize,
    /// the system's "VRAM" -- the virtual screen buffer, row by row:
    /// the pixel at column x of row y sits at index y * 64 + x
    pub vram: Vec<bool>,
    /// the flag that says whether we need to redraw the screen
    pub draw_flag: bool,
    /// the system's keyboard
    pub keyboard: Keyboard,
    /// the timestamp of the last timer decrement, in nanoseconds
    pub last_timer_decrease: u64,
}

impl View for Cpu {
    type V = CpuView;

    open spec fn view(&self) -> CpuView {
        CpuView {
            memory: self.memory@,
            regs: self.data_registers@,
            i: self.i_register,
            delay: self.delay_timer,
            sound: self.sound_timer,
            pc: self.program_counter,
            sp: self.stack_pointer,
            stack: self.stack@,
            prog_len: self.program_length,
            vram: self.vram@,
            draw: self.draw_flag,
            keys: self.keyboard.keys@,
            last_tick: self.last_timer_decrease,
        }
    }
}

/// The machine-state invariant: every fixed-size piece has its size, the
/// stack pointer stays within the stack, the loaded program fits in memory,
/// and the program counter and the stored return addresses stay within the
/// range that execution can ever produce.
pub open spec fn view_wf(v: CpuView) -> bool {
    &&& v.memory.len() == MEMORY_LENGTH
    &&& v.regs.len() == NUM_REGISTERS
    &&& v.stack.len() == STACK_LENGTH
    &&& v.vram.len() == VIRTUAL_DISPLAY_WIDTH * VIRTUAL_DISPLAY_HEIGHT
    &&& v.keys.len() == 16
    &&& v.sp <= STACK_LENGTH
    &&& v.prog_len <= MEMORY_LENGTH - USER_PROGRAM_START_ADDR
    &&& v.pc <= 0x10FE
    &&& forall|k: int| 0 <= k < STACK_LENGTH ==> v.stack[k] <= 0xFFE
}

/// Whether the program counter has not yet reached or passed the end of
/// the loaded program. The execution engine establishes this before it
/// dispatches to any handler; where it fails, the step reports completion.
pub open spec fn in_program(v: CpuView) -> bool {
    v.pc < USER_PROGRAM_START_ADDR + v.prog_len
}

/// A byte timer decrement, floored at zero: timers saturate and never wrap
/// below zero.
pub open spec fn sat_dec(t: u8) -> u8 {
    if t > 0 {
        (t - 1) as u8
    } else {
        0u8
    }
}

/// The timer policy: whenever more than the 60 Hz interval has passed since
/// the last recorded tick, both timers decrement by one (floored at zero)
/// and the new tick time is recorded; otherwise nothing changes.
pub open spec fn tick_spec(v: CpuView, now: u64) -> CpuView {
    if now - v.last_tick > TIMER_INTERVAL_NANOS {
        CpuView { delay: sat_dec(v.delay), sound: sat_dec(v.sound), last_tick: now, ..v }
    } else {
        v
    }
}

/// The timer floor law: a timer never goes below zero. Starting from a
/// delay timer at one, two ticks each more than a 60 Hz interval apart
/// leave the timer at zero — not a negative or wrapped value — and any
/// further tick keeps it there.
pub proof fn lemma_timer_two_ticks(v: CpuView, t1: u64, t2: u64)
    requires
        v.delay == 1,
        t1 - v.last_tick > TIMER_INTERVAL_NANOS,
        t2 - t1 > TIMER_INTERVAL_NANOS,
    ensures
        tick_spec(v, t1).delay == 0,
        tick_spec(tick_spec(v, t1), t2).delay == 0,
        forall|t3: u64| #[trigger] tick_spec(tick_spec(tick_spec(v, t1), t2), t3).delay == 0,
{
}

/// The memory image right after loading: the font table in the low region,
/// the program at the load address, zero everywhere else.
pub open spec fn init_memory(prog: Seq<u8>) -> Seq<u8> {
    Seq::new(
        MEMORY_LENGTH as nat,
        |a: int|
            if FONT_SET_START_ADDR <= a < FONT_SET_START_ADDR + 80 {
                FONT_SET@[a - FONT_SET_START_ADDR]
            } else if USER_PROGRAM_START_ADDR <= a < USER_PROGRAM_START_ADDR + prog.len() {
                prog[a - USER_PROGRAM_START_ADDR]
            } else {
                0u8
            },
    )
}

/// The whole machine state right after loading a program image: fresh
/// registers, timers, stack, frame buffer and pad, with the program counter
/// at the load address.
pub open spec fn init_view(prog: Seq<u8>) -> CpuView {
    CpuView {
        memory: init_memory(prog),
        regs: Seq::new(NUM_REGISTERS as nat, |k: int| 0u8),
        i: 0,
        delay: 0,
        sound: 0,
        pc: USER_PROGRAM_START_ADDR,
        sp: 0,
        stack: Seq::new(STACK_LENGTH as nat, |k: int| 0usize),
        prog_len: prog.len() as usize,
        vram: Seq::new((VIRTUAL_DISPLAY_WIDTH * VIRTUAL_DISPLAY_HEIGHT) as nat, |k: int| false),
        draw: false,
        keys: Seq::new(16, |k: int| false),
        last_tick: 0,
    }
}

impl Cpu {
    /// The machine state invariant, stated over the model.
    pub open spec fn wf(self) -> bool {
        view_wf(self@)
    }

    /// Init the system from a byte vector containing a program image. Fails
    /// exactly when the image does not fit into the memory past the load
    /// address; otherwise the returned machine is the freshly loaded state.
    pub fn init_from_buffer(buf: Vec<u8>) -> (r: Result<Cpu, ProgramLoadError>)
        ensures
            buf@.len() <= MEMORY_LENGTH - USER_PROGRAM_START_ADDR ==> (r matches Ok(c) && c.wf()
                && c@ == init_view(buf@)),
            buf@.len() > MEMORY_LENGTH - USER_PROGRAM_START_ADDR ==> r == Err::<
                Cpu,
                ProgramLoadError,
            >(ProgramLoadError::ProgramTooLarge),
    {
        if buf.len() > MEMORY_LENGTH - USER_PROGRAM_START_ADDR {
            return Err(ProgramLoadError::ProgramTooLarge);
        }
        let mut memory = crate::filled_vec(MEMORY_LENGTH, 0u8);

        // copy the user program into system memory
        let mut k: usize = 0;
        while k < buf.len()
            invariant
                buf@.len() <= MEMORY_LENGTH - USER_PROGRAM_START_ADDR,
                k <= buf@.len(),
                memory@.len() == MEMORY_LENGTH,
                forall|a: int|
                    USER_PROGRAM_START_ADDR <= a < USER_PROGRAM_START_ADDR + k
                        ==> memory@[a] == buf@[a - USER_PROGRAM_START_ADDR],
                forall|a: int|
                    0 <= a < MEMORY_LENGTH && !(USER_PROGRAM_START_ADDR <= a
                        < USER_PROGRAM_START_ADDR + k) ==> memory@[a] == 0u8,
            decreases buf@.len() - k,
        {
            memory[USER_PROGRAM_START_ADDR + k] = buf[k];
            k = k + 1;
        }

        // copy the font set into system memory
        let mut j: usize = 0;
        while j < 80
            invariant
                buf@.len() <= MEMORY_LENGTH - USER_PROGRAM_START_ADDR,
                j <= 80,
                memory@.len() == MEMORY_LENGTH,
                forall|a: int|
                    FONT_SET_START_ADDR <= a < FONT_SET_START_ADDR + j
                        ==> memory@[a] == FONT_SET@[a - FONT_SET_START_ADDR],
                forall|a: int|
                    USER_PROGRAM_START_ADDR <= a < USER_PROGRAM_START_ADDR + buf@.len()
                        ==> memory@[a] == buf@[a - USER_PROGRAM_START_ADDR],
                forall|a: int|
                    0 <= a < MEMORY_LENGTH && !(USER_PROGRAM_START_ADDR <= a
                        < USER_PROGRAM_START_ADDR + buf@.len()) && !(FONT_SET_START_ADDR <= a
                        < FONT_SET_START_ADDR + j) ==> memory@[a] == 0u8,
            decreases 80 - j,
        {
            memory[FONT_SET_START_ADDR + j] = FONT_SET[j];
            j = j + 1;
        }

        let cpu = Cpu {
            memory,
            data_registers: crate::filled_vec(NUM_REGISTERS, 0u8),
            i_register: 0,
            delay_timer: 0,
            sound_timer: 0,
            program_counter: USER_PROGRAM_START_ADDR,
            stack_pointer: 0,
            stack: crate::filled_vec(STACK_LENGTH, 0usize),
            program_length: buf.len(),
            vram: crate::filled_vec(VIRTUAL_DISPLAY_WIDTH * VIRTUAL_DISPLAY_HEIGHT, false),
            draw_flag: false,
            keyboard: Keyboard::new(),
            last_timer_decrease: 0,
        };
        proof {
            assert(cpu@.memory =~= init_memory(buf@));
            assert(cpu@ =~= init_view(buf@));
        }
        Ok(cpu)
    }

    /// Returns a random byte, used for the RND opcode.
    ///
    /// Relies on `rand::random`: an unseeded draw from the thread-local
    /// generator. Nothing is assumed about which byte comes back.
    #[verifier::external_body]
    pub fn get_random_byte(&self) -> u8 {
        rand::random::<u8>()
    }

    /// Fetches one opcode from memory and executes it, then applies the
    /// timer policy for the given wall-clock time in nanoseconds.
    ///
    /// Returns `Ok(true)` to continue; `Ok(false)` exactly when the program
    /// counter has reached or passed the end of the loaded program, a
    /// terminal state in which nothing changes; and a fatal error, leaving
    /// the state unchanged, when the instruction matches no dispatch entry
    /// or breaks the stack discipline.
    ///
    /// After a step the host should present the frame buffer and clear
    /// `draw_flag` whenever `draw_flag` is set.
    pub fn fetch_and_execute(&mut self, now_nanos: u64) -> (r: Result<bool, ExecError>)
        requires
            old(self).wf(),
        ensures
            final(self).wf(),
            r == Ok::<bool, ExecError>(false) <==> !in_program(old(self)@),
            r == Ok::<bool, ExecError>(false) ==> final(self)@ == old(self)@,
            (r matches Ok(b) && b) ==> exists|rnd: u8|
                step_spec(old(self)@, rnd, now_nanos) == Ok::<(CpuView, bool), ExecError>(
                    (final(self)@, true),
                ),
            (r matches Ok(b) && b && spec_decode(fetch_instr(old(self)@)) != Some(
                Operation::RndVxByte,
            )) ==> forall|rnd: u8|
                step_spec(old(self)@, rnd, now_nanos) == Ok::<(CpuView, bool), ExecError>(
                    (final(self)@, true),
                ),
            r matches Err(e) ==> final(self)@ == old(self)@ && forall|rnd: u8|
                step_spec(old(self)@, rnd, now_nanos) == Err::<(CpuView, bool), ExecError>(e),
    {
        // if the program counter is past the program, then we've completed execution
        if self.program_counter >= USER_PROGRAM_START_ADDR + self.program_length {
            return Ok(false);
        }

        // fetch the instruction and decode it; the second byte's address is
        // bounded to the memory range, as every memory-indirect address is
        let hi = self.memory[self.program_counter];
        let lo = self.memory[(self.program_counter + 1) % MEMORY_LENGTH];
        let instruction: u16 = ((hi as u16) << 8u16) | (lo as u16);
        proof {
            lemma_combine_bytes(hi, lo);
            assert(instruction == fetch_instr(old(self)@));
        }
        let opcode = match OpCode::from_u16(instruction) {
            Some(o) => o,
            None => {
                return Err(ExecError::UnimplementedOpcode(instruction));
            },
        };

        // execute it
        let ghost pre = self@;
        let ghost op = opcode.operation;
        let ghost mut rnd_used: u8 = 0;
        let args = opcode.args;
        match opcode.operation {
            Operation::Cls => OpCode::opcode_cls(&args, self),
            Operation::Ret => {
                match OpCode::opcode_ret(&args, self) {
                    Ok(()) => {},
                    Err(e) => {
                        return Err(e);
                    },
                }
            },
            Operation::JpAddr => OpCode::opcode_jp_addr(&args, self),
            Operation::CallAddr => {
                match OpCode::opcode_call_addr(&args, self) {
                    Ok(()) => {},
                    Err(e) => {
                        return Err(e);
                    },
                }
            },
            Operation::SeVxByte => OpCode::opcode_se_vx_byte(&args, self),
            Operation::SneVxByte => OpCode::opcode_sne_vx_byte(&args, self),
            Operation::SeVxVy => OpCode::opcode_se_vx_vy(&args, self),
            Operation::LdVxByte => OpCode::opcode_ld_vx_byte(&args, self),
            Operation::AddVxByte => OpCode::opcode_add_vx_byte(&args, self),
            Operation::LdVxVy => OpCode::opcode_ld_vx_vy(&args, self),
            Operation::OrVxVy => OpCode::opcode_or_vx_vy(&args, self),
            Operation::AndVxVy => OpCode::opcode_and_vx_vy(&args, self),
            Operation::XorVxVy => OpCode::opcode_xor_vx_vy(&args, self),
            Operation::AddVxVy => OpCode::opcode_add_vx_vy(&args, self),
            Operation::SubVxVy => OpCode::opcode_sub_vx_vy(&args, self),
            Operation::ShrVxVy => OpCode::opcode_shr_vx_vy(&args, self),
            Operation::SubnVxVy => OpCode::opcode_subn_vx_vy(&args, self),
            Operation::ShlVxVy => OpCode::opcode_shl_vx_vy(&args, self),
            Operation::SneVxVy => OpCode::opcode_sne_vx_vy(&args, self),
            Operation::LdIAddr => OpCode::opcode_ld_i_addr(&args, self),
            Operation::JpV0Addr => OpCode::opcode_jp_v0_addr(&args, self),
            Operation::RndVxByte => {
                let random_byte = self.get_random_byte();
                OpCode::opcode_rnd_vx_byte(&args, self, random_byte);
                proof {
                    rnd_used = random_byte;
                }
            },
            Operation::DrwVxVyNibble => OpCode::opcode_drw_vx_vy_nibble(&args, self),
            Operation::SkpVx => OpCode::opcode_skp_vx(&args, self),
            Operation::SknpVx => OpCode::opcode_sknp_vx(&args, self),
            Operation::LdVxDt => OpCode::opcode_ld_vx_dt(&args, self),
            Operation::LdVxK => OpCode::opcode_ld_vx_k(&args, self),
            Operation::LdDtVx => OpCode::opcode_ld_dt_vx(&args, self),
            Operation::LdStVx => OpCode::opcode_ld_st_vx(&args, self),
            Operation::AddIVx => OpCode::opcode_add_i_vx(&args, self),
            Operation::LdFVx => OpCode::opcode_ld_f_vx(&args, self),
            Operation::LdBVx => OpCode::opcode_ld_b_vx(&args, self),
            Operation::LdIVx => OpCode::opcode_ld_i_vx(&args, self),
            Operation::LdVxI => OpCode::opcode_ld_vx_i(&args, self),
        }
        let ghost mid = self@;
        proof {
            assert(exec_op_spec(pre, op, spec_args(instruction), rnd_used) == Ok::<
                CpuView,
                ExecError,
            >(mid));
        }

        // see if we need to decrement the timers (at 60Hz)
        if now_nanos > self.last_timer_decrease && now_nanos - self.last_timer_decrease
            > TIMER_INTERVAL_NANOS {
            // decrement the timers
            if self.delay_timer > 0 {
                self.delay_timer = self.delay_timer - 1;
            }
            if self.sound_timer > 0 {
                self.sound_timer = self.sound_timer - 1;
            }

            self.last_timer_decrease = now_nanos;
        }
        proof {
            assert(self@ == tick_spec(mid, now_nanos));
            assert(step_spec(old(self)@, rnd_used, now_nanos) == Ok::<(CpuView, bool), ExecError>(
                (self@, true),
            ));
            if op != Operation::RndVxByte {
                assert forall|rnd: u8|
                    step_spec(old(self)@, rnd, now_nanos) == Ok::<(CpuView, bool), ExecError>(
                        (self@, true),
                    ) by {
                    crate::opcode::lemma_exec_op_rnd_irrelevant(
                        pre,
                        op,
                        spec_args(instruction),
                        rnd,
                        rnd_used,
                    );
                }
            }
        }

        Ok(true)
    }
}

/// The two big-endian bytes at the program counter, joined into the raw
/// sixteen-bit instruction. The second byte's address is bounded to the
/// memory range, so a fetch at the very last memory cell stays in bounds.
pub open spec fn fetch_instr(v: CpuView) -> u16 {
    (v.memory[v.pc as int] * 256 + v.memory[(v.pc + 1) % (MEMORY_LENGTH as int)]) as u16
}

/// Joining two bytes big-endian by shift-and-or equals the arithmetic
/// combination.
pub proof fn lemma_combine_bytes(hi: u8, lo: u8)
    ensures
        ((hi as u16) << 8u16) | (lo as u16) == hi as u16 * 256 + lo as u16,
{
    assert(((hi as u16) << 8u16) | (lo as u16) == (hi as u16) * 256 + (lo as u16)) by (bit_vector);
}

/// One whole step of the execution engine on the machine-state model: the
/// completion check, the fetch, the decode, the execution of the decoded
/// operation, and then the timer policy. `rnd` is the byte the random
/// collaborator would hand in on this step; `now` the wall-clock time.
pub open spec fn step_spec(pre: CpuView, rnd: u8, now: u64) -> Result<(CpuView, bool), ExecError> {
    if !in_program(pre) {
        Ok((pre, false))
    } else {
        let instr = fetch_instr(pre);
        match spec_decode(instr) {
            None => Err(ExecError::UnimplementedOpcode(instr)),
            Some(op) => match exec_op_spec(pre, op, spec_args(instr), rnd) {
                Err(e) => Err(e),
                Ok(mid) => Ok((tick_spec(mid, now), true)),
            },
        }
    }
}

} // verus!
