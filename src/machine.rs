use vstd::prelude::*;

use crate::opcode::{opcode_of, Opcode};

verus! {

/// Number of general-purpose registers.
pub const REG_COUNT: usize = 16;

/// Size of the data memory in bytes.
pub const MEM_SIZE: usize = 8192;

/// Why a step could not be carried out.
#[derive(Clone, Copy, Debug, PartialEq, Eq, Structural)]
pub enum VmError {
    /// The next instruction would read past the end of the program: normal termination.
    EndOfProgram,
    /// The opcode byte has no entry in the opcode table.
    InvalidOpcode,
    /// A division whose divisor register holds zero.
    DivisionByZero,
    /// A register index of 16 or more, or a two-byte memory access that leaves memory.
    OutOfRangeAccess,
    /// A register-relative jump, which this machine does not provide.
    NotImplemented,
}

/// The machine as a mathematical value.
pub struct MachineView {
    pub regs: Seq<u16>,
    pub mem: Seq<u8>,
    pub bin: Seq<u8>,
    pub pc: u16,
    /// The last advance carried the program counter beyond the 16-bit address space, and
    /// no jump has been taken since: the program has run off its end.
    pub past_end: bool,
}

impl MachineView {
    /// Sixteen registers and the full memory, as every machine has.
    pub open spec fn wf(self) -> bool {
        self.regs.len() == REG_COUNT && self.mem.len() == MEM_SIZE
    }

    /// The machine with register `i` set to `v`.
    pub open spec fn with_reg(self, i: u8, v: u16) -> MachineView {
        MachineView { regs: self.regs.update(i as int, v), ..self }
    }

    /// The machine with its program counter set to `pc` by a jump.
    pub open spec fn with_pc(self, pc: u16) -> MachineView {
        MachineView { pc, past_end: false, ..self }
    }

    /// The machine with its program counter moved past the current instruction: by 4,
    /// modulo 2^16, noting when that leaves the 16-bit address space.
    pub open spec fn advanced(self) -> MachineView {
        MachineView { pc: wrap(self.pc + 4), past_end: self.pc + 4 > u16::MAX, ..self }
    }

    /// Memory after writing `v` big-endian at `addr` and `addr + 1`.
    pub open spec fn with_word(self, addr: u16, v: u16) -> MachineView {
        MachineView {
            mem: self.mem.update(addr as int, hi_byte(v)).update(addr + 1, lo_byte(v)),
            ..self
        }
    }

    /// The big-endian 16-bit value held at `addr` and `addr + 1`.
    pub open spec fn word_at(self, addr: u16) -> u16 {
        word(self.mem[addr as int], self.mem[addr + 1])
    }
}

/// The 16-bit value whose high byte is `hi` and low byte is `lo`.
pub open spec fn word(hi: u8, lo: u8) -> u16 {
    (hi * 256 + lo) as u16
}

/// The high byte of `v`.
pub open spec fn hi_byte(v: u16) -> u8 {
    (v / 256) as u8
}

/// The low byte of `v`.
pub open spec fn lo_byte(v: u16) -> u8 {
    (v % 256) as u8
}

/// `x` reduced modulo 2^16.
pub open spec fn wrap(x: int) -> u16 {
    (x % 0x10000) as u16
}

/// A truth value as a register value: 1 or 0.
pub open spec fn flag(b: bool) -> u16 {
    if b {
        1
    } else {
        0
    }
}

/// `i` names one of the sixteen registers.
pub open spec fn reg_ok(i: u8) -> bool {
    i < REG_COUNT
}

/// Both bytes of a two-byte access at `addr` lie in memory.
pub open spec fn addr_ok(addr: u16) -> bool {
    addr + 1 < MEM_SIZE
}

/// The value an operation of three registers writes, from the two source values.
pub open spec fn alu(op: Opcode, x: u16, y: u16) -> u16 {
    match op {
        Opcode::Add => wrap(x + y),
        Opcode::Mul => wrap(x * y),
        Opcode::Sub => wrap(x - y),
        Opcode::Div => (x / y) as u16,
        Opcode::Equal => flag(x == y),
        Opcode::NotEqual => flag(x != y),
        Opcode::Less => flag(x < y),
        Opcode::LessEq => flag(x <= y),
        Opcode::Greater => flag(x > y),
        Opcode::GreaterEq => flag(x >= y),
        Opcode::And => x & y,
        Opcode::Or => x | y,
        Opcode::Xor => x ^ y,
        _ => 0,
    }
}

/// Operations of the form `dst, src1, src2` that write `alu(op, regs[src1], regs[src2])`.
pub open spec fn is_alu(op: Opcode) -> bool {
    match op {
        Opcode::Add | Opcode::Mul | Opcode::Sub | Opcode::Div | Opcode::Equal | Opcode::NotEqual
        | Opcode::Less | Opcode::LessEq | Opcode::Greater | Opcode::GreaterEq | Opcode::And
        | Opcode::Or | Opcode::Xor => true,
        _ => false,
    }
}

/// What one instruction with operands `a`, `b`, `c` does to a machine whose program
/// counter has already been advanced past it.
pub open spec fn execute_spec(s: MachineView, op: Opcode, a: u8, b: u8, c: u8) -> Result<
    MachineView,
    VmError,
> {
    if is_alu(op) {
        if !(reg_ok(a) && reg_ok(b) && reg_ok(c)) {
            Err(VmError::OutOfRangeAccess)
        } else if op == Opcode::Div && s.regs[c as int] == 0 {
            Err(VmError::DivisionByZero)
        } else {
            Ok(s.with_reg(a, alu(op, s.regs[b as int], s.regs[c as int])))
        }
    } else {
        match op {
            Opcode::CopyReg => if reg_ok(a) && reg_ok(b) {
                Ok(s.with_reg(a, s.regs[b as int]))
            } else {
                Err(VmError::OutOfRangeAccess)
            },
            Opcode::Not => if reg_ok(a) && reg_ok(b) {
                Ok(s.with_reg(a, !s.regs[b as int]))
            } else {
                Err(VmError::OutOfRangeAccess)
            },
            Opcode::LoadImm => if reg_ok(a) {
                Ok(s.with_reg(a, word(b, c)))
            } else {
                Err(VmError::OutOfRangeAccess)
            },
            Opcode::Load => if reg_ok(a) && addr_ok(word(b, c)) {
                Ok(s.with_reg(a, s.word_at(word(b, c))))
            } else {
                Err(VmError::OutOfRangeAccess)
            },
            Opcode::Store => if reg_ok(c) && addr_ok(word(a, b)) {
                Ok(s.with_word(word(a, b), s.regs[c as int]))
            } else {
                Err(VmError::OutOfRangeAccess)
            },
            Opcode::Jmp => Ok(s.with_pc(word(a, b))),
            Opcode::JmpIfZero => if !reg_ok(c) {
                Err(VmError::OutOfRangeAccess)
            } else if s.regs[c as int] == 0 {
                Ok(s.with_pc(word(a, b)))
            } else {
                Ok(s)
            },
            Opcode::Jr | Opcode::JrIfZero => Err(VmError::NotImplemented),
            _ => Ok(s),
        }
    }
}

/// The machine after an operation that produced `res` from `s`, and the operation's
/// result: a failed operation leaves `s` as it was.
pub open spec fn settle(s: MachineView, res: Result<MachineView, VmError>) -> (
    MachineView,
    Result<(), VmError>,
) {
    match res {
        Ok(t) => (t, Ok(())),
        Err(e) => (s, Err(e)),
    }
}

/// One fetch-decode-execute step: the machine after it, and its result. Unless the
/// program has ended, the program counter advances past the instruction before it is
/// dispatched, and stays advanced when the instruction fails.
pub open spec fn step_spec(s: MachineView) -> (MachineView, Result<(), VmError>) {
    if s.past_end || s.pc + 4 > s.bin.len() {
        (s, Err(VmError::EndOfProgram))
    } else {
        match opcode_of(s.bin[s.pc as int]) {
            None => (s.advanced(), Err(VmError::InvalidOpcode)),
            Some(op) => settle(
                s.advanced(),
                execute_spec(
                    s.advanced(),
                    op,
                    s.bin[s.pc + 1],
                    s.bin[s.pc + 2],
                    s.bin[s.pc + 3],
                ),
            ),
        }
    }
}

/// The execution engine: registers, memory, the loaded program and the program counter.
pub struct State {
    regs: [u16; 16],
    mem: [u8; 8192],
    bin: Vec<u8>,
    pc: u16,
    past_end: bool,
}

impl View for State {
    type V = MachineView;

    closed spec fn view(&self) -> MachineView {
        MachineView {
            regs: self.regs@,
            mem: self.mem@,
            bin: self.bin@,
            pc: self.pc,
            past_end: self.past_end,
        }
    }
}

impl State {
    /// A machine around `bin`, with registers, memory and program counter at zero.
    pub fn new(bin: Vec<u8>) -> (r: State)
        ensures
            r@.regs == Seq::new(REG_COUNT as nat, |i: int| 0u16),
            r@.mem == Seq::new(MEM_SIZE as nat, |i: int| 0u8),
            r@.bin == bin@,
            r@.pc == 0,
            !r@.past_end,
    {
        let r = State { regs: [0u16; 16], mem: [0u8; 8192], bin, pc: 0, past_end: false };
        assert(r@.regs =~= Seq::new(REG_COUNT as nat, |i: int| 0u16));
        assert(r@.mem =~= Seq::new(MEM_SIZE as nat, |i: int| 0u8));
        r
    }

    /// The 16-bit value with high byte `high` and low byte `low`.
    pub fn make_u16(high: u8, low: u8) -> (r: u16)
        ensures
            r == word(high, low),
            r as int == high as int * 256 + low as int,
    {
        (high as u16) * 256 + (low as u16)
    }

    /// The program counter.
    pub fn pc(&self) -> (r: u16)
        ensures
            r == self@.pc,
    {
        self.pc
    }

    /// Whether the program has run off the end of the 16-bit address space.
    pub fn past_end(&self) -> (r: bool)
        ensures
            r == self@.past_end,
    {
        self.past_end
    }

    /// A copy of the register file.
    pub fn registers(&self) -> (r: [u16; 16])
        ensures
            r@ == self@.regs,
    {
        self.regs
    }

    /// Register `i`, or `OutOfRangeAccess` when there is no such register.
    pub fn register(&self, i: u8) -> (r: Result<u16, VmError>)
        ensures
            reg_ok(i) ==> r == Ok::<u16, VmError>(self@.regs[i as int]),
            !reg_ok(i) ==> r == Err::<u16, VmError>(VmError::OutOfRangeAccess),
    {
        if (i as usize) < REG_COUNT {
            Ok(self.regs[i as usize])
        } else {
            Err(VmError::OutOfRangeAccess)
        }
    }

    /// The memory byte at `addr`, or `OutOfRangeAccess` beyond the end of memory.
    pub fn memory_byte(&self, addr: u16) -> (r: Result<u8, VmError>)
        ensures
            addr < MEM_SIZE ==> r == Ok::<u8, VmError>(self@.mem[addr as int]),
            addr >= MEM_SIZE ==> r == Err::<u8, VmError>(VmError::OutOfRangeAccess),
    {
        if (addr as usize) < MEM_SIZE {
            Ok(self.mem[addr as usize])
        } else {
            Err(VmError::OutOfRangeAccess)
        }
    }

    /// The model of every machine has sixteen registers and the full memory.
    pub proof fn lemma_view_wf(&self)
        ensures
            self@.wf(),
    {
    }

    /// All three register indices name a register.
    fn regs_ok(a: u8, b: u8, c: u8) -> (r: bool)
        ensures
            r == (reg_ok(a) && reg_ok(b) && reg_ok(c)),
    {
        (a as usize) < REG_COUNT && (b as usize) < REG_COUNT && (c as usize) < REG_COUNT
    }

    /// Does nothing.
    pub fn nop(&mut self, a: u8, b: u8, c: u8) -> (r: Result<(), VmError>)
        ensures
            (final(self)@, r) == settle(old(self)@, execute_spec(old(self)@, Opcode::Nop, a, b, c)),
    {
        Ok(())
    }

    /// Registers `reg_st := reg_a / reg_b`, integer division; a zero divisor is an error.
    pub fn div(&mut self, reg_st: u8, reg_a: u8, reg_b: u8) -> (r: Result<(), VmError>)
        ensures
            (final(self)@, r) == settle(old(self)@, execute_spec(old(self)@, Opcode::Div, reg_st, reg_a, reg_b)),
    {
        if !Self::regs_ok(reg_st, reg_a, reg_b) {
            return Err(VmError::OutOfRangeAccess);
        }
        let y = self.regs[reg_b as usize];
        if y == 0 {
            return Err(VmError::DivisionByZero);
        }
        let v: u16 = self.regs[reg_a as usize] / y;
        self.regs[reg_st as usize] = v;
        Ok(())
    }

    /// Registers `reg_st := reg_a`.
    pub fn cop(&mut self, reg_st: u8, reg_a: u8, c: u8) -> (r: Result<(), VmError>)
        ensures
            (final(self)@, r) == settle(old(self)@, execute_spec(old(self)@, Opcode::CopyReg, reg_st, reg_a, c)),
    {
        if !Self::regs_ok(reg_st, reg_a, 0) {
            return Err(VmError::OutOfRangeAccess);
        }
        let v: u16 = self.regs[reg_a as usize];
        self.regs[reg_st as usize] = v;
        Ok(())
    }

    /// Registers `reg_st := !reg_a`, the bitwise complement.
    pub fn not(&mut self, reg_st: u8, reg_a: u8, c: u8) -> (r: Result<(), VmError>)
        ensures
            (final(self)@, r) == settle(old(self)@, execute_spec(old(self)@, Opcode::Not, reg_st, reg_a, c)),
    {
        if !Self::regs_ok(reg_st, reg_a, 0) {
            return Err(VmError::OutOfRangeAccess);
        }
        let v: u16 = !self.regs[reg_a as usize];
        self.regs[reg_st as usize] = v;
        Ok(())
    }

    /// Registers `reg_st := valh * 256 + vall`.
    pub fn afc(&mut self, reg_st: u8, valh: u8, vall: u8) -> (r: Result<(), VmError>)
        ensures
            (final(self)@, r) == settle(old(self)@, execute_spec(old(self)@, Opcode::LoadImm, reg_st, valh, vall)),
    {
        if !Self::regs_ok(reg_st, 0, 0) {
            return Err(VmError::OutOfRangeAccess);
        }
        self.regs[reg_st as usize] = Self::make_u16(valh, vall);
        Ok(())
    }

    /// Registers `reg_st :=` the big-endian word at address `addrh * 256 + addrl`.
    pub fn load(&mut self, reg_st: u8, addrh: u8, addrl: u8) -> (r: Result<(), VmError>)
        ensures
            (final(self)@, r) == settle(old(self)@, execute_spec(old(self)@, Opcode::Load, reg_st, addrh, addrl)),
    {
        let addr = Self::make_u16(addrh, addrl) as usize;
        if !Self::regs_ok(reg_st, 0, 0) || addr + 1 >= MEM_SIZE {
            return Err(VmError::OutOfRangeAccess);
        }
        let v = Self::make_u16(self.mem[addr], self.mem[addr + 1]);
        self.regs[reg_st as usize] = v;
        Ok(())
    }

    /// Writes register `reg_st` big-endian at address `addrh * 256 + addrl`.
    pub fn store(&mut self, addrh: u8, addrl: u8, reg_st: u8) -> (r: Result<(), VmError>)
        ensures
            (final(self)@, r) == settle(old(self)@, execute_spec(old(self)@, Opcode::Store, addrh, addrl, reg_st)),
    {
        let addr = Self::make_u16(addrh, addrl) as usize;
        if !Self::regs_ok(reg_st, 0, 0) || addr + 1 >= MEM_SIZE {
            return Err(VmError::OutOfRangeAccess);
        }
        let val = self.regs[reg_st as usize];
        self.mem[addr] = (val / 256) as u8;
        self.mem[addr + 1] = (val % 256) as u8;
        Ok(())
    }

    /// Jumps to `addrh * 256 + addrl`.
    pub fn jmp(&mut self, addrh: u8, addrl: u8, c: u8) -> (r: Result<(), VmError>)
        ensures
            (final(self)@, r) == settle(old(self)@, execute_spec(old(self)@, Opcode::Jmp, addrh, addrl, c)),
    {
        self.pc = Self::make_u16(addrh, addrl);
        self.past_end = false;
        Ok(())
    }

    /// Jumps to `addrh * 256 + addrl` if register `reg_a` holds zero.
    pub fn jmpc(&mut self, addrh: u8, addrl: u8, reg_a: u8) -> (r: Result<(), VmError>)
        ensures
            (final(self)@, r) == settle(old(self)@, execute_spec(old(self)@, Opcode::JmpIfZero, addrh, addrl, reg_a)),
    {
        if !Self::regs_ok(reg_a, 0, 0) {
            return Err(VmError::OutOfRangeAccess);
        }
        if self.regs[reg_a as usize] == 0 {
            self.pc = Self::make_u16(addrh, addrl);
            self.past_end = false;
        }
        Ok(())
    }

    /// Register-relative jump: not provided, always `NotImplemented`.
    pub fn jr(&mut self, addrh: u8, addrl: u8, reg_a: u8) -> (r: Result<(), VmError>)
        ensures
            (final(self)@, r) == settle(old(self)@, execute_spec(old(self)@, Opcode::Jr, addrh, addrl, reg_a)),
    {
        Err(VmError::NotImplemented)
    }

    /// Conditional register-relative jump: not provided, always `NotImplemented`.
    pub fn jrc(&mut self, addrh: u8, addrl: u8, reg_a: u8) -> (r: Result<(), VmError>)
        ensures
            (final(self)@, r) == settle(old(self)@, execute_spec(old(self)@, Opcode::JrIfZero, addrh, addrl, reg_a)),
    {
        Err(VmError::NotImplemented)
    }

    /// Registers `reg_st := reg_a + reg_b`, wrapping modulo 2^16.
    pub fn add(&mut self, reg_st: u8, reg_a: u8, reg_b: u8) -> (r: Result<(), VmError>)
        ensures
            (final(self)@, r) == settle(old(self)@, execute_spec(old(self)@, Opcode::Add, reg_st, reg_a, reg_b)),
    {
        if !Self::regs_ok(reg_st, reg_a, reg_b) {
            return Err(VmError::OutOfRangeAccess);
        }
        let v: u16 = self.regs[reg_a as usize].wrapping_add(self.regs[reg_b as usize]);
        self.regs[reg_st as usize] = v;
        Ok(())
    }

    /// Registers `reg_st := reg_a * reg_b`, wrapping modulo 2^16.
    pub fn mul(&mut self, reg_st: u8, reg_a: u8, reg_b: u8) -> (r: Result<(), VmError>)
        ensures
            (final(self)@, r) == settle(old(self)@, execute_spec(old(self)@, Opcode::Mul, reg_st, reg_a, reg_b)),
    {
        if !Self::regs_ok(reg_st, reg_a, reg_b) {
            return Err(VmError::OutOfRangeAccess);
        }
        let v: u16 = self.regs[reg_a as usize].wrapping_mul(self.regs[reg_b as usize]);
        self.regs[reg_st as usize] = v;
        Ok(())
    }

    /// Registers `reg_st := reg_a - reg_b`, wrapping modulo 2^16.
    pub fn sou(&mut self, reg_st: u8, reg_a: u8, reg_b: u8) -> (r: Result<(), VmError>)
        ensures
            (final(self)@, r) == settle(old(self)@, execute_spec(old(self)@, Opcode::Sub, reg_st, reg_a, reg_b)),
    {
        if !Self::regs_ok(reg_st, reg_a, reg_b) {
            return Err(VmError::OutOfRangeAccess);
        }
        let v: u16 = self.regs[reg_a as usize].wrapping_sub(self.regs[reg_b as usize]);
        self.regs[reg_st as usize] = v;
        Ok(())
    }

    /// Registers `reg_st := 1` if `reg_a == reg_b`, else 0.
    pub fn equ(&mut self, reg_st: u8, reg_a: u8, reg_b: u8) -> (r: Result<(), VmError>)
        ensures
            (final(self)@, r) == settle(old(self)@, execute_spec(old(self)@, Opcode::Equal, reg_st, reg_a, reg_b)),
    {
        if !Self::regs_ok(reg_st, reg_a, reg_b) {
            return Err(VmError::OutOfRangeAccess);
        }
        let v: u16 = if self.regs[reg_a as usize] == self.regs[reg_b as usize] { 1 } else { 0 };
        self.regs[reg_st as usize] = v;
        Ok(())
    }

    /// Registers `reg_st := 1` if `reg_a != reg_b`, else 0.
    pub fn nequ(&mut self, reg_st: u8, reg_a: u8, reg_b: u8) -> (r: Result<(), VmError>)
        ensures
            (final(self)@, r) == settle(old(self)@, execute_spec(old(self)@, Opcode::NotEqual, reg_st, reg_a, reg_b)),
    {
        if !Self::regs_ok(reg_st, reg_a, reg_b) {
            return Err(VmError::OutOfRangeAccess);
        }
        let v: u16 = if self.regs[reg_a as usize] != self.regs[reg_b as usize] { 1 } else { 0 };
        self.regs[reg_st as usize] = v;
        Ok(())
    }

    /// Registers `reg_st := 1` if `reg_a < reg_b`, else 0.
    pub fn inf(&mut self, reg_st: u8, reg_a: u8, reg_b: u8) -> (r: Result<(), VmError>)
        ensures
            (final(self)@, r) == settle(old(self)@, execute_spec(old(self)@, Opcode::Less, reg_st, reg_a, reg_b)),
    {
        if !Self::regs_ok(reg_st, reg_a, reg_b) {
            return Err(VmError::OutOfRangeAccess);
        }
        let v: u16 = if self.regs[reg_a as usize] < self.regs[reg_b as usize] { 1 } else { 0 };
        self.regs[reg_st as usize] = v;
        Ok(())
    }

    /// Registers `reg_st := 1` if `reg_a <= reg_b`, else 0.
    pub fn infe(&mut self, reg_st: u8, reg_a: u8, reg_b: u8) -> (r: Result<(), VmError>)
        ensures
            (final(self)@, r) == settle(old(self)@, execute_spec(old(self)@, Opcode::LessEq, reg_st, reg_a, reg_b)),
    {
        if !Self::regs_ok(reg_st, reg_a, reg_b) {
            return Err(VmError::OutOfRangeAccess);
        }
        let v: u16 = if self.regs[reg_a as usize] <= self.regs[reg_b as usize] { 1 } else { 0 };
        self.regs[reg_st as usize] = v;
        Ok(())
    }

    /// Registers `reg_st := 1` if `reg_a > reg_b`, else 0.
    pub fn sup(&mut self, reg_st: u8, reg_a: u8, reg_b: u8) -> (r: Result<(), VmError>)
        ensures
            (final(self)@, r) == settle(old(self)@, execute_spec(old(self)@, Opcode::Greater, reg_st, reg_a, reg_b)),
    {
        if !Self::regs_ok(reg_st, reg_a, reg_b) {
            return Err(VmError::OutOfRangeAccess);
        }
        let v: u16 = if self.regs[reg_a as usize] > self.regs[reg_b as usize] { 1 } else { 0 };
        self.regs[reg_st as usize] = v;
        Ok(())
    }

    /// Registers `reg_st := 1` if `reg_a >= reg_b`, else 0: a true greater-or-equal
    /// test, distinct from `inf`.
    pub fn supe(&mut self, reg_st: u8, reg_a: u8, reg_b: u8) -> (r: Result<(), VmError>)
        ensures
            (final(self)@, r) == settle(old(self)@, execute_spec(old(self)@, Opcode::GreaterEq, reg_st, reg_a, reg_b)),
    {
        if !Self::regs_ok(reg_st, reg_a, reg_b) {
            return Err(VmError::OutOfRangeAccess);
        }
        let v: u16 = if self.regs[reg_a as usize] >= self.regs[reg_b as usize] { 1 } else { 0 };
        self.regs[reg_st as usize] = v;
        Ok(())
    }

    /// Registers `reg_st := reg_a & reg_b`.
    pub fn and(&mut self, reg_st: u8, reg_a: u8, reg_b: u8) -> (r: Result<(), VmError>)
        ensures
            (final(self)@, r) == settle(old(self)@, execute_spec(old(self)@, Opcode::And, reg_st, reg_a, reg_b)),
    {
        if !Self::regs_ok(reg_st, reg_a, reg_b) {
            return Err(VmError::OutOfRangeAccess);
        }
        let v: u16 = self.regs[reg_a as usize] & self.regs[reg_b as usize];
        self.regs[reg_st as usize] = v;
        Ok(())
    }

    /// Registers `reg_st := reg_a | reg_b`.
    pub fn or(&mut self, reg_st: u8, reg_a: u8, reg_b: u8) -> (r: Result<(), VmError>)
        ensures
            (final(self)@, r) == settle(old(self)@, execute_spec(old(self)@, Opcode::Or, reg_st, reg_a, reg_b)),
    {
        if !Self::regs_ok(reg_st, reg_a, reg_b) {
            return Err(VmError::OutOfRangeAccess);
        }
        let v: u16 = self.regs[reg_a as usize] | self.regs[reg_b as usize];
        self.regs[reg_st as usize] = v;
        Ok(())
    }

    /// Registers `reg_st := reg_a ^ reg_b`.
    pub fn xor(&mut self, reg_st: u8, reg_a: u8, reg_b: u8) -> (r: Result<(), VmError>)
        ensures
            (final(self)@, r) == settle(old(self)@, execute_spec(old(self)@, Opcode::Xor, reg_st, reg_a, reg_b)),
    {
        if !Self::regs_ok(reg_st, reg_a, reg_b) {
            return Err(VmError::OutOfRangeAccess);
        }
        let v: u16 = self.regs[reg_a as usize] ^ self.regs[reg_b as usize];
        self.regs[reg_st as usize] = v;
        Ok(())
    }

    /// Runs instruction `op` with operands `a`, `b`, `c`.
    pub fn execute(&mut self, op: Opcode, a: u8, b: u8, c: u8) -> (r: Result<(), VmError>)
        ensures
            (final(self)@, r) == settle(old(self)@, execute_spec(old(self)@, op, a, b, c)),
    {
        match op {
            Opcode::Nop => self.nop(a, b, c),
            Opcode::Add => self.add(a, b, c),
            Opcode::Mul => self.mul(a, b, c),
            Opcode::Sub => self.sou(a, b, c),
            Opcode::Div => self.div(a, b, c),
            Opcode::CopyReg => self.cop(a, b, c),
            Opcode::LoadImm => self.afc(a, b, c),
            Opcode::Load => self.load(a, b, c),
            Opcode::Store => self.store(a, b, c),
            Opcode::Equal => self.equ(a, b, c),
            Opcode::NotEqual => self.nequ(a, b, c),
            Opcode::Less => self.inf(a, b, c),
            Opcode::LessEq => self.infe(a, b, c),
            Opcode::Greater => self.sup(a, b, c),
            Opcode::GreaterEq => self.supe(a, b, c),
            Opcode::Jmp => self.jmp(a, b, c),
            Opcode::JmpIfZero => self.jmpc(a, b, c),
            Opcode::Jr => self.jr(a, b, c),
            Opcode::JrIfZero => self.jrc(a, b, c),
            Opcode::And => self.and(a, b, c),
            Opcode::Or => self.or(a, b, c),
            Opcode::Xor => self.xor(a, b, c),
            Opcode::Not => self.not(a, b, c),
        }
    }

    /// Fetches the instruction at the program counter, advances the counter past it and
    /// runs it. Once the program has ended, every step reports `EndOfProgram`.
    pub fn tick(&mut self) -> (r: Result<(), VmError>)
        ensures
            (final(self)@, r) == step_spec(old(self)@),
    {
        if self.past_end || self.pc as usize + 4 > self.bin.len() {
            return Err(VmError::EndOfProgram);
        }
        let pc = self.pc as usize;
        let inst = self.bin[pc];
        let oper_a = self.bin[pc + 1];
        let oper_b = self.bin[pc + 2];
        let oper_c = self.bin[pc + 3];
        self.past_end = pc + 4 > u16::MAX as usize;
        self.pc = self.pc.wrapping_add(4);
        match Opcode::decode(inst) {
            Some(op) => self.execute(op, oper_a, oper_b, oper_c),
            None => Err(VmError::InvalidOpcode),
        }
    }
}

} // verus!
