use vstd::prelude::*;

verus! {

/// The instructions of the machine, one variant per entry of the opcode table.
#[derive(Clone, Copy, Debug, PartialEq, Eq, Structural)]
pub enum Opcode {
    Nop,
    Add,
    Mul,
    Sub,
    Div,
    CopyReg,
    LoadImm,
    Load,
    Store,
    Equal,
    NotEqual,
    Less,
    LessEq,
    Greater,
    GreaterEq,
    Jmp,
    JmpIfZero,
    Jr,
    JrIfZero,
    And,
    Or,
    Xor,
    Not,
}

/// Number of entries in the opcode table: bytes at or above this value decode to nothing.
pub const OPCODE_COUNT: u8 = 23;

/// The byte that encodes each instruction.
pub open spec fn code_of(op: Opcode) -> u8 {
    match op {
        Opcode::Nop => 0,
        Opcode::Add => 1,
        Opcode::Mul => 2,
        Opcode::Sub => 3,
        Opcode::Div => 4,
        Opcode::CopyReg => 5,
        Opcode::LoadImm => 6,
        Opcode::Load => 7,
        Opcode::Store => 8,
        Opcode::Equal => 9,
        Opcode::NotEqual => 10,
        Opcode::Less => 11,
        Opcode::LessEq => 12,
        Opcode::Greater => 13,
        Opcode::GreaterEq => 14,
        Opcode::Jmp => 15,
        Opcode::JmpIfZero => 16,
        Opcode::Jr => 17,
        Opcode::JrIfZero => 18,
        Opcode::And => 19,
        Opcode::Or => 20,
        Opcode::Xor => 21,
        Opcode::Not => 22,
    }
}

/// The instruction a byte stands for, if any: the one whose code it is.
pub open spec fn opcode_of(b: u8) -> Option<Opcode> {
    if exists|op: Opcode| code_of(op) == b {
        Some(choose|op: Opcode| code_of(op) == b)
    } else {
        None
    }
}

impl Opcode {
    /// Decodes an opcode byte; bytes outside the table give `None`.
    pub fn decode(b: u8) -> (r: Option<Opcode>)
        ensures
            r == opcode_of(b),
            r is None <==> b >= OPCODE_COUNT,
            r matches Some(op) ==> code_of(op) == b,
    {
        let r = match b {
            0 => Some(Opcode::Nop),
            1 => Some(Opcode::Add),
            2 => Some(Opcode::Mul),
            3 => Some(Opcode::Sub),
            4 => Some(Opcode::Div),
            5 => Some(Opcode::CopyReg),
            6 => Some(Opcode::LoadImm),
            7 => Some(Opcode::Load),
            8 => Some(Opcode::Store),
            9 => Some(Opcode::Equal),
            10 => Some(Opcode::NotEqual),
            11 => Some(Opcode::Less),
            12 => Some(Opcode::LessEq),
            13 => Some(Opcode::Greater),
            14 => Some(Opcode::GreaterEq),
            15 => Some(Opcode::Jmp),
            16 => Some(Opcode::JmpIfZero),
            17 => Some(Opcode::Jr),
            18 => Some(Opcode::JrIfZero),
            19 => Some(Opcode::And),
            20 => Some(Opcode::Or),
            21 => Some(Opcode::Xor),
            22 => Some(Opcode::Not),
            _ => None,
        };
        proof {
            lemma_code_injective();
            match r {
                Some(op) => {
                    assert(code_of(op) == b);
                },
                None => {
                    assert forall|op: Opcode| code_of(op) != b by {
                        assert(code_of(op) < 23);
                    }
                },
            }
        }
        r
    }
}

/// Distinct instructions have distinct codes.
pub proof fn lemma_code_injective()
    ensures
        forall|x: Opcode, y: Opcode| code_of(x) == code_of(y) ==> x == y,
{
}

/// Decoding the code of an instruction gives that instruction back.
pub proof fn lemma_opcode_of_code(op: Opcode)
    ensures
        opcode_of(code_of(op)) == Some(op),
{
    lemma_code_injective();
}

} // verus!
