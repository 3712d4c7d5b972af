use vstd::prelude::*;
use crate::error::{ErrorView, JAPLError};
use crate::text::{chars_of, spells};

verus! {

/// The reserved words of the language: type names, mnemonics, and the names
/// of the register classes and registers.
#[derive(Debug, PartialEq, Eq, Structural, Clone, Copy)]
pub enum Keyword {
    Struct,
    Function,
    End,
    Int8,
    Int16,
    Int32,
    Int64,
    Uint8,
    Uint16,
    Uint32,
    Uint64,
    Float32,
    Float64,
    Character,
    Boolean,
    Add,
    Subtract,
    Multiply,
    Divide,
    Modulus,
    And,
    Or,
    Not,
    Xor,
    Equals,
    NotEquals,
    LessThan,
    GreaterThan,
    LessThanEqualTo,
    GreaterThanEqualTo,
    Increment,
    Decrement,
    LeftShift,
    RightShift,
    Push,
    SetVar,
    Load,
    Unload,
    Move,
    Call,
    CallIf,
    Jump,
    JumpIf,
    RegClassA,
    RegisterA0,
    RegisterA1,
    RegisterA2,
    RegisterA3,
    RegClassB,
    RegisterB0,
    RegisterB1,
    RegisterB2,
    RegisterB3,
    RegClassC,
    RegisterC0,
    RegisterC1,
    RegisterC2,
    RegisterC3,
    RegClassD,
    RegisterD0,
    RegisterD1,
    RegisterD2,
    RegisterD3,
    RegClassF,
    RegisterF0,
    RegisterF1,
    RegisterF2,
    RegisterF3,
    RegClassG,
    RegisterG0,
    RegisterG1,
    RegisterG2,
    RegisterG3,
    RegClassI,
    RegisterI0,
    RegisterI1,
    RegisterI2,
    RegisterI3,
}

/// The keyword that a word spells, if it spells one.
pub open spec fn keyword_of(word: Seq<char>) -> Option<Keyword> {
    if word == "struct"@ {
        Some(Keyword::Struct)
    } else if word == "fn"@ {
        Some(Keyword::Function)
    } else if word == "end"@ {
        Some(Keyword::End)
    } else if word == "int8"@ {
        Some(Keyword::Int8)
    } else if word == "int16"@ {
        Some(Keyword::Int16)
    } else if word == "int32"@ {
        Some(Keyword::Int32)
    } else if word == "int64"@ {
        Some(Keyword::Int64)
    } else if word == "uint8"@ {
        Some(Keyword::Uint8)
    } else if word == "uint16"@ {
        Some(Keyword::Uint16)
    } else if word == "uint32"@ {
        Some(Keyword::Uint32)
    } else if word == "uint64"@ {
        Some(Keyword::Uint64)
    } else if word == "float32"@ {
        Some(Keyword::Float32)
    } else if word == "float64"@ {
        Some(Keyword::Float64)
    } else if word == "char"@ {
        Some(Keyword::Character)
    } else if word == "bool"@ {
        Some(Keyword::Boolean)
    } else if word == "add"@ {
        Some(Keyword::Add)
    } else if word == "sub"@ {
        Some(Keyword::Subtract)
    } else if word == "mul"@ {
        Some(Keyword::Multiply)
    } else if word == "div"@ {
        Some(Keyword::Divide)
    } else if word == "mod"@ {
        Some(Keyword::Modulus)
    } else if word == "and"@ {
        Some(Keyword::And)
    } else if word == "or"@ {
        Some(Keyword::Or)
    } else if word == "not"@ {
        Some(Keyword::Not)
    } else if word == "xor"@ {
        Some(Keyword::Xor)
    } else if word == "eq"@ {
        Some(Keyword::Equals)
    } else if word == "ne"@ {
        Some(Keyword::NotEquals)
    } else if word == "lt"@ {
        Some(Keyword::LessThan)
    } else if word == "le"@ {
        Some(Keyword::LessThanEqualTo)
    } else if word == "gt"@ {
        Some(Keyword::GreaterThan)
    } else if word == "ge"@ {
        Some(Keyword::GreaterThanEqualTo)
    } else if word == "push"@ {
        Some(Keyword::Push)
    } else if word == "set"@ {
        Some(Keyword::SetVar)
    } else if word == "load"@ {
        Some(Keyword::Load)
    } else if word == "unload"@ {
        Some(Keyword::Unload)
    } else if word == "move"@ {
        Some(Keyword::Move)
    } else if word == "call"@ {
        Some(Keyword::Call)
    } else if word == "callif"@ {
        Some(Keyword::CallIf)
    } else if word == "jump"@ {
        Some(Keyword::Jump)
    } else if word == "jumpif"@ {
        Some(Keyword::JumpIf)
    } else if word == "a"@ {
        Some(Keyword::RegClassA)
    } else if word == "a0"@ {
        Some(Keyword::RegisterA0)
    } else if word == "a1"@ {
        Some(Keyword::RegisterA1)
    } else if word == "a2"@ {
        Some(Keyword::RegisterA2)
    } else if word == "a3"@ {
        Some(Keyword::RegisterA3)
    } else if word == "b"@ {
        Some(Keyword::RegClassB)
    } else if word == "b0"@ {
        Some(Keyword::RegisterB0)
    } else if word == "b1"@ {
        Some(Keyword::RegisterB1)
    } else if word == "b2"@ {
        Some(Keyword::RegisterB2)
    } else if word == "b3"@ {
        Some(Keyword::RegisterB3)
    } else if word == "c"@ {
        Some(Keyword::RegClassC)
    } else if word == "c0"@ {
        Some(Keyword::RegisterC0)
    } else if word == "c1"@ {
        Some(Keyword::RegisterC1)
    } else if word == "c2"@ {
        Some(Keyword::RegisterC2)
    } else if word == "c3"@ {
        Some(Keyword::RegisterC3)
    } else if word == "d"@ {
        Some(Keyword::RegClassD)
    } else if word == "d0"@ {
        Some(Keyword::RegisterD0)
    } else if word == "d1"@ {
        Some(Keyword::RegisterD1)
    } else if word == "d2"@ {
        Some(Keyword::RegisterD2)
    } else if word == "d3"@ {
        Some(Keyword::RegisterD3)
    } else if word == "f"@ {
        Some(Keyword::RegClassF)
    } else if word == "f0"@ {
        Some(Keyword::RegisterF0)
    } else if word == "f1"@ {
        Some(Keyword::RegisterF1)
    } else if word == "f2"@ {
        Some(Keyword::RegisterF2)
    } else if word == "f3"@ {
        Some(Keyword::RegisterF3)
    } else if word == "g"@ {
        Some(Keyword::RegClassG)
    } else if word == "g0"@ {
        Some(Keyword::RegisterG0)
    } else if word == "g1"@ {
        Some(Keyword::RegisterG1)
    } else if word == "g2"@ {
        Some(Keyword::RegisterG2)
    } else if word == "g3"@ {
        Some(Keyword::RegisterG3)
    } else if word == "i"@ {
        Some(Keyword::RegClassI)
    } else if word == "i0"@ {
        Some(Keyword::RegisterI0)
    } else if word == "i1"@ {
        Some(Keyword::RegisterI1)
    } else if word == "i2"@ {
        Some(Keyword::RegisterI2)
    } else if word == "i3"@ {
        Some(Keyword::RegisterI3)
    } else if word == "inc"@ {
        Some(Keyword::Increment)
    } else if word == "dec"@ {
        Some(Keyword::Decrement)
    } else if word == "ls"@ {
        Some(Keyword::LeftShift)
    } else if word == "rs"@ {
        Some(Keyword::RightShift)
    } else {
        None
    }
}

impl Keyword {
    /// The keyword that the characters spell, if they spell one.
    pub fn lookup(word: &Vec<char>) -> (r: Option<Keyword>)
        ensures
            r == keyword_of(word@),
    {
        if spells(word, "struct") {
            Some(Keyword::Struct)
        } else if spells(word, "fn") {
            Some(Keyword::Function)
        } else if spells(word, "end") {
            Some(Keyword::End)
        } else if spells(word, "int8") {
            Some(Keyword::Int8)
        } else if spells(word, "int16") {
            Some(Keyword::Int16)
        } else if spells(word, "int32") {
            Some(Keyword::Int32)
        } else if spells(word, "int64") {
            Some(Keyword::Int64)
        } else if spells(word, "uint8") {
            Some(Keyword::Uint8)
        } else if spells(word, "uint16") {
            Some(Keyword::Uint16)
        } else if spells(word, "uint32") {
            Some(Keyword::Uint32)
        } else if spells(word, "uint64") {
            Some(Keyword::Uint64)
        } else if spells(word, "float32") {
            Some(Keyword::Float32)
        } else if spells(word, "float64") {
            Some(Keyword::Float64)
        } else if spells(word, "char") {
            Some(Keyword::Character)
        } else if spells(word, "bool") {
            Some(Keyword::Boolean)
        } else if spells(word, "add") {
            Some(Keyword::Add)
        } else if spells(word, "sub") {
            Some(Keyword::Subtract)
        } else if spells(word, "mul") {
            Some(Keyword::Multiply)
        } else if spells(word, "div") {
            Some(Keyword::Divide)
        } else if spells(word, "mod") {
            Some(Keyword::Modulus)
        } else if spells(word, "and") {
            Some(Keyword::And)
        } else if spells(word, "or") {
            Some(Keyword::Or)
        } else if spells(word, "not") {
            Some(Keyword::Not)
        } else if spells(word, "xor") {
            Some(Keyword::Xor)
        } else if spells(word, "eq") {
            Some(Keyword::Equals)
        } else if spells(word, "ne") {
            Some(Keyword::NotEquals)
        } else if spells(word, "lt") {
            Some(Keyword::LessThan)
        } else if spells(word, "le") {
            Some(Keyword::LessThanEqualTo)
        } else if spells(word, "gt") {
            Some(Keyword::GreaterThan)
        } else if spells(word, "ge") {
            Some(Keyword::GreaterThanEqualTo)
        } else if spells(word, "push") {
            Some(Keyword::Push)
        } else if spells(word, "set") {
            Some(Keyword::SetVar)
        } else if spells(word, "load") {
            Some(Keyword::Load)
        } else if spells(word, "unload") {
            Some(Keyword::Unload)
        } else if spells(word, "move") {
            Some(Keyword::Move)
        } else if spells(word, "call") {
            Some(Keyword::Call)
        } else if spells(word, "callif") {
            Some(Keyword::CallIf)
        } else if spells(word, "jump") {
            Some(Keyword::Jump)
        } else if spells(word, "jumpif") {
            Some(Keyword::JumpIf)
        } else if spells(word, "a") {
            Some(Keyword::RegClassA)
        } else if spells(word, "a0") {
            Some(Keyword::RegisterA0)
        } else if spells(word, "a1") {
            Some(Keyword::RegisterA1)
        } else if spells(word, "a2") {
            Some(Keyword::RegisterA2)
        } else if spells(word, "a3") {
            Some(Keyword::RegisterA3)
        } else if spells(word, "b") {
            Some(Keyword::RegClassB)
        } else if spells(word, "b0") {
            Some(Keyword::RegisterB0)
        } else if spells(word, "b1") {
            Some(Keyword::RegisterB1)
        } else if spells(word, "b2") {
            Some(Keyword::RegisterB2)
        } else if spells(word, "b3") {
            Some(Keyword::RegisterB3)
        } else if spells(word, "c") {
            Some(Keyword::RegClassC)
        } else if spells(word, "c0") {
            Some(Keyword::RegisterC0)
        } else if spells(word, "c1") {
            Some(Keyword::RegisterC1)
        } else if spells(word, "c2") {
            Some(Keyword::RegisterC2)
        } else if spells(word, "c3") {
            Some(Keyword::RegisterC3)
        } else if spells(word, "d") {
            Some(Keyword::RegClassD)
        } else if spells(word, "d0") {
            Some(Keyword::RegisterD0)
        } else if spells(word, "d1") {
            Some(Keyword::RegisterD1)
        } else if spells(word, "d2") {
            Some(Keyword::RegisterD2)
        } else if spells(word, "d3") {
            Some(Keyword::RegisterD3)
        } else if spells(word, "f") {
            Some(Keyword::RegClassF)
        } else if spells(word, "f0") {
            Some(Keyword::RegisterF0)
        } else if spells(word, "f1") {
            Some(Keyword::RegisterF1)
        } else if spells(word, "f2") {
            Some(Keyword::RegisterF2)
        } else if spells(word, "f3") {
            Some(Keyword::RegisterF3)
        } else if spells(word, "g") {
            Some(Keyword::RegClassG)
        } else if spells(word, "g0") {
            Some(Keyword::RegisterG0)
        } else if spells(word, "g1") {
            Some(Keyword::RegisterG1)
        } else if spells(word, "g2") {
            Some(Keyword::RegisterG2)
        } else if spells(word, "g3") {
            Some(Keyword::RegisterG3)
        } else if spells(word, "i") {
            Some(Keyword::RegClassI)
        } else if spells(word, "i0") {
            Some(Keyword::RegisterI0)
        } else if spells(word, "i1") {
            Some(Keyword::RegisterI1)
        } else if spells(word, "i2") {
            Some(Keyword::RegisterI2)
        } else if spells(word, "i3") {
            Some(Keyword::RegisterI3)
        } else if spells(word, "inc") {
            Some(Keyword::Increment)
        } else if spells(word, "dec") {
            Some(Keyword::Decrement)
        } else if spells(word, "ls") {
            Some(Keyword::LeftShift)
        } else if spells(word, "rs") {
            Some(Keyword::RightShift)
        } else {
            None
        }
    }

    /// Reads a keyword. A word that spells none is an invalid identifier.
    pub fn try_from(value: &str) -> (r: Result<Keyword, JAPLError>)
        ensures
            match r {
                Ok(keyword) => keyword_of(value@) == Some(keyword),
                Err(e) => keyword_of(value@) is None && e@ == ErrorView::InvalidIdentifier(value@),
            },
    {
        let word = chars_of(value);
        match Keyword::lookup(&word) {
            Some(keyword) => Ok(keyword),
            None => Err(JAPLError::InvalidIdentifier(value.to_owned())),
        }
    }
}

} // verus!
