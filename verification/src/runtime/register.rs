use vstd::prelude::*;
use vstd::array::spec_array_update;
use super::alu::{
    binary_permitted, compare, compare_lanes, integer_binary, integer_unary, operate_binary,
    operate_unary, permits_binary, permits_unary, unary_permitted,
};
use super::float::{float_one, float_operator, FloatOperator, FloatRequest};
use super::operation::{BinOperator, UnOperator};
use crate::error::RuntimeError;
use crate::lexer::keyword::Keyword;

verus! {

/// The 28 registers: a class letter and a lane number.
#[derive(Debug, PartialEq, Eq, Structural, Clone, Copy)]
pub enum RegisterName {
    A0,
    A1,
    A2,
    A3,
    B0,
    B1,
    B2,
    B3,
    C0,
    C1,
    C2,
    C3,
    D0,
    D1,
    D2,
    D3,
    F0,
    F1,
    F2,
    F3,
    G0,
    G1,
    G2,
    G3,
    I0,
    I1,
    I2,
    I3,
}

/// The seven register classes. `A` to `D` hold unsigned integers of 1, 2, 4
/// and 8 bytes, `F` and `G` hold IEEE-754 numbers of 4 and 8 bytes, and `I`
/// holds truth values.
#[derive(Debug, PartialEq, Eq, Structural, Clone, Copy)]
pub enum RegisterClass {
    A,
    B,
    C,
    D,
    F,
    G,
    I,
}

/// The register that a keyword names, if it names one.
pub open spec fn register_of(keyword: Keyword) -> Option<RegisterName> {
    match keyword {
        Keyword::RegisterA0 => Some(RegisterName::A0),
        Keyword::RegisterA1 => Some(RegisterName::A1),
        Keyword::RegisterA2 => Some(RegisterName::A2),
        Keyword::RegisterA3 => Some(RegisterName::A3),
        Keyword::RegisterB0 => Some(RegisterName::B0),
        Keyword::RegisterB1 => Some(RegisterName::B1),
        Keyword::RegisterB2 => Some(RegisterName::B2),
        Keyword::RegisterB3 => Some(RegisterName::B3),
        Keyword::RegisterC0 => Some(RegisterName::C0),
        Keyword::RegisterC1 => Some(RegisterName::C1),
        Keyword::RegisterC2 => Some(RegisterName::C2),
        Keyword::RegisterC3 => Some(RegisterName::C3),
        Keyword::RegisterD0 => Some(RegisterName::D0),
        Keyword::RegisterD1 => Some(RegisterName::D1),
        Keyword::RegisterD2 => Some(RegisterName::D2),
        Keyword::RegisterD3 => Some(RegisterName::D3),
        Keyword::RegisterF0 => Some(RegisterName::F0),
        Keyword::RegisterF1 => Some(RegisterName::F1),
        Keyword::RegisterF2 => Some(RegisterName::F2),
        Keyword::RegisterF3 => Some(RegisterName::F3),
        Keyword::RegisterG0 => Some(RegisterName::G0),
        Keyword::RegisterG1 => Some(RegisterName::G1),
        Keyword::RegisterG2 => Some(RegisterName::G2),
        Keyword::RegisterG3 => Some(RegisterName::G3),
        Keyword::RegisterI0 => Some(RegisterName::I0),
        Keyword::RegisterI1 => Some(RegisterName::I1),
        Keyword::RegisterI2 => Some(RegisterName::I2),
        Keyword::RegisterI3 => Some(RegisterName::I3),
        _ => None,
    }
}

/// The register class that a keyword names, if it names one.
pub open spec fn class_of(keyword: Keyword) -> Option<RegisterClass> {
    match keyword {
        Keyword::RegClassA => Some(RegisterClass::A),
        Keyword::RegClassB => Some(RegisterClass::B),
        Keyword::RegClassC => Some(RegisterClass::C),
        Keyword::RegClassD => Some(RegisterClass::D),
        Keyword::RegClassF => Some(RegisterClass::F),
        Keyword::RegClassG => Some(RegisterClass::G),
        Keyword::RegClassI => Some(RegisterClass::I),
        _ => None,
    }
}

impl RegisterClass {
    /// Reads a register class from the keyword that names it.
    pub fn try_from(value: Keyword) -> (r: Result<RegisterClass, ()>)
        ensures
            match r {
                Ok(class) => class_of(value) == Some(class),
                Err(_) => class_of(value) is None,
            },
    {
        match value {
            Keyword::RegClassA => Ok(RegisterClass::A),
            Keyword::RegClassB => Ok(RegisterClass::B),
            Keyword::RegClassC => Ok(RegisterClass::C),
            Keyword::RegClassD => Ok(RegisterClass::D),
            Keyword::RegClassF => Ok(RegisterClass::F),
            Keyword::RegClassG => Ok(RegisterClass::G),
            Keyword::RegClassI => Ok(RegisterClass::I),
            _ => Err(()),
        }
    }

    /// The width of a lane of the class in bytes.
    pub open spec fn spec_size(self) -> nat {
        match self {
            RegisterClass::A | RegisterClass::I => 1,
            RegisterClass::B => 2,
            RegisterClass::C | RegisterClass::F => 4,
            RegisterClass::D | RegisterClass::G => 8,
        }
    }

    /// The width of a lane of the class in bits.
    pub open spec fn bits(self) -> u64 {
        match self {
            RegisterClass::A | RegisterClass::I => 8,
            RegisterClass::B => 16,
            RegisterClass::C | RegisterClass::F => 32,
            RegisterClass::D | RegisterClass::G => 64,
        }
    }

    /// The number of bit patterns a lane of the class can hold: two to the
    /// power of its width in bits.
    pub open spec fn modulus(self) -> int {
        match self {
            RegisterClass::A | RegisterClass::I => 0x100,
            RegisterClass::B => 0x1_0000,
            RegisterClass::C | RegisterClass::F => 0x1_0000_0000,
            RegisterClass::D | RegisterClass::G => 0x1_0000_0000_0000_0000,
        }
    }

    /// The classes `A` to `D`.
    pub open spec fn is_integer(self) -> bool {
        self == RegisterClass::A || self == RegisterClass::B || self == RegisterClass::C || self
            == RegisterClass::D
    }

    /// The classes `F` and `G`.
    pub open spec fn is_float(self) -> bool {
        self == RegisterClass::F || self == RegisterClass::G
    }

    /// Whether the class holds unsigned integers.
    pub fn integer(&self) -> (r: bool)
        ensures
            r == self.is_integer(),
    {
        match self {
            RegisterClass::A | RegisterClass::B | RegisterClass::C | RegisterClass::D => true,
            _ => false,
        }
    }

    /// Whether the class holds IEEE-754 numbers.
    pub fn float(&self) -> (r: bool)
        ensures
            r == self.is_float(),
    {
        match self {
            RegisterClass::F | RegisterClass::G => true,
            _ => false,
        }
    }

    /// The width of a lane of the class in bytes.
    pub fn size(&self) -> (r: usize)
        ensures
            r == self.spec_size(),
    {
        match self {
            RegisterClass::A | RegisterClass::I => 1,
            RegisterClass::B => 2,
            RegisterClass::C | RegisterClass::F => 4,
            RegisterClass::D | RegisterClass::G => 8,
        }
    }
}

impl RegisterName {
    /// Reads a register from the keyword that names it.
    pub fn try_from(value: Keyword) -> (r: Result<RegisterName, ()>)
        ensures
            match r {
                Ok(reg) => register_of(value) == Some(reg),
                Err(_) => register_of(value) is None,
            },
    {
        match value {
            Keyword::RegisterA0 => Ok(RegisterName::A0),
            Keyword::RegisterA1 => Ok(RegisterName::A1),
            Keyword::RegisterA2 => Ok(RegisterName::A2),
            Keyword::RegisterA3 => Ok(RegisterName::A3),
            Keyword::RegisterB0 => Ok(RegisterName::B0),
            Keyword::RegisterB1 => Ok(RegisterName::B1),
            Keyword::RegisterB2 => Ok(RegisterName::B2),
            Keyword::RegisterB3 => Ok(RegisterName::B3),
            Keyword::RegisterC0 => Ok(RegisterName::C0),
            Keyword::RegisterC1 => Ok(RegisterName::C1),
            Keyword::RegisterC2 => Ok(RegisterName::C2),
            Keyword::RegisterC3 => Ok(RegisterName::C3),
            Keyword::RegisterD0 => Ok(RegisterName::D0),
            Keyword::RegisterD1 => Ok(RegisterName::D1),
            Keyword::RegisterD2 => Ok(RegisterName::D2),
            Keyword::RegisterD3 => Ok(RegisterName::D3),
            Keyword::RegisterF0 => Ok(RegisterName::F0),
            Keyword::RegisterF1 => Ok(RegisterName::F1),
            Keyword::RegisterF2 => Ok(RegisterName::F2),
            Keyword::RegisterF3 => Ok(RegisterName::F3),
            Keyword::RegisterG0 => Ok(RegisterName::G0),
            Keyword::RegisterG1 => Ok(RegisterName::G1),
            Keyword::RegisterG2 => Ok(RegisterName::G2),
            Keyword::RegisterG3 => Ok(RegisterName::G3),
            Keyword::RegisterI0 => Ok(RegisterName::I0),
            Keyword::RegisterI1 => Ok(RegisterName::I1),
            Keyword::RegisterI2 => Ok(RegisterName::I2),
            Keyword::RegisterI3 => Ok(RegisterName::I3),
            _ => Err(()),
        }
    }

    /// The class the register belongs to.
    pub open spec fn spec_class(self) -> RegisterClass {
        match self {
            RegisterName::A0 | RegisterName::A1 | RegisterName::A2 | RegisterName::A3 => {
                RegisterClass::A
            },
            RegisterName::B0 | RegisterName::B1 | RegisterName::B2 | RegisterName::B3 => {
                RegisterClass::B
            },
            RegisterName::C0 | RegisterName::C1 | RegisterName::C2 | RegisterName::C3 => {
                RegisterClass::C
            },
            RegisterName::D0 | RegisterName::D1 | RegisterName::D2 | RegisterName::D3 => {
                RegisterClass::D
            },
            RegisterName::F0 | RegisterName::F1 | RegisterName::F2 | RegisterName::F3 => {
                RegisterClass::F
            },
            RegisterName::G0 | RegisterName::G1 | RegisterName::G2 | RegisterName::G3 => {
                RegisterClass::G
            },
            RegisterName::I0 | RegisterName::I1 | RegisterName::I2 | RegisterName::I3 => {
                RegisterClass::I
            },
        }
    }

    /// The lane of its class that the register names.
    pub open spec fn spec_index(self) -> int {
        match self {
            RegisterName::A0
            | RegisterName::B0
            | RegisterName::C0
            | RegisterName::D0
            | RegisterName::F0
            | RegisterName::G0
            | RegisterName::I0 => 0,
            RegisterName::A1
            | RegisterName::B1
            | RegisterName::C1
            | RegisterName::D1
            | RegisterName::F1
            | RegisterName::G1
            | RegisterName::I1 => 1,
            RegisterName::A2
            | RegisterName::B2
            | RegisterName::C2
            | RegisterName::D2
            | RegisterName::F2
            | RegisterName::G2
            | RegisterName::I2 => 2,
            RegisterName::A3
            | RegisterName::B3
            | RegisterName::C3
            | RegisterName::D3
            | RegisterName::F3
            | RegisterName::G3
            | RegisterName::I3 => 3,
        }
    }

    /// The width of the register in bytes.
    pub open spec fn spec_size(self) -> nat {
        self.spec_class().spec_size()
    }

    /// The class the register belongs to.
    pub fn register_class(&self) -> (r: RegisterClass)
        ensures
            r == self.spec_class(),
    {
        match self {
            RegisterName::A0 | RegisterName::A1 | RegisterName::A2 | RegisterName::A3 => {
                RegisterClass::A
            },
            RegisterName::B0 | RegisterName::B1 | RegisterName::B2 | RegisterName::B3 => {
                RegisterClass::B
            },
            RegisterName::C0 | RegisterName::C1 | RegisterName::C2 | RegisterName::C3 => {
                RegisterClass::C
            },
            RegisterName::D0 | RegisterName::D1 | RegisterName::D2 | RegisterName::D3 => {
                RegisterClass::D
            },
            RegisterName::F0 | RegisterName::F1 | RegisterName::F2 | RegisterName::F3 => {
                RegisterClass::F
            },
            RegisterName::G0 | RegisterName::G1 | RegisterName::G2 | RegisterName::G3 => {
                RegisterClass::G
            },
            RegisterName::I0 | RegisterName::I1 | RegisterName::I2 | RegisterName::I3 => {
                RegisterClass::I
            },
        }
    }

    /// The width of the register in bytes.
    pub fn size(&self) -> (r: usize)
        ensures
            r == self.spec_size(),
            r == 1 || r == 2 || r == 4 || r == 8,
    {
        self.register_class().size()
    }

    /// The lane of its class that the register names.
    pub fn index(&self) -> (r: usize)
        ensures
            r == self.spec_index(),
            r < 4,
    {
        match self {
            RegisterName::A0
            | RegisterName::B0
            | RegisterName::C0
            | RegisterName::D0
            | RegisterName::F0
            | RegisterName::G0
            | RegisterName::I0 => 0,
            RegisterName::A1
            | RegisterName::B1
            | RegisterName::C1
            | RegisterName::D1
            | RegisterName::F1
            | RegisterName::G1
            | RegisterName::I1 => 1,
            RegisterName::A2
            | RegisterName::B2
            | RegisterName::C2
            | RegisterName::D2
            | RegisterName::F2
            | RegisterName::G2
            | RegisterName::I2 => 2,
            RegisterName::A3
            | RegisterName::B3
            | RegisterName::C3
            | RegisterName::D3
            | RegisterName::F3
            | RegisterName::G3
            | RegisterName::I3 => 3,
        }
    }
}

/// What an operation on the register file came to.
#[derive(Debug, PartialEq, Eq, Structural, Clone, Copy)]
pub enum Outcome {
    /// The operation is complete.
    Done,
    /// The operation is defined, but it is IEEE-754 arithmetic, which the
    /// machine leaves to its host: nothing has changed yet, and the result
    /// of the request is to be handed to `Register::store_float`.
    Float(FloatRequest),
}

/// The register file: seven classes of four lanes each. The lanes of `F` and
/// `G` hold the bit patterns of their numbers.
#[derive(Debug, PartialEq, Eq, Clone, Copy)]
pub struct Register {
    pub a: [u8; 4],
    pub b: [u16; 4],
    pub c: [u32; 4],
    pub d: [u64; 4],
    pub f: [u32; 4],
    pub g: [u64; 4],
    pub i: [bool; 4],
}

impl Register {
    /// The bit pattern in a lane, as an unsigned number; a truth value counts
    /// as one or zero.
    pub open spec fn lane(self, reg: RegisterName) -> u64 {
        let k = reg.spec_index();
        match reg.spec_class() {
            RegisterClass::A => self.a@[k] as u64,
            RegisterClass::B => self.b@[k] as u64,
            RegisterClass::C => self.c@[k] as u64,
            RegisterClass::D => self.d@[k],
            RegisterClass::F => self.f@[k] as u64,
            RegisterClass::G => self.g@[k],
            RegisterClass::I => if self.i@[k] {
                1
            } else {
                0
            },
        }
    }

    /// The register file with the low bits of `value` put into one lane and
    /// every other lane as it was; a truth-value lane becomes true exactly
    /// when `value` is not zero.
    pub open spec fn store(self, reg: RegisterName, value: u64) -> Register {
        let k = reg.spec_index();
        match reg.spec_class() {
            RegisterClass::A => Register {
                a: spec_array_update(self.a, k, (value % 0x100) as u8),
                ..self
            },
            RegisterClass::B => Register {
                b: spec_array_update(self.b, k, (value % 0x1_0000) as u16),
                ..self
            },
            RegisterClass::C => Register {
                c: spec_array_update(self.c, k, (value % 0x1_0000_0000) as u32),
                ..self
            },
            RegisterClass::D => Register { d: spec_array_update(self.d, k, value), ..self },
            RegisterClass::F => Register {
                f: spec_array_update(self.f, k, (value % 0x1_0000_0000) as u32),
                ..self
            },
            RegisterClass::G => Register { g: spec_array_update(self.g, k, value), ..self },
            RegisterClass::I => Register { i: spec_array_update(self.i, k, value != 0), ..self },
        }
    }

    /// Every lane is zero, or false.
    pub open spec fn is_cleared(self) -> bool {
        forall|reg: RegisterName| #[trigger] self.lane(reg) == 0
    }

    /// A register file with every lane zero.
    pub fn new() -> (r: Register)
        ensures
            r.is_cleared(),
    {
        Register {
            a: [0u8;4],
            b: [0u16;4],
            c: [0u32;4],
            d: [0u64;4],
            f: [0u32;4],
            g: [0u64;4],
            i: [false;4],
        }
    }

    /// Reads the bit pattern of a lane.
    pub fn read(&self, reg: RegisterName) -> (r: u64)
        ensures
            r == self.lane(reg),
            r < reg.spec_class().modulus(),
    {
        let k = reg.index();
        match reg.register_class() {
            RegisterClass::A => self.a[k] as u64,
            RegisterClass::B => self.b[k] as u64,
            RegisterClass::C => self.c[k] as u64,
            RegisterClass::D => self.d[k],
            RegisterClass::F => self.f[k] as u64,
            RegisterClass::G => self.g[k],
            RegisterClass::I => if self.i[k] {
                1
            } else {
                0
            },
        }
    }

    /// Puts the low bits of `value` into a lane.
    pub fn write(&mut self, reg: RegisterName, value: u64)
        ensures
            *final(self) == old(self).store(reg, value),
    {
        let k = reg.index();
        match reg.register_class() {
            RegisterClass::A => {
                self.a[k] = (value % 0x100) as u8;
                assert(self.a =~= spec_array_update(old(self).a, k as int, (value % 0x100) as u8));
            },
            RegisterClass::B => {
                self.b[k] = (value % 0x1_0000) as u16;
                assert(self.b =~= spec_array_update(
                    old(self).b,
                    k as int,
                    (value % 0x1_0000) as u16,
                ));
            },
            RegisterClass::C => {
                self.c[k] = (value % 0x1_0000_0000) as u32;
                assert(self.c =~= spec_array_update(
                    old(self).c,
                    k as int,
                    (value % 0x1_0000_0000) as u32,
                ));
            },
            RegisterClass::D => {
                self.d[k] = value;
                assert(self.d =~= spec_array_update(old(self).d, k as int, value));
            },
            RegisterClass::F => {
                self.f[k] = (value % 0x1_0000_0000) as u32;
                assert(self.f =~= spec_array_update(
                    old(self).f,
                    k as int,
                    (value % 0x1_0000_0000) as u32,
                ));
            },
            RegisterClass::G => {
                self.g[k] = value;
                assert(self.g =~= spec_array_update(old(self).g, k as int, value));
            },
            RegisterClass::I => {
                self.i[k] = value != 0;
                assert(self.i =~= spec_array_update(old(self).i, k as int, value != 0));
            },
        }
    }

    /// What a binary operation comes to, before anything is written.
    pub open spec fn binary_outcome(
        self,
        op: BinOperator,
        src1: RegisterName,
        src2: RegisterName,
        dst: RegisterName,
    ) -> Result<Outcome, RuntimeError> {
        let class = src1.spec_class();
        if !permits_binary(op, class, src2.spec_class(), dst.spec_class()) {
            Err(RuntimeError::OperationError)
        } else if op.is_comparison() {
            Ok(Outcome::Done)
        } else if class.is_float() {
            Ok(
                Outcome::Float(
                    FloatRequest {
                        op: float_operator(op),
                        lhs: self.lane(src1),
                        rhs: self.lane(src2),
                        dst,
                    },
                ),
            )
        } else if (op == BinOperator::Divide || op == BinOperator::Modulus) && self.lane(src2)
            == 0 {
            Err(RuntimeError::DivisionByZero)
        } else {
            Ok(Outcome::Done)
        }
    }

    /// The register file after a binary operation: where the operation is
    /// complete, the destination lane holds its result; in every other case
    /// nothing has changed.
    pub open spec fn after_binary(
        self,
        op: BinOperator,
        src1: RegisterName,
        src2: RegisterName,
        dst: RegisterName,
    ) -> Register {
        let class = src1.spec_class();
        if self.binary_outcome(op, src1, src2, dst) != Ok::<Outcome, RuntimeError>(Outcome::Done) {
            self
        } else if op.is_comparison() {
            self.store(
                dst,
                if compare(op, class, self.lane(src1), self.lane(src2)) {
                    1
                } else {
                    0
                },
            )
        } else {
            self.store(dst, integer_binary(op, class, self.lane(src1), self.lane(src2)))
        }
    }

    /// What a unary operation comes to, before anything is written. An
    /// increment or a decrement of a lane of `F` or `G` becomes the request
    /// to add the number one to it, or to subtract it.
    pub open spec fn unary_outcome(self, op: UnOperator, src: RegisterName, dst: RegisterName) -> Result<
        Outcome,
        RuntimeError,
    > {
        let class = src.spec_class();
        if !permits_unary(op, class, dst.spec_class()) {
            Err(RuntimeError::OperationError)
        } else if class.is_float() {
            Ok(
                Outcome::Float(
                    FloatRequest {
                        op: if op == UnOperator::Increment {
                            FloatOperator::Add
                        } else {
                            FloatOperator::Subtract
                        },
                        lhs: self.lane(src),
                        rhs: float_one(class),
                        dst,
                    },
                ),
            )
        } else {
            Ok(Outcome::Done)
        }
    }

    /// The register file after a unary operation.
    pub open spec fn after_unary(self, op: UnOperator, src: RegisterName, dst: RegisterName) -> Register {
        if self.unary_outcome(op, src, dst) != Ok::<Outcome, RuntimeError>(Outcome::Done) {
            self
        } else {
            self.store(dst, integer_unary(op, src.spec_class(), self.lane(src)))
        }
    }

    /// Applies a unary operator to the lane `src` and writes the result to
    /// the lane `dst`. A combination of operator and classes that the machine
    /// does not define is refused with `OperationError`.
    pub fn un_operate(&mut self, op: UnOperator, src: RegisterName, dst: RegisterName) -> (r: Result<
        Outcome,
        RuntimeError,
    >)
        ensures
            r == old(self).unary_outcome(op, src, dst),
            *final(self) == old(self).after_unary(op, src, dst),
    {
        let class = src.register_class();
        if !unary_permitted(op, class, dst.register_class()) {
            return Err(RuntimeError::OperationError);
        }
        let x = self.read(src);
        if class.float() {
            let request = FloatRequest {
                op: match op {
                    UnOperator::Increment => FloatOperator::Add,
                    _ => FloatOperator::Subtract,
                },
                lhs: x,
                rhs: match class {
                    RegisterClass::F => 0x3f80_0000,
                    _ => 0x3ff0_0000_0000_0000,
                },
                dst,
            };
            return Ok(Outcome::Float(request));
        }
        let value = operate_unary(op, class, x);
        self.write(dst, value);
        Ok(Outcome::Done)
    }

    /// Applies a binary operator to the lanes `src1` and `src2` and writes
    /// the result to the lane `dst`. A combination of operator and classes
    /// that the machine does not define is refused with `OperationError`, an
    /// integer division or remainder by zero with `DivisionByZero`.
    pub fn bin_operate(
        &mut self,
        op: BinOperator,
        src1: RegisterName,
        src2: RegisterName,
        dst: RegisterName,
    ) -> (r: Result<Outcome, RuntimeError>)
        ensures
            r == old(self).binary_outcome(op, src1, src2, dst),
            *final(self) == old(self).after_binary(op, src1, src2, dst),
    {
        let class = src1.register_class();
        if !binary_permitted(op, class, src2.register_class(), dst.register_class()) {
            return Err(RuntimeError::OperationError);
        }
        let x = self.read(src1);
        let y = self.read(src2);
        if op.comparison() {
            let truth = compare_lanes(op, class, x, y);
            self.write(dst, if truth {
                1
            } else {
                0
            });
            return Ok(Outcome::Done);
        }
        if class.float() {
            let request = FloatRequest {
                op: match op {
                    BinOperator::Subtract => FloatOperator::Subtract,
                    BinOperator::Multiply => FloatOperator::Multiply,
                    BinOperator::Divide => FloatOperator::Divide,
                    _ => FloatOperator::Add,
                },
                lhs: x,
                rhs: y,
                dst,
            };
            return Ok(Outcome::Float(request));
        }
        match operate_binary(op, class, x, y) {
            Ok(value) => {
                self.write(dst, value);
                Ok(Outcome::Done)
            },
            Err(e) => Err(e),
        }
    }

    /// The register file after the host has answered a request: the low bits
    /// of `bits` stand in the lane `dst` where that is a lane of `F` or `G`.
    pub open spec fn after_float(self, dst: RegisterName, bits: u64) -> Register {
        if dst.spec_class().is_float() {
            self.store(dst, bits)
        } else {
            self
        }
    }

    /// Writes the bit pattern that the host computed for a request into the
    /// lane `dst`. A lane of another class than `F` or `G` is refused with
    /// `OperationError`.
    pub fn store_float(&mut self, dst: RegisterName, bits: u64) -> (r: Result<(), RuntimeError>)
        ensures
            r is Ok <==> dst.spec_class().is_float(),
            r is Err ==> r == Err::<(), RuntimeError>(RuntimeError::OperationError),
            *final(self) == old(self).after_float(dst, bits),
    {
        if dst.register_class().float() {
            self.write(dst, bits);
            Ok(())
        } else {
            Err(RuntimeError::OperationError)
        }
    }
}

} // verus!
