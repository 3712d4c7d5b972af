use vstd::prelude::*;
use super::operation::{BinOperator, UnOperator};
use super::register::RegisterName;
use super::types::Type;
use super::value::{Value, ValueView};

verus! {

/// One step of a program.
#[derive(Debug, PartialEq, Eq, Clone)]
pub enum Instruction {
    /// Declares a variable of a type.
    Push(Type, String),
    /// Gives a variable a value.
    SetVar(String, Value),
    /// Puts a value into a register.
    Load(Value, RegisterName),
    /// Moves the content of a register into a variable.
    Unload(RegisterName, String),
    /// Reserved: copies one register to another of its class.
    Move(RegisterName, RegisterName),
    /// Reserved: enters a subroutine.
    Call(String),
    /// Reserved: enters a subroutine where a truth-value register holds true.
    CallIf(String, RegisterName),
    /// Continues at a label.
    Jump(String),
    /// Continues at a label where a truth-value register holds true.
    JumpIf(String, RegisterName),
    /// Applies an operator to two registers and writes to a third.
    BinaryOp(BinOperator, RegisterName, RegisterName, RegisterName),
    /// Applies an operator to one register and writes to another.
    UnaryOp(UnOperator, RegisterName, RegisterName),
}

/// The mathematical content of an `Instruction`.
pub enum InstructionView {
    Push(Type, Seq<char>),
    SetVar(Seq<char>, ValueView),
    Load(ValueView, RegisterName),
    Unload(RegisterName, Seq<char>),
    Move(RegisterName, RegisterName),
    Call(Seq<char>),
    CallIf(Seq<char>, RegisterName),
    Jump(Seq<char>),
    JumpIf(Seq<char>, RegisterName),
    BinaryOp(BinOperator, RegisterName, RegisterName, RegisterName),
    UnaryOp(UnOperator, RegisterName, RegisterName),
}

impl View for Instruction {
    type V = InstructionView;

    open spec fn view(&self) -> InstructionView {
        match self {
            Instruction::Push(var_type, name) => InstructionView::Push(*var_type, name@),
            Instruction::SetVar(name, value) => InstructionView::SetVar(name@, value@),
            Instruction::Load(value, reg) => InstructionView::Load(value@, *reg),
            Instruction::Unload(reg, name) => InstructionView::Unload(*reg, name@),
            Instruction::Move(src, dst) => InstructionView::Move(*src, *dst),
            Instruction::Call(label) => InstructionView::Call(label@),
            Instruction::CallIf(label, reg) => InstructionView::CallIf(label@, *reg),
            Instruction::Jump(label) => InstructionView::Jump(label@),
            Instruction::JumpIf(label, reg) => InstructionView::JumpIf(label@, *reg),
            Instruction::BinaryOp(op, src1, src2, dst) => InstructionView::BinaryOp(
                *op,
                *src1,
                *src2,
                *dst,
            ),
            Instruction::UnaryOp(op, src, dst) => InstructionView::UnaryOp(*op, *src, *dst),
        }
    }
}

/// The contents of a list of instructions.
pub open spec fn instruction_views(instructions: Seq<Instruction>) -> Seq<InstructionView> {
    instructions.map_values(|instruction: Instruction| instruction@)
}

} // verus!
