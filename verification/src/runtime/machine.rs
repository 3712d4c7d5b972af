use vstd::prelude::*;
use super::float::FloatRequest;
use super::instruction::{instruction_views, Instruction, InstructionView};
use super::labels::LabelTable;
use super::memory::{
    assigned, load_reg, loaded, push_var, pushed, set_var, unload_reg, unloaded, variable_views,
    Variable, VariableView,
};
use super::register::{Outcome, Register};
use crate::bytes::ByteOrder;
use crate::error::RuntimeError;

verus! {

/// The number of bytes of the variable area.
pub const STACK_SIZE: usize = 16;

/// The state of a run: the declared variables, the register file, the
/// variable area, the program counter, and the byte order in which numbers
/// stand in the variable area.
#[derive(Debug, PartialEq, Eq, Clone)]
pub struct Machine {
    pub variables: Vec<Variable>,
    pub register: Register,
    pub stack: [u8; STACK_SIZE],
    pub pc: usize,
    pub order: ByteOrder,
}

/// The mathematical content of a `Machine`.
pub struct MachineView {
    pub variables: Seq<VariableView>,
    pub register: Register,
    pub stack: Seq<u8>,
    pub pc: usize,
    pub order: ByteOrder,
}

impl View for Machine {
    type V = MachineView;

    open spec fn view(&self) -> MachineView {
        MachineView {
            variables: variable_views(self.variables@),
            register: self.register,
            stack: self.stack@,
            pc: self.pc,
            order: self.order,
        }
    }
}

/// What an instruction that did not fail leaves for the run to do.
#[derive(Debug, PartialEq, Eq, Structural, Clone, Copy)]
pub enum Control {
    /// The instruction is complete and has not touched the program counter:
    /// the run goes on behind it.
    Next,
    /// The instruction is a jump that was taken: the program counter holds
    /// the index that the label stands for, and the run goes on there.
    Jump,
    /// The instruction is IEEE-754 arithmetic, which the machine leaves to
    /// its host: nothing has changed yet.
    Float(FloatRequest),
}

/// How a run came to rest.
#[derive(Debug, PartialEq, Eq, Structural, Clone, Copy)]
pub enum Status {
    /// The program counter has left the program: the run is over.
    Halted,
    /// The instruction at the program counter is IEEE-754 arithmetic. The
    /// host is to compute the request and hand its result to
    /// `Machine::complete`; the run can then go on.
    Float(FloatRequest),
    /// The given number of instructions has been executed and the program
    /// has not ended; the run can go on.
    Suspended,
}

/// Why a run was aborted: the index of the instruction that failed, and the
/// kind of the failure.
#[derive(Debug, PartialEq, Eq, Structural, Clone, Copy)]
pub struct RunError {
    pub index: usize,
    pub kind: RuntimeError,
}

impl MachineView {
    /// The state with the program counter at the next instruction.
    pub open spec fn advanced(self) -> MachineView {
        MachineView { pc: (self.pc + 1) as usize, ..self }
    }

    /// The state after one instruction, and what the instruction leaves for
    /// the run to do.
    ///
    /// Only a jump that is taken writes the program counter: it puts the
    /// index that its label stands for into it. A conditional jump is taken
    /// where the truth-value lane with the lane number of its register holds
    /// true, and is complete without a look at its label where that lane
    /// holds false. An instruction that fails, or that waits for the host,
    /// changes nothing. `Move`, `Call` and `CallIf` are reserved and fail as
    /// unsupported.
    pub open spec fn step(self, instruction: InstructionView, labels: Map<Seq<char>, usize>) -> (
        MachineView,
        Result<Control, RuntimeError>,
    ) {
        match instruction {
            InstructionView::Push(var_type, name) => match pushed(self.variables, var_type, name) {
                Ok(variables) => (MachineView { variables, ..self }, Ok(Control::Next)),
                Err(e) => (self, Err(e)),
            },
            InstructionView::SetVar(name, value) => match assigned(
                self.variables,
                self.stack,
                name,
                value,
                self.order,
            ) {
                Ok(stack) => (MachineView { stack, ..self }, Ok(Control::Next)),
                Err(e) => (self, Err(e)),
            },
            InstructionView::Load(value, reg) => match loaded(
                self.variables,
                self.stack,
                value,
                reg,
                self.order,
            ) {
                Ok(bits) => (
                    MachineView { register: self.register.store(reg, bits), ..self },
                    Ok(Control::Next),
                ),
                Err(e) => (self, Err(e)),
            },
            InstructionView::Unload(reg, name) => match unloaded(
                self.variables,
                self.stack,
                self.register,
                reg,
                name,
                self.order,
            ) {
                Ok(stack) => (
                    MachineView { stack, register: self.register.store(reg, 0), ..self },
                    Ok(Control::Next),
                ),
                Err(e) => (self, Err(e)),
            },
            InstructionView::Move(_, _) => (self, Err(RuntimeError::Unsupported)),
            InstructionView::Call(_) => (self, Err(RuntimeError::Unsupported)),
            InstructionView::CallIf(_, _) => (self, Err(RuntimeError::Unsupported)),
            InstructionView::Jump(label) => if labels.dom().contains(label) {
                (MachineView { pc: labels[label], ..self }, Ok(Control::Jump))
            } else {
                (self, Err(RuntimeError::LabelNotFound))
            },
            InstructionView::JumpIf(label, reg) => if !self.register.i@[reg.spec_index()] {
                (self, Ok(Control::Next))
            } else if labels.dom().contains(label) {
                (MachineView { pc: labels[label], ..self }, Ok(Control::Jump))
            } else {
                (self, Err(RuntimeError::LabelNotFound))
            },
            InstructionView::BinaryOp(op, src1, src2, dst) => match self.register.binary_outcome(
                op,
                src1,
                src2,
                dst,
            ) {
                Ok(Outcome::Done) => (
                    MachineView {
                        register: self.register.after_binary(op, src1, src2, dst),
                        ..self
                    },
                    Ok(Control::Next),
                ),
                Ok(Outcome::Float(request)) => (self, Ok(Control::Float(request))),
                Err(e) => (self, Err(e)),
            },
            InstructionView::UnaryOp(op, src, dst) => match self.register.unary_outcome(
                op,
                src,
                dst,
            ) {
                Ok(Outcome::Done) => (
                    MachineView { register: self.register.after_unary(op, src, dst), ..self },
                    Ok(Control::Next),
                ),
                Ok(Outcome::Float(request)) => (self, Ok(Control::Float(request))),
                Err(e) => (self, Err(e)),
            },
        }
    }

    /// The state after the host has answered a request: the result stands in
    /// the register of the request and the program counter has moved on. A
    /// request whose register is not of class `F` or `G` is refused and
    /// changes nothing.
    pub open spec fn completed(self, request: FloatRequest, bits: u64) -> (
        MachineView,
        Result<(), RuntimeError>,
    ) {
        if request.dst.spec_class().is_float() {
            (
                MachineView {
                    register: self.register.store(request.dst, bits),
                    ..self
                }.advanced(),
                Ok(()),
            )
        } else {
            (self, Err(RuntimeError::OperationError))
        }
    }

    /// Where a run of at most `budget` instructions comes to rest, and how.
    ///
    /// The run is over when the program counter is not the index of an
    /// instruction. After an instruction that is complete and has not
    /// written the program counter, the run moves the program counter on by
    /// one; after a jump that was taken it goes on at the index that the
    /// jump has put there, also where that is the index of the jump itself.
    /// The run stops before an instruction that waits for the host, and at
    /// an instruction that fails, which it reports with its index.
    pub open spec fn run(
        self,
        program: Seq<InstructionView>,
        labels: Map<Seq<char>, usize>,
        budget: nat,
    ) -> (MachineView, Result<Status, RunError>)
        decreases budget,
    {
        if self.pc >= program.len() {
            (self, Ok(Status::Halted))
        } else if budget == 0 {
            (self, Ok(Status::Suspended))
        } else {
            match self.step(program[self.pc as int], labels) {
                (next, Ok(Control::Next)) => next.advanced().run(
                    program,
                    labels,
                    (budget - 1) as nat,
                ),
                (next, Ok(Control::Jump)) => next.run(program, labels, (budget - 1) as nat),
                (next, Ok(Control::Float(request))) => (next, Ok(Status::Float(request))),
                (next, Err(kind)) => (next, Err(RunError { index: self.pc, kind })),
            }
        }
    }
}

impl Machine {
    /// A machine at the start of a run: no variable, every register and
    /// every byte of the variable area zero, the program counter at the
    /// first instruction.
    pub fn new(order: ByteOrder) -> (r: Machine)
        ensures
            r@.variables == Seq::<VariableView>::empty(),
            r@.register.is_cleared(),
            r@.stack == Seq::new(STACK_SIZE as nat, |i: int| 0u8),
            r@.pc == 0,
            r@.order == order,
    {
        let r = Machine {
            variables: Vec::new(),
            register: Register::new(),
            stack: [0u8;STACK_SIZE],
            pc: 0,
            order,
        };
        assert(r@.variables =~= Seq::<VariableView>::empty());
        assert(r@.stack =~= Seq::new(STACK_SIZE as nat, |i: int| 0u8));
        r
    }

    /// Takes the result that the host computed for a request, and moves on
    /// to the next instruction.
    pub fn complete(&mut self, request: FloatRequest, bits: u64) -> (r: Result<(), RuntimeError>)
        requires
            old(self).pc < usize::MAX,
        ensures
            (final(self)@, r) == old(self)@.completed(request, bits),
    {
        match self.register.store_float(request.dst, bits) {
            Ok(_) => {
                self.pc = self.pc + 1;
                Ok(())
            },
            Err(e) => Err(e),
        }
    }
}

/// Executes one instruction on the machine. The program counter is written
/// by a jump that is taken and by nothing else; to move it on behind any
/// other instruction is left to the run.
pub fn execute(instruction: &Instruction, machine: &mut Machine, labels: &LabelTable) -> (r: Result<
    Control,
    RuntimeError,
>)
    ensures
        (final(machine)@, r) == old(machine)@.step(instruction@, labels@),
{
    let order = machine.order;
    match instruction {
        Instruction::Push(var_type, name) => {
            match push_var(*var_type, name.clone(), &mut machine.variables) {
                Ok(_) => Ok(Control::Next),
                Err(e) => Err(e),
            }
        },
        Instruction::SetVar(name, value) => {
            match set_var(name.as_str(), value, &machine.variables, &mut machine.stack, order) {
                Ok(_) => Ok(Control::Next),
                Err(e) => Err(e),
            }
        },
        Instruction::Load(value, reg) => {
            match load_reg(
                value,
                reg,
                &machine.variables,
                &machine.stack,
                &mut machine.register,
                order,
            ) {
                Ok(_) => Ok(Control::Next),
                Err(e) => Err(e),
            }
        },
        Instruction::Unload(reg, name) => {
            match unload_reg(
                reg,
                name.as_str(),
                &machine.variables,
                &mut machine.stack,
                &mut machine.register,
                order,
            ) {
                Ok(_) => Ok(Control::Next),
                Err(e) => Err(e),
            }
        },
        Instruction::Move(_, _) => Err(RuntimeError::Unsupported),
        Instruction::Call(_) => Err(RuntimeError::Unsupported),
        Instruction::CallIf(_, _) => Err(RuntimeError::Unsupported),
        Instruction::Jump(label) => {
            match labels.get(label.as_str()) {
                Some(index) => {
                    machine.pc = index;
                    Ok(Control::Jump)
                },
                None => Err(RuntimeError::LabelNotFound),
            }
        },
        Instruction::JumpIf(label, reg) => {
            if machine.register.i[reg.index()] {
                match labels.get(label.as_str()) {
                    Some(index) => {
                        machine.pc = index;
                        Ok(Control::Jump)
                    },
                    None => Err(RuntimeError::LabelNotFound),
                }
            } else {
                Ok(Control::Next)
            }
        },
        Instruction::BinaryOp(op, src1, src2, dst) => {
            match machine.register.bin_operate(*op, *src1, *src2, *dst) {
                Ok(Outcome::Done) => Ok(Control::Next),
                Ok(Outcome::Float(request)) => Ok(Control::Float(request)),
                Err(e) => Err(e),
            }
        },
        Instruction::UnaryOp(op, src, dst) => {
            match machine.register.un_operate(*op, *src, *dst) {
                Ok(Outcome::Done) => Ok(Control::Next),
                Ok(Outcome::Float(request)) => Ok(Control::Float(request)),
                Err(e) => Err(e),
            }
        },
    }
}

/// Runs the program on the machine from its program counter on, for at most
/// `budget` instructions: executes the instruction at the program counter,
/// then moves the program counter on by one unless the instruction was a
/// jump that was taken.
pub fn run(
    instruction_set: &Vec<Instruction>,
    labels: &LabelTable,
    machine: &mut Machine,
    budget: usize,
) -> (r: Result<Status, RunError>)
    ensures
        (final(machine)@, r) == old(machine)@.run(
            instruction_views(instruction_set@),
            labels@,
            budget as nat,
        ),
{
    let ghost program = instruction_views(instruction_set@);
    let mut left = budget;
    loop
        invariant
            program == instruction_views(instruction_set@),
            machine@.run(program, labels@, left as nat) == old(machine)@.run(
                program,
                labels@,
                budget as nat,
            ),
        decreases left,
    {
        if machine.pc >= instruction_set.len() {
            return Ok(Status::Halted);
        }
        if left == 0 {
            return Ok(Status::Suspended);
        }
        let index = machine.pc;
        match execute(&instruction_set[index], machine, labels) {
            Ok(Control::Next) => {
                machine.pc = machine.pc + 1;
                left = left - 1;
            },
            Ok(Control::Jump) => {
                left = left - 1;
            },
            Ok(Control::Float(request)) => {
                return Ok(Status::Float(request));
            },
            Err(kind) => {
                return Err(RunError { index, kind });
            },
        }
    }
}

} // verus!
