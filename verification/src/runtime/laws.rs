use vstd::prelude::*;
use super::alu::{compare, permits_binary, permits_unary};
use super::instruction::InstructionView;
use super::machine::{Control, MachineView};
use super::memory::{
    assigned, loaded, next_offset, overwrite, pushed, range_of, unloaded, VariableView,
};
use super::value::ValueView;
use super::operation::{BinOperator, UnOperator};
use super::register::{Outcome, Register, RegisterClass, RegisterName};
use super::types::Type;
use crate::bytes::{encode, lemma_decode_encode, place, ByteOrder};
use crate::error::RuntimeError;
use crate::lexer::literal::Literal;

verus! {

/// A store changes the lane it names and no other: the lane then holds the
/// value reduced to the width of its class (for class `I`: one where the
/// value is not zero, else zero).
pub proof fn lemma_store_lane(r: Register, reg: RegisterName, value: u64, other: RegisterName)
    ensures
        r.store(reg, value).lane(reg) == if reg.spec_class() == RegisterClass::I {
            if value != 0 {
                1int
            } else {
                0int
            }
        } else {
            value as int % reg.spec_class().modulus()
        },
        other != reg ==> r.store(reg, value).lane(other) == r.lane(other),
{
    broadcast use vstd::array::group_array_axioms;

}

/// Class gating. A binary operation is refused with `OperationError` exactly
/// on the combinations the machine does not define, and then changes
/// nothing. In particular an addition of two lanes of one integer class
/// succeeds exactly when it writes into that class, and the destination then
/// holds the sum of the two lanes modulo two to the power of their width.
pub proof fn lemma_class_gating(
    r: Register,
    op: BinOperator,
    src1: RegisterName,
    src2: RegisterName,
    dst: RegisterName,
)
    ensures
        r.binary_outcome(op, src1, src2, dst) == Err::<Outcome, RuntimeError>(
            RuntimeError::OperationError,
        ) <==> !permits_binary(op, src1.spec_class(), src2.spec_class(), dst.spec_class()),
        !permits_binary(op, src1.spec_class(), src2.spec_class(), dst.spec_class())
            ==> r.after_binary(op, src1, src2, dst) == r,
        op == BinOperator::Add && src1.spec_class().is_integer() && src2.spec_class()
            == src1.spec_class() ==> {
            if dst.spec_class() == src1.spec_class() {
                &&& r.binary_outcome(op, src1, src2, dst) == Ok::<Outcome, RuntimeError>(
                    Outcome::Done,
                )
                &&& r.after_binary(op, src1, src2, dst).lane(dst) == (r.lane(src1) + r.lane(src2))
                    % src1.spec_class().modulus()
            } else {
                &&& r.binary_outcome(op, src1, src2, dst) == Err::<Outcome, RuntimeError>(
                    RuntimeError::OperationError,
                )
                &&& r.after_binary(op, src1, src2, dst) == r
            }
        },
{
    let class = src1.spec_class();
    if op == BinOperator::Add && class.is_integer() && src2.spec_class() == class && dst.spec_class()
        == class {
        let sum = ((r.lane(src1) + r.lane(src2)) % class.modulus()) as u64;
        lemma_store_lane(r, dst, sum, dst);
    }
}

/// Comparison target. A comparison of two lanes of one class, whatever the
/// class, succeeds exactly when its destination is a lane of class `I`; that
/// lane then holds the truth value of the comparison and no other lane has
/// changed. With a destination of any other class it is refused with
/// `OperationError` and changes nothing.
pub proof fn lemma_comparison_target(
    r: Register,
    op: BinOperator,
    src1: RegisterName,
    src2: RegisterName,
    dst: RegisterName,
    other: RegisterName,
)
    requires
        op.is_comparison(),
        src1.spec_class() == src2.spec_class(),
    ensures
        dst.spec_class() == RegisterClass::I ==> {
            &&& r.binary_outcome(op, src1, src2, dst) == Ok::<Outcome, RuntimeError>(Outcome::Done)
            &&& r.after_binary(op, src1, src2, dst).i@[dst.spec_index()] == compare(
                op,
                src1.spec_class(),
                r.lane(src1),
                r.lane(src2),
            )
            &&& other != dst ==> r.after_binary(op, src1, src2, dst).lane(other) == r.lane(other)
        },
        dst.spec_class() != RegisterClass::I ==> {
            &&& r.binary_outcome(op, src1, src2, dst) == Err::<Outcome, RuntimeError>(
                RuntimeError::OperationError,
            )
            &&& r.after_binary(op, src1, src2, dst) == r
        },
{
    broadcast use vstd::array::group_array_axioms;

    if dst.spec_class() == RegisterClass::I {
        let truth: u64 = if compare(op, src1.spec_class(), r.lane(src1), r.lane(src2)) {
            1
        } else {
            0
        };
        lemma_store_lane(r, dst, truth, other);
    }
}

/// A unary operation is refused with `OperationError` exactly on the
/// combinations the machine does not define, and then changes nothing.
pub proof fn lemma_unary_gating(r: Register, op: UnOperator, src: RegisterName, dst: RegisterName)
    ensures
        r.unary_outcome(op, src, dst) == Err::<Outcome, RuntimeError>(RuntimeError::OperationError)
            <==> !permits_unary(op, src.spec_class(), dst.spec_class()),
        !permits_unary(op, src.spec_class(), dst.spec_class()) ==> r.after_unary(op, src, dst)
            == r,
{
}

/// The layout that declarations give: every variable begins where the one
/// declared before it ends, and the first begins at offset zero.
pub open spec fn layout(variables: Seq<VariableView>) -> bool {
    forall|i: int|
        0 <= i < variables.len() ==> (#[trigger] variables[i]).offset == next_offset(
            variables.take(i),
        )
}

/// The number of bytes that the variables of a list take together.
pub open spec fn total_size(variables: Seq<VariableView>) -> int
    decreases variables.len(),
{
    if variables.len() == 0 {
        0
    } else {
        total_size(variables.drop_last()) + variables.last().var_type.spec_size()
    }
}

/// Monotonic layout, the offsets. In a list laid out by declarations, the
/// variables before any place take together as many bytes as the offset
/// at which the next one begins: the offsets are 0, the first size, the sum
/// of the first two sizes, and so on.
pub proof fn lemma_layout_offsets(variables: Seq<VariableView>, count: int)
    requires
        layout(variables),
        0 <= count <= variables.len(),
    ensures
        next_offset(variables.take(count)) == total_size(variables.take(count)),
        count < variables.len() ==> variables[count].offset == total_size(variables.take(count)),
    decreases count,
{
    if count > 0 {
        lemma_layout_offsets(variables, count - 1);
        assert(variables.take(count).drop_last() =~= variables.take(count - 1));
        assert(variables.take(count).last() == variables[count - 1]);
    }
}

/// Monotonic layout, the declarations. The empty list is laid out, and a
/// declaration keeps a list laid out: the new variable begins at the sum of
/// the sizes of all variables declared before it.
pub proof fn lemma_push_keeps_layout(variables: Seq<VariableView>, var_type: Type, name: Seq<char>)
    requires
        layout(variables),
        pushed(variables, var_type, name) is Ok,
    ensures
        layout(Seq::<VariableView>::empty()),
        layout(pushed(variables, var_type, name)->Ok_0),
        pushed(variables, var_type, name)->Ok_0.last().offset == total_size(variables),
        pushed(variables, var_type, name)->Ok_0.last().var_type == var_type,
        pushed(variables, var_type, name)->Ok_0.last().name == name,
        pushed(variables, var_type, name)->Ok_0.drop_last() == variables,
{
    let after = pushed(variables, var_type, name)->Ok_0;
    lemma_layout_offsets(variables, variables.len() as int);
    assert(variables.take(variables.len() as int) =~= variables);
    assert(after.drop_last() =~= variables);
    assert forall|i: int| 0 <= i < after.len() implies (#[trigger] after[i]).offset == next_offset(
        after.take(i),
    ) by {
        if i < variables.len() {
            assert(after.take(i) =~= variables.take(i));
            assert(after[i] == variables[i]);
        } else {
            assert(after.take(i) =~= variables);
        }
    }
}

/// Monotonic layout, no overlap. In a list laid out by declarations, a
/// variable ends before any variable declared after it begins.
pub proof fn lemma_no_overlap(variables: Seq<VariableView>, i: int, j: int)
    requires
        layout(variables),
        0 <= i < j < variables.len(),
    ensures
        variables[i].end() <= variables[j].offset,
    decreases j - i,
{
    assert(variables.take(j).last() == variables[j - 1]);
    if i < j - 1 {
        lemma_no_overlap(variables, i, j - 1);
    }
}

/// Monotonic layout, every state. No instruction disturbs the layout of the
/// variables: if they were laid out by declarations before a step, they are
/// so after it.
pub proof fn lemma_step_keeps_layout(
    machine: MachineView,
    instruction: InstructionView,
    labels: Map<Seq<char>, usize>,
)
    requires
        layout(machine.variables),
    ensures
        layout(machine.step(instruction, labels).0.variables),
{
    match instruction {
        InstructionView::Push(var_type, name) => {
            if pushed(machine.variables, var_type, name) is Ok {
                lemma_push_keeps_layout(machine.variables, var_type, name);
            }
        },
        _ => {},
    }
}

/// Monotonic layout, every run. A run that begins with variables laid out
/// by declarations, as a new machine has them, ends with variables laid out
/// by declarations.
pub proof fn lemma_run_keeps_layout(
    machine: MachineView,
    program: Seq<InstructionView>,
    labels: Map<Seq<char>, usize>,
    budget: nat,
)
    requires
        layout(machine.variables),
    ensures
        layout(machine.run(program, labels, budget).0.variables),
    decreases budget,
{
    if machine.pc < program.len() && budget > 0 {
        let instruction = program[machine.pc as int];
        lemma_step_keeps_layout(machine, instruction, labels);
        let next = machine.step(instruction, labels).0;
        match machine.step(instruction, labels).1 {
            Ok(Control::Next) => {
                lemma_run_keeps_layout(next.advanced(), program, labels, (budget - 1) as nat);
            },
            Ok(Control::Jump) => {
                lemma_run_keeps_layout(next, program, labels, (budget - 1) as nat);
            },
            _ => {},
        }
    }
}

/// The bytes written into the variable area are the bytes found there.
pub proof fn lemma_overwrite_subrange(stack: Seq<u8>, start: int, bytes: Seq<u8>)
    requires
        0 <= start,
        start + bytes.len() <= stack.len(),
    ensures
        overwrite(stack, start, bytes).len() == stack.len(),
        overwrite(stack, start, bytes).subrange(start, start + bytes.len()) == bytes,
{
    assert(overwrite(stack, start, bytes).subrange(start, start + bytes.len()) =~= bytes);
}

/// Round trip through a variable. An integer literal given to a variable
/// and loaded from it into a register of the width of the variable comes
/// back modulo 256 to the power of that width: unchanged where it fits.
pub proof fn lemma_set_then_load(
    variables: Seq<VariableView>,
    stack: Seq<u8>,
    name: Seq<char>,
    value: u64,
    reg: RegisterName,
    order: ByteOrder,
)
    requires
        assigned(variables, stack, name, ValueView::RValue(Literal::Integer(value)), order) is Ok,
        range_of(variables, name)->Ok_0.1 - range_of(variables, name)->Ok_0.0 == reg.spec_size(),
    ensures
        loaded(
            variables,
            assigned(
                variables,
                stack,
                name,
                ValueView::RValue(Literal::Integer(value)),
                order,
            )->Ok_0,
            ValueView::LValue(name),
            reg,
            order,
        ) == Ok::<u64, RuntimeError>((value as int % place(reg.spec_size() as int)) as u64),
        value < place(reg.spec_size() as int) ==> loaded(
            variables,
            assigned(
                variables,
                stack,
                name,
                ValueView::RValue(Literal::Integer(value)),
                order,
            )->Ok_0,
            ValueView::LValue(name),
            reg,
            order,
        ) == Ok::<u64, RuntimeError>(value),
{
    let (start, end) = range_of(variables, name)->Ok_0;
    let size = reg.spec_size();
    let bytes = Literal::Integer(value).bytes(size, order);
    lemma_decode_encode(value, size, order);
    lemma_overwrite_subrange(stack, start as int, bytes);
    assert(bytes.take(size as int) =~= bytes);
}

/// Round trip through a register. What an unload has written into a
/// variable, a load from that variable into a register of the same class
/// reads back: the bit pattern that the unloaded register held.
pub proof fn lemma_unload_then_load(
    variables: Seq<VariableView>,
    stack: Seq<u8>,
    register: Register,
    reg: RegisterName,
    name: Seq<char>,
    other: RegisterName,
    order: ByteOrder,
)
    requires
        unloaded(variables, stack, register, reg, name, order) is Ok,
        other.spec_class() == reg.spec_class(),
    ensures
        loaded(
            variables,
            unloaded(variables, stack, register, reg, name, order)->Ok_0,
            ValueView::LValue(name),
            other,
            order,
        ) == Ok::<u64, RuntimeError>(register.lane(reg)),
{
    let (start, end) = range_of(variables, name)->Ok_0;
    let size = reg.spec_size();
    let bytes = encode(register.lane(reg), size, order);
    lemma_decode_encode(register.lane(reg), size, order);
    lemma_overwrite_subrange(stack, start as int, bytes);
    assert(bytes.take(size as int) =~= bytes);
    assert(register.lane(reg) < place(size as int));
}

/// Unload size contract. Where the variable is not exactly as wide as the
/// register, an unload fails with `SizeMismatch`, and the instruction leaves
/// the variable area, the register file and the program counter as they
/// were.
pub proof fn lemma_unload_size_contract(
    machine: MachineView,
    labels: Map<Seq<char>, usize>,
    reg: RegisterName,
    name: Seq<char>,
)
    requires
        range_of(machine.variables, name) is Ok,
        range_of(machine.variables, name)->Ok_0.1 - range_of(machine.variables, name)->Ok_0.0
            != reg.spec_size(),
    ensures
        unloaded(machine.variables, machine.stack, machine.register, reg, name, machine.order)
            == Err::<Seq<u8>, RuntimeError>(RuntimeError::SizeMismatch),
        machine.step(InstructionView::Unload(reg, name), labels) == (
            machine,
            Err::<Control, RuntimeError>(RuntimeError::SizeMismatch),
        ),
{
}

/// Jump resolution. A jump to a label that the table holds puts the index
/// that the label stands for into the program counter and changes nothing
/// else; a jump to any other label fails with `LabelNotFound`.
pub proof fn lemma_jump_target(machine: MachineView, labels: Map<Seq<char>, usize>, label: Seq<char>)
    ensures
        labels.dom().contains(label) ==> machine.step(InstructionView::Jump(label), labels) == (
            MachineView { pc: labels[label], ..machine },
            Ok::<Control, RuntimeError>(Control::Jump),
        ),
        !labels.dom().contains(label) ==> machine.step(InstructionView::Jump(label), labels) == (
            machine,
            Err::<Control, RuntimeError>(RuntimeError::LabelNotFound),
        ),
{
}

/// A conditional jump is taken exactly where the truth-value lane with the
/// lane number of its register holds true. Where the lane holds false the
/// instruction is complete and changes nothing, the program counter
/// included, whether the table holds its label or not.
pub proof fn lemma_conditional_jump(
    machine: MachineView,
    labels: Map<Seq<char>, usize>,
    label: Seq<char>,
    reg: RegisterName,
)
    ensures
        !machine.register.i@[reg.spec_index()] ==> machine.step(
            InstructionView::JumpIf(label, reg),
            labels,
        ) == (machine, Ok::<Control, RuntimeError>(Control::Next)),
        machine.register.i@[reg.spec_index()] ==> machine.step(
            InstructionView::JumpIf(label, reg),
            labels,
        ) == machine.step(InstructionView::Jump(label), labels),
{
}

/// The program counter is written by a jump that is taken and by nothing
/// else: after any other instruction, complete or not, it is as it was.
pub proof fn lemma_counter_written_by_jumps_only(
    machine: MachineView,
    instruction: InstructionView,
    labels: Map<Seq<char>, usize>,
)
    ensures
        machine.step(instruction, labels).1 != Ok::<Control, RuntimeError>(Control::Jump)
            ==> machine.step(instruction, labels).0.pc == machine.pc,
        machine.step(instruction, labels).1 == Ok::<Control, RuntimeError>(Control::Jump) ==> {
            ||| exists|label: Seq<char>|
                instruction == InstructionView::Jump(label) && labels.dom().contains(label)
                    && machine.step(instruction, labels).0.pc == labels[label]
            ||| exists|label: Seq<char>, reg: RegisterName|
                instruction == InstructionView::JumpIf(label, reg) && labels.dom().contains(label)
                    && machine.register.i@[reg.spec_index()] && machine.step(
                    instruction,
                    labels,
                ).0.pc == labels[label]
        },
{
}

/// The run after one instruction. Behind an instruction that is complete
/// and has not written the program counter the run goes on one index
/// further; behind a jump that was taken it goes on at the index of the
/// label, with no move behind it.
pub proof fn lemma_run_unfolds(
    machine: MachineView,
    program: Seq<InstructionView>,
    labels: Map<Seq<char>, usize>,
    budget: nat,
)
    requires
        machine.pc < program.len() <= usize::MAX,
        budget > 0,
    ensures
        machine.step(program[machine.pc as int], labels).1 == Ok::<Control, RuntimeError>(
            Control::Next,
        ) ==> machine.run(program, labels, budget) == machine.step(
            program[machine.pc as int],
            labels,
        ).0.advanced().run(program, labels, (budget - 1) as nat) && machine.step(
            program[machine.pc as int],
            labels,
        ).0.advanced().pc == machine.pc + 1,
        machine.step(program[machine.pc as int], labels).1 == Ok::<Control, RuntimeError>(
            Control::Jump,
        ) ==> machine.run(program, labels, budget) == machine.step(
            program[machine.pc as int],
            labels,
        ).0.run(program, labels, (budget - 1) as nat),
{
    lemma_counter_written_by_jumps_only(machine, program[machine.pc as int], labels);
}

} // verus!
