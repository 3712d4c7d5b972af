use vstd::prelude::*;
use super::labels::same_text;
use super::register::{Register, RegisterName};
use super::types::Type;
use super::value::{Value, ValueView};
use crate::bytes::{decode, encode, from_bytes, to_bytes, ByteOrder};
use crate::error::RuntimeError;

verus! {

/// A declared variable: its name, its type, and the offset of its first
/// byte in the variable area.
#[derive(Debug, PartialEq, Eq, Clone)]
pub struct Variable {
    pub name: String,
    pub var_type: Type,
    pub offset: usize,
}

/// The mathematical content of a `Variable`.
pub struct VariableView {
    pub name: Seq<char>,
    pub var_type: Type,
    pub offset: usize,
}

impl View for Variable {
    type V = VariableView;

    open spec fn view(&self) -> VariableView {
        VariableView { name: self.name@, var_type: self.var_type, offset: self.offset }
    }
}

impl VariableView {
    /// The offset behind the last byte of the variable.
    pub open spec fn end(self) -> int {
        self.offset + self.var_type.spec_size()
    }
}

/// The contents of a list of variables.
pub open spec fn variable_views(variables: Seq<Variable>) -> Seq<VariableView> {
    variables.map_values(|variable: Variable| variable@)
}

/// The offset that the next variable gets: the end of the variable declared
/// last, and zero for the first variable.
pub open spec fn next_offset(variables: Seq<VariableView>) -> int {
    if variables.len() == 0 {
        0
    } else {
        variables.last().end()
    }
}

/// The place in the list of the first variable with a name.
pub open spec fn position(variables: Seq<VariableView>, name: Seq<char>) -> Option<int>
    decreases variables.len(),
{
    if variables.len() == 0 {
        None
    } else if variables[0].name == name {
        Some(0)
    } else {
        match position(variables.drop_first(), name) {
            Some(k) => Some(k + 1),
            None => None,
        }
    }
}

/// The bytes of the variable area that a name stands for, as the offset of
/// the first and the offset behind the last: those of the first variable
/// declared with that name. A name that was never declared is not found,
/// and a variable that ends beyond what an offset can express overflows.
pub open spec fn range_of(variables: Seq<VariableView>, name: Seq<char>) -> Result<
    (usize, usize),
    RuntimeError,
> {
    match position(variables, name) {
        None => Err(RuntimeError::VariableNotFound),
        Some(k) => if variables[k].end() > usize::MAX {
            Err(RuntimeError::StackOverflow)
        } else {
            Ok((variables[k].offset, variables[k].end() as usize))
        },
    }
}

/// The variable area with the bytes from `start` on replaced by `bytes`.
pub open spec fn overwrite(stack: Seq<u8>, start: int, bytes: Seq<u8>) -> Seq<u8> {
    Seq::new(
        stack.len(),
        |i: int|
            if start <= i < start + bytes.len() {
                bytes[i - start]
            } else {
                stack[i]
            },
    )
}

/// The smaller of two lengths.
pub open spec fn shorter(a: int, b: int) -> int {
    if a <= b {
        a
    } else {
        b
    }
}

/// The variable list after a declaration: the new variable stands at the
/// end, at the next free offset. Where that offset cannot be expressed, the
/// declaration fails and changes nothing.
pub open spec fn pushed(variables: Seq<VariableView>, var_type: Type, name: Seq<char>) -> Result<
    Seq<VariableView>,
    RuntimeError,
> {
    if next_offset(variables) > usize::MAX {
        Err(RuntimeError::StackOverflow)
    } else {
        Ok(
            variables.push(
                VariableView { name, var_type, offset: next_offset(variables) as usize },
            ),
        )
    }
}

/// The variable area after a variable has been given a value.
///
/// A literal is encoded for the size of the variable and replaces its
/// bytes; it must come to exactly that many bytes. Of another variable, as
/// many bytes are copied as the shorter of the two has. Every byte read or
/// written must lie in the variable area.
pub open spec fn assigned(
    variables: Seq<VariableView>,
    stack: Seq<u8>,
    name: Seq<char>,
    value: ValueView,
    order: ByteOrder,
) -> Result<Seq<u8>, RuntimeError> {
    match range_of(variables, name) {
        Err(e) => Err(e),
        Ok((start, end)) => match value {
            ValueView::RValue(literal) => {
                let bytes = literal.bytes((end - start) as nat, order);
                if end > stack.len() {
                    Err(RuntimeError::StackOverflow)
                } else if bytes.len() != end - start {
                    Err(RuntimeError::SizeMismatch)
                } else {
                    Ok(overwrite(stack, start as int, bytes))
                }
            },
            ValueView::LValue(source) => match range_of(variables, source) {
                Err(e) => Err(e),
                Ok((from, until)) => {
                    let count = shorter(end - start, until - from);
                    if start + count > stack.len() || from + count > stack.len() {
                        Err(RuntimeError::StackOverflow)
                    } else {
                        Ok(overwrite(stack, start as int, stack.subrange(from as int, from + count)))
                    }
                },
            },
        },
    }
}

/// The bytes that a value gives to a place of `width` bytes: a literal is
/// encoded for that width, a variable gives the bytes it holds, which must
/// lie in the variable area.
pub open spec fn value_bytes(
    variables: Seq<VariableView>,
    stack: Seq<u8>,
    value: ValueView,
    width: nat,
    order: ByteOrder,
) -> Result<Seq<u8>, RuntimeError> {
    match value {
        ValueView::RValue(literal) => Ok(literal.bytes(width, order)),
        ValueView::LValue(name) => match range_of(variables, name) {
            Err(e) => Err(e),
            Ok((start, end)) => if end > stack.len() {
                Err(RuntimeError::StackOverflow)
            } else {
                Ok(stack.subrange(start as int, end as int))
            },
        },
    }
}

/// The bit pattern that a load puts into a register: the number that the
/// first bytes of the value, as many as the register is wide, encode. A value
/// of fewer bytes than that cannot be loaded.
pub open spec fn loaded(
    variables: Seq<VariableView>,
    stack: Seq<u8>,
    value: ValueView,
    reg: RegisterName,
    order: ByteOrder,
) -> Result<u64, RuntimeError> {
    match value_bytes(variables, stack, value, reg.spec_size(), order) {
        Err(e) => Err(e),
        Ok(bytes) => if bytes.len() < reg.spec_size() {
            Err(RuntimeError::SizeMismatch)
        } else {
            Ok(decode(bytes.take(reg.spec_size() as int), order) as u64)
        },
    }
}

/// The variable area after a register has been unloaded into a variable:
/// the bytes of the variable are those of the register. The variable must
/// be exactly as wide as the register and lie in the variable area.
pub open spec fn unloaded(
    variables: Seq<VariableView>,
    stack: Seq<u8>,
    register: Register,
    reg: RegisterName,
    name: Seq<char>,
    order: ByteOrder,
) -> Result<Seq<u8>, RuntimeError> {
    match range_of(variables, name) {
        Err(e) => Err(e),
        Ok((start, end)) => if end - start != reg.spec_size() {
            Err(RuntimeError::SizeMismatch)
        } else if end > stack.len() {
            Err(RuntimeError::StackOverflow)
        } else {
            Ok(overwrite(stack, start as int, encode(register.lane(reg), reg.spec_size(), order)))
        },
    }
}

/// Declares a variable: it is appended to the list at the next free offset.
pub fn push_var(var_type: Type, name: String, variables: &mut Vec<Variable>) -> (r: Result<
    (),
    RuntimeError,
>)
    ensures
        match r {
            Ok(_) => pushed(variable_views(old(variables)@), var_type, name@) == Ok::<
                Seq<VariableView>,
                RuntimeError,
            >(variable_views(final(variables)@)),
            Err(e) => pushed(variable_views(old(variables)@), var_type, name@) == Err::<
                Seq<VariableView>,
                RuntimeError,
            >(e) && *final(variables) == *old(variables),
        },
{
    let count = variables.len();
    let offset = if count == 0 {
        0
    } else {
        match variables[count - 1].offset.checked_add(variables[count - 1].var_type.size()) {
            Some(offset) => offset,
            None => {
                return Err(RuntimeError::StackOverflow);
            },
        }
    };
    let variable = Variable { name, var_type, offset };
    variables.push(variable);
    assert(variable_views(variables@) =~= variable_views(old(variables)@).push(variable@));
    Ok(())
}

/// Finds the bytes that a name stands for.
pub fn find_var_idx(var_name: &str, variables: &Vec<Variable>) -> (r: Result<
    (usize, usize),
    RuntimeError,
>)
    ensures
        r == range_of(variable_views(variables@), var_name@),
        r matches Ok((start, end)) ==> start <= end,
{
    let ghost all = variable_views(variables@);
    let mut k: usize = 0;
    assert(all.skip(0) =~= all);
    while k < variables.len()
        invariant
            k <= variables.len(),
            all == variable_views(variables@),
            position(all, var_name@) == match position(all.skip(k as int), var_name@) {
                Some(j) => Some(j + k),
                None => None,
            },
        decreases variables.len() - k,
    {
        assert(all.skip(k as int).drop_first() =~= all.skip(k + 1));
        assert(all.skip(k as int)[0] == variables@[k as int]@);
        if same_text(variables[k].name.as_str(), var_name) {
            return match variables[k].offset.checked_add(variables[k].var_type.size()) {
                Some(end) => Ok((variables[k].offset, end)),
                None => Err(RuntimeError::StackOverflow),
            };
        }
        k += 1;
    }
    Err(RuntimeError::VariableNotFound)
}

/// Replaces the bytes of the variable area from `start` on.
fn write_bytes(stack: &mut [u8], start: usize, bytes: &Vec<u8>)
    requires
        start + bytes.len() <= old(stack)@.len(),
    ensures
        final(stack)@ == overwrite(old(stack)@, start as int, bytes@),
{
    let size = stack.len();
    let mut k: usize = 0;
    while k < bytes.len()
        invariant
            k <= bytes.len(),
            start + bytes.len() <= size,
            stack@.len() == size,
            stack@.len() == old(stack)@.len(),
            stack@ == overwrite(old(stack)@, start as int, bytes@.take(k as int)),
        decreases bytes.len() - k,
    {
        stack[start + k] = bytes[k];
        k += 1;
        assert(stack@ =~= overwrite(old(stack)@, start as int, bytes@.take(k as int)));
    }
    assert(bytes@.take(k as int) =~= bytes@);
}

/// Copies bytes of the variable area out of it.
fn read_bytes(stack: &[u8], start: usize, end: usize) -> (r: Vec<u8>)
    requires
        start <= end <= stack@.len(),
    ensures
        r@ == stack@.subrange(start as int, end as int),
{
    let mut out: Vec<u8> = Vec::new();
    let mut k: usize = start;
    while k < end
        invariant
            start <= k <= end <= stack@.len(),
            out@ == stack@.subrange(start as int, k as int),
        decreases end - k,
    {
        out.push(stack[k]);
        k += 1;
        assert(out@ =~= stack@.subrange(start as int, k as int));
    }
    out
}

/// Gives a variable a value. After an error the variable area is as it was.
pub fn set_var(
    var_name: &str,
    value: &Value,
    variables: &Vec<Variable>,
    stack: &mut [u8],
    order: ByteOrder,
) -> (r: Result<(), RuntimeError>)
    ensures
        match r {
            Ok(_) => assigned(
                variable_views(variables@),
                old(stack)@,
                var_name@,
                value@,
                order,
            ) == Ok::<Seq<u8>, RuntimeError>(final(stack)@),
            Err(e) => assigned(
                variable_views(variables@),
                old(stack)@,
                var_name@,
                value@,
                order,
            ) == Err::<Seq<u8>, RuntimeError>(e) && final(stack)@ == old(stack)@,
        },
{
    let (start, end) = match find_var_idx(var_name, variables) {
        Ok(range) => range,
        Err(e) => {
            return Err(e);
        },
    };
    match value {
        Value::RValue(literal) => {
            let bytes = literal.as_bytes(end - start, order);
            if end > stack.len() {
                return Err(RuntimeError::StackOverflow);
            }
            if bytes.len() != end - start {
                return Err(RuntimeError::SizeMismatch);
            }
            write_bytes(stack, start, &bytes);
            Ok(())
        },
        Value::LValue(source) => {
            let (from, until) = match find_var_idx(source.as_str(), variables) {
                Ok(range) => range,
                Err(e) => {
                    return Err(e);
                },
            };
            let count = if end - start <= until - from {
                end - start
            } else {
                until - from
            };
            if count > stack.len() || start > stack.len() - count || from > stack.len() - count {
                return Err(RuntimeError::StackOverflow);
            }
            let bytes = read_bytes(stack, from, from + count);
            write_bytes(stack, start, &bytes);
            Ok(())
        },
    }
}

/// Puts a value into a register. After an error the register file is as it
/// was.
pub fn load_reg(
    value: &Value,
    reg_name: &RegisterName,
    variables: &Vec<Variable>,
    stack: &[u8],
    register: &mut Register,
    order: ByteOrder,
) -> (r: Result<(), RuntimeError>)
    ensures
        match r {
            Ok(_) => {
                &&& loaded(variable_views(variables@), stack@, value@, *reg_name, order) is Ok
                &&& *final(register) == old(register).store(
                    *reg_name,
                    loaded(variable_views(variables@), stack@, value@, *reg_name, order)->Ok_0,
                )
            },
            Err(e) => loaded(variable_views(variables@), stack@, value@, *reg_name, order)
                == Err::<u64, RuntimeError>(e) && *final(register) == *old(register),
        },
{
    let width = reg_name.size();
    let bytes = match value {
        Value::RValue(literal) => literal.as_bytes(width, order),
        Value::LValue(name) => {
            let (start, end) = match find_var_idx(name.as_str(), variables) {
                Ok(range) => range,
                Err(e) => {
                    return Err(e);
                },
            };
            if end > stack.len() {
                return Err(RuntimeError::StackOverflow);
            }
            read_bytes(stack, start, end)
        },
    };
    if bytes.len() < width {
        return Err(RuntimeError::SizeMismatch);
    }
    let head = read_bytes(bytes.as_slice(), 0, width);
    assert(head@ =~= bytes@.take(width as int));
    let bits = from_bytes(head.as_slice(), order);
    register.write(*reg_name, bits);
    Ok(())
}

/// Moves the content of a register into a variable of the same width and
/// clears the register. After an error the variable area and the register
/// file are as they were.
pub fn unload_reg(
    reg: &RegisterName,
    var_name: &str,
    variables: &Vec<Variable>,
    stack: &mut [u8],
    register: &mut Register,
    order: ByteOrder,
) -> (r: Result<(), RuntimeError>)
    ensures
        match r {
            Ok(_) => {
                &&& unloaded(
                    variable_views(variables@),
                    old(stack)@,
                    *old(register),
                    *reg,
                    var_name@,
                    order,
                ) == Ok::<Seq<u8>, RuntimeError>(final(stack)@)
                &&& *final(register) == old(register).store(*reg, 0)
            },
            Err(e) => {
                &&& unloaded(
                    variable_views(variables@),
                    old(stack)@,
                    *old(register),
                    *reg,
                    var_name@,
                    order,
                ) == Err::<Seq<u8>, RuntimeError>(e)
                &&& final(stack)@ == old(stack)@
                &&& *final(register) == *old(register)
            },
        },
{
    let (start, end) = match find_var_idx(var_name, variables) {
        Ok(range) => range,
        Err(e) => {
            return Err(e);
        },
    };
    let width = reg.size();
    if end - start != width {
        return Err(RuntimeError::SizeMismatch);
    }
    if end > stack.len() {
        return Err(RuntimeError::StackOverflow);
    }
    let bytes = to_bytes(register.read(*reg), width, order);
    write_bytes(stack, start, &bytes);
    register.write(*reg, 0);
    Ok(())
}

} // verus!
