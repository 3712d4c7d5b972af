use vstd::prelude::*;
use vstd::string::StringExecFns;

pub mod convert;

use crate::error::{ErrorView, JAPLError};
use crate::lexer::keyword::Keyword;
use crate::lexer::symbol::Symbol;
use crate::lexer::token::{optional_view, token_views, Token, TokenView};
use crate::runtime::instruction::{instruction_views, Instruction, InstructionView};
use crate::runtime::labels::LabelTable;
use crate::runtime::operation::{BinOperator, UnOperator};
use convert::{
    get_ident_name, get_label_name, get_register_name, get_value, get_variable_type, ident_operand,
    label_operand, register_operand, type_operand, value_operand,
};

verus! {

/// What the decoder makes of a token stream: the instructions in their
/// order, and the label table.
pub struct ProgramView {
    pub instructions: Seq<InstructionView>,
    pub labels: Map<Seq<char>, usize>,
}

/// The binary operator that a mnemonic names, if it names one.
pub open spec fn binary_operator(keyword: Keyword) -> Option<BinOperator> {
    match keyword {
        Keyword::Add => Some(BinOperator::Add),
        Keyword::Subtract => Some(BinOperator::Subtract),
        Keyword::Multiply => Some(BinOperator::Multiply),
        Keyword::Divide => Some(BinOperator::Divide),
        Keyword::Modulus => Some(BinOperator::Modulus),
        Keyword::And => Some(BinOperator::And),
        Keyword::Or => Some(BinOperator::Or),
        Keyword::Xor => Some(BinOperator::Xor),
        Keyword::Equals => Some(BinOperator::Equals),
        Keyword::NotEquals => Some(BinOperator::NotEquals),
        Keyword::LessThan => Some(BinOperator::LessThan),
        Keyword::LessThanEqualTo => Some(BinOperator::LessThanEqualTo),
        Keyword::GreaterThan => Some(BinOperator::GreaterThan),
        Keyword::GreaterThanEqualTo => Some(BinOperator::GreaterThanEqualTo),
        Keyword::LeftShift => Some(BinOperator::LeftShift),
        Keyword::RightShift => Some(BinOperator::RightShift),
        _ => None,
    }
}

/// The unary operator that a mnemonic names, if it names one.
pub open spec fn unary_operator(keyword: Keyword) -> Option<UnOperator> {
    match keyword {
        Keyword::Not => Some(UnOperator::Not),
        Keyword::Increment => Some(UnOperator::Increment),
        Keyword::Decrement => Some(UnOperator::Decrement),
        _ => None,
    }
}

/// The token at a place of the stream, if the stream reaches that far.
pub open spec fn operand(tokens: Seq<TokenView>, at: int) -> Option<TokenView> {
    if 0 <= at < tokens.len() {
        Some(tokens[at])
    } else {
        None
    }
}

/// The instruction that a keyword begins, with the number of operands it
/// takes; `at` is the place of the first operand in the stream. A mnemonic
/// takes a fixed number of operands of fixed kinds, and the first operand
/// that is missing or of another kind is the error. The reserved mnemonics
/// `move`, `call` and `callif` are not supported, and a keyword that is no
/// mnemonic begins no instruction.
pub open spec fn statement(keyword: Keyword, tokens: Seq<TokenView>, at: int) -> Result<
    (InstructionView, nat),
    ErrorView,
> {
    let first = operand(tokens, at);
    let second = operand(tokens, at + 1);
    let third = operand(tokens, at + 2);
    if binary_operator(keyword) is Some {
        if register_operand(first) is Err {
            Err(register_operand(first)->Err_0)
        } else if register_operand(second) is Err {
            Err(register_operand(second)->Err_0)
        } else if register_operand(third) is Err {
            Err(register_operand(third)->Err_0)
        } else {
            Ok(
                (
                    InstructionView::BinaryOp(
                        binary_operator(keyword)->Some_0,
                        register_operand(first)->Ok_0,
                        register_operand(second)->Ok_0,
                        register_operand(third)->Ok_0,
                    ),
                    3,
                ),
            )
        }
    } else if unary_operator(keyword) is Some {
        if register_operand(first) is Err {
            Err(register_operand(first)->Err_0)
        } else if register_operand(second) is Err {
            Err(register_operand(second)->Err_0)
        } else {
            Ok(
                (
                    InstructionView::UnaryOp(
                        unary_operator(keyword)->Some_0,
                        register_operand(first)->Ok_0,
                        register_operand(second)->Ok_0,
                    ),
                    2,
                ),
            )
        }
    } else {
        match keyword {
            Keyword::Push => if type_operand(first) is Err {
                Err(type_operand(first)->Err_0)
            } else if ident_operand(second) is Err {
                Err(ident_operand(second)->Err_0)
            } else {
                Ok((InstructionView::Push(type_operand(first)->Ok_0, ident_operand(second)->Ok_0), 2))
            },
            Keyword::SetVar => if ident_operand(first) is Err {
                Err(ident_operand(first)->Err_0)
            } else if value_operand(second) is Err {
                Err(value_operand(second)->Err_0)
            } else {
                Ok(
                    (
                        InstructionView::SetVar(
                            ident_operand(first)->Ok_0,
                            value_operand(second)->Ok_0,
                        ),
                        2,
                    ),
                )
            },
            Keyword::Load => if value_operand(first) is Err {
                Err(value_operand(first)->Err_0)
            } else if register_operand(second) is Err {
                Err(register_operand(second)->Err_0)
            } else {
                Ok(
                    (
                        InstructionView::Load(
                            value_operand(first)->Ok_0,
                            register_operand(second)->Ok_0,
                        ),
                        2,
                    ),
                )
            },
            Keyword::Unload => if register_operand(first) is Err {
                Err(register_operand(first)->Err_0)
            } else if ident_operand(second) is Err {
                Err(ident_operand(second)->Err_0)
            } else {
                Ok(
                    (
                        InstructionView::Unload(
                            register_operand(first)->Ok_0,
                            ident_operand(second)->Ok_0,
                        ),
                        2,
                    ),
                )
            },
            Keyword::Jump => if label_operand(first) is Err {
                Err(label_operand(first)->Err_0)
            } else {
                Ok((InstructionView::Jump(label_operand(first)->Ok_0), 1))
            },
            Keyword::JumpIf => if label_operand(first) is Err {
                Err(label_operand(first)->Err_0)
            } else if register_operand(second) is Err {
                Err(register_operand(second)->Err_0)
            } else {
                Ok(
                    (
                        InstructionView::JumpIf(
                            label_operand(first)->Ok_0,
                            register_operand(second)->Ok_0,
                        ),
                        2,
                    ),
                )
            },
            Keyword::Move => Err(ErrorView::Unsupported("move"@)),
            Keyword::Call => Err(ErrorView::Unsupported("call"@)),
            Keyword::CallIf => Err(ErrorView::Unsupported("callif"@)),
            _ => Err(ErrorView::InvalidArgument("Expected keyword: Mnemonic"@)),
        }
    }
}

/// The index that a label declared after `count` instructions stands for:
/// that of the instruction before the label, and zero where there is none.
pub open spec fn label_index(count: nat) -> usize {
    if count == 0 {
        0
    } else {
        (count - 1) as usize
    }
}

/// The program that the tokens from `at` on add to the one decoded so far.
/// A keyword begins an instruction. An identifier declares a label and must
/// be followed by a colon. Every other token is passed over.
pub open spec fn decode_from(tokens: Seq<TokenView>, at: int, sofar: ProgramView) -> Result<
    ProgramView,
    ErrorView,
>
    decreases tokens.len() - at,
{
    if at < 0 || at >= tokens.len() {
        Ok(sofar)
    } else {
        match tokens[at] {
            TokenView::Keyword(keyword) => match statement(keyword, tokens, at + 1) {
                Ok((instruction, taken)) => decode_from(
                    tokens,
                    at + 1 + taken,
                    ProgramView {
                        instructions: sofar.instructions.push(instruction),
                        labels: sofar.labels,
                    },
                ),
                Err(e) => Err(e),
            },
            TokenView::Identifier(name) => if operand(tokens, at + 1) == Some(
                TokenView::Symbol(Symbol::Colon),
            ) {
                decode_from(
                    tokens,
                    at + 1,
                    ProgramView {
                        instructions: sofar.instructions,
                        labels: sofar.labels.insert(name, label_index(sofar.instructions.len())),
                    },
                )
            } else {
                Err(ErrorView::InvalidArgument("Labels must be followed by a ':'"@))
            },
            _ => decode_from(tokens, at + 1, sofar),
        }
    }
}

/// The program that a token stream encodes.
pub open spec fn decoded(tokens: Seq<TokenView>) -> Result<ProgramView, ErrorView> {
    decode_from(tokens, 0, ProgramView { instructions: Seq::empty(), labels: Map::empty() })
}

/// Label binding. A label declared behind `n` instructions stands for the
/// index `n - 1`, that of the instruction before it, and for index zero
/// where no instruction stands before it; the colon behind it adds nothing
/// to the program.
pub proof fn lemma_label_binding(
    tokens: Seq<TokenView>,
    at: int,
    sofar: ProgramView,
    name: Seq<char>,
)
    requires
        operand(tokens, at) == Some(TokenView::Identifier(name)),
        operand(tokens, at + 1) == Some(TokenView::Symbol(Symbol::Colon)),
        sofar.instructions.len() <= usize::MAX,
    ensures
        decode_from(tokens, at, sofar) == decode_from(
            tokens,
            at + 2,
            ProgramView {
                instructions: sofar.instructions,
                labels: sofar.labels.insert(name, label_index(sofar.instructions.len())),
            },
        ),
        sofar.instructions.len() > 0 ==> label_index(sofar.instructions.len())
            == sofar.instructions.len() - 1,
        sofar.instructions.len() == 0 ==> label_index(sofar.instructions.len()) == 0,
{
    let bound = ProgramView {
        instructions: sofar.instructions,
        labels: sofar.labels.insert(name, label_index(sofar.instructions.len())),
    };
    assert(decode_from(tokens, at, sofar) == decode_from(tokens, at + 1, bound));
    assert(decode_from(tokens, at + 1, bound) == decode_from(tokens, at + 2, bound));
}

/// The binary operator that a mnemonic names.
fn binary_mnemonic(keyword: Keyword) -> (r: Option<BinOperator>)
    ensures
        r == binary_operator(keyword),
{
    match keyword {
        Keyword::Add => Some(BinOperator::Add),
        Keyword::Subtract => Some(BinOperator::Subtract),
        Keyword::Multiply => Some(BinOperator::Multiply),
        Keyword::Divide => Some(BinOperator::Divide),
        Keyword::Modulus => Some(BinOperator::Modulus),
        Keyword::And => Some(BinOperator::And),
        Keyword::Or => Some(BinOperator::Or),
        Keyword::Xor => Some(BinOperator::Xor),
        Keyword::Equals => Some(BinOperator::Equals),
        Keyword::NotEquals => Some(BinOperator::NotEquals),
        Keyword::LessThan => Some(BinOperator::LessThan),
        Keyword::LessThanEqualTo => Some(BinOperator::LessThanEqualTo),
        Keyword::GreaterThan => Some(BinOperator::GreaterThan),
        Keyword::GreaterThanEqualTo => Some(BinOperator::GreaterThanEqualTo),
        Keyword::LeftShift => Some(BinOperator::LeftShift),
        Keyword::RightShift => Some(BinOperator::RightShift),
        _ => None,
    }
}

/// The unary operator that a mnemonic names.
fn unary_mnemonic(keyword: Keyword) -> (r: Option<UnOperator>)
    ensures
        r == unary_operator(keyword),
{
    match keyword {
        Keyword::Not => Some(UnOperator::Not),
        Keyword::Increment => Some(UnOperator::Increment),
        Keyword::Decrement => Some(UnOperator::Decrement),
        _ => None,
    }
}

/// The token that stands `offset` places behind `at`, if the stream reaches
/// that far.
fn token_at(tokens: &Vec<Token>, at: usize, offset: usize) -> (r: Option<Token>)
    requires
        at <= tokens.len(),
    ensures
        optional_view(r) == operand(token_views(tokens@), at + offset),
        r is Some ==> at + offset < tokens.len(),
{
    if offset < tokens.len() - at {
        Some(tokens[at + offset].duplicate())
    } else {
        None
    }
}

/// Reads the operands of the instruction that a keyword begins, from the
/// place `at` on, and gives the instruction with the place behind them.
fn read_statement(keyword: Keyword, tokens: &Vec<Token>, at: usize) -> (r: Result<
    (Instruction, usize),
    JAPLError,
>)
    requires
        at <= tokens.len(),
    ensures
        match r {
            Ok((instruction, next)) => {
                &&& statement(keyword, token_views(tokens@), at as int) == Ok::<
                    (InstructionView, nat),
                    ErrorView,
                >((instruction@, (next - at) as nat))
                &&& at < next <= tokens.len()
            },
            Err(e) => statement(keyword, token_views(tokens@), at as int) == Err::<
                (InstructionView, nat),
                ErrorView,
            >(e@),
        },
{
    if let Some(op) = binary_mnemonic(keyword) {
        let src1 = match get_register_name(token_at(tokens, at, 0)) {
            Ok(reg) => reg,
            Err(e) => {
                return Err(e);
            },
        };
        let src2 = match get_register_name(token_at(tokens, at, 1)) {
            Ok(reg) => reg,
            Err(e) => {
                return Err(e);
            },
        };
        let dst = match get_register_name(token_at(tokens, at, 2)) {
            Ok(reg) => reg,
            Err(e) => {
                return Err(e);
            },
        };
        return Ok((Instruction::BinaryOp(op, src1, src2, dst), at + 3));
    }
    if let Some(op) = unary_mnemonic(keyword) {
        let src = match get_register_name(token_at(tokens, at, 0)) {
            Ok(reg) => reg,
            Err(e) => {
                return Err(e);
            },
        };
        let dst = match get_register_name(token_at(tokens, at, 1)) {
            Ok(reg) => reg,
            Err(e) => {
                return Err(e);
            },
        };
        return Ok((Instruction::UnaryOp(op, src, dst), at + 2));
    }
    match keyword {
        Keyword::Push => {
            let var_type = match get_variable_type(token_at(tokens, at, 0)) {
                Ok(var_type) => var_type,
                Err(e) => {
                    return Err(e);
                },
            };
            let var_name = match get_ident_name(token_at(tokens, at, 1)) {
                Ok(name) => name,
                Err(e) => {
                    return Err(e);
                },
            };
            Ok((Instruction::Push(var_type, var_name), at + 2))
        },
        Keyword::SetVar => {
            let var_name = match get_ident_name(token_at(tokens, at, 0)) {
                Ok(name) => name,
                Err(e) => {
                    return Err(e);
                },
            };
            let value = match get_value(token_at(tokens, at, 1)) {
                Ok(value) => value,
                Err(e) => {
                    return Err(e);
                },
            };
            Ok((Instruction::SetVar(var_name, value), at + 2))
        },
        Keyword::Load => {
            let value = match get_value(token_at(tokens, at, 0)) {
                Ok(value) => value,
                Err(e) => {
                    return Err(e);
                },
            };
            let reg = match get_register_name(token_at(tokens, at, 1)) {
                Ok(reg) => reg,
                Err(e) => {
                    return Err(e);
                },
            };
            Ok((Instruction::Load(value, reg), at + 2))
        },
        Keyword::Unload => {
            let reg = match get_register_name(token_at(tokens, at, 0)) {
                Ok(reg) => reg,
                Err(e) => {
                    return Err(e);
                },
            };
            let var_name = match get_ident_name(token_at(tokens, at, 1)) {
                Ok(name) => name,
                Err(e) => {
                    return Err(e);
                },
            };
            Ok((Instruction::Unload(reg, var_name), at + 2))
        },
        Keyword::Jump => {
            let label = match get_label_name(token_at(tokens, at, 0)) {
                Ok(name) => name,
                Err(e) => {
                    return Err(e);
                },
            };
            Ok((Instruction::Jump(label), at + 1))
        },
        Keyword::JumpIf => {
            let label = match get_label_name(token_at(tokens, at, 0)) {
                Ok(name) => name,
                Err(e) => {
                    return Err(e);
                },
            };
            let reg = match get_register_name(token_at(tokens, at, 1)) {
                Ok(reg) => reg,
                Err(e) => {
                    return Err(e);
                },
            };
            Ok((Instruction::JumpIf(label, reg), at + 2))
        },
        Keyword::Move => Err(JAPLError::Unsupported(String::from_str("move"))),
        Keyword::Call => Err(JAPLError::Unsupported(String::from_str("call"))),
        Keyword::CallIf => Err(JAPLError::Unsupported(String::from_str("callif"))),
        _ => Err(JAPLError::InvalidArgument(String::from_str("Expected keyword: Mnemonic"))),
    }
}

/// Decodes a token stream into the instructions of the program and its
/// label table, in one pass from left to right.
pub fn parse(tokens: Vec<Token>) -> (r: Result<(Vec<Instruction>, LabelTable), JAPLError>)
    ensures
        match r {
            Ok((instructions, labels)) => decoded(token_views(tokens@)) == Ok::<
                ProgramView,
                ErrorView,
            >(
                ProgramView { instructions: instruction_views(instructions@), labels: labels@ },
            ),
            Err(e) => decoded(token_views(tokens@)) == Err::<ProgramView, ErrorView>(e@),
        },
{
    let mut instruction_set: Vec<Instruction> = Vec::new();
    let mut labels = LabelTable::new();
    let mut at: usize = 0;
    let ghost stream = token_views(tokens@);
    assert(instruction_views(instruction_set@) =~= Seq::empty());
    while at < tokens.len()
        invariant
            at <= tokens.len(),
            stream == token_views(tokens@),
            decoded(stream) == decode_from(
                stream,
                at as int,
                ProgramView {
                    instructions: instruction_views(instruction_set@),
                    labels: labels@,
                },
            ),
        decreases tokens.len() - at,
    {
        let ghost before = instruction_views(instruction_set@);
        match &tokens[at] {
            Token::Keyword(keyword) => {
                match read_statement(*keyword, &tokens, at + 1) {
                    Ok((instruction, next)) => {
                        instruction_set.push(instruction);
                        assert(instruction_views(instruction_set@) =~= before.push(instruction@));
                        at = next;
                    },
                    Err(e) => {
                        return Err(e);
                    },
                }
            },
            Token::Identifier(name) => {
                let colon = match token_at(&tokens, at, 1) {
                    Some(Token::Symbol(Symbol::Colon)) => true,
                    _ => false,
                };
                if !colon {
                    return Err(
                        JAPLError::InvalidArgument(
                            String::from_str("Labels must be followed by a ':'"),
                        ),
                    );
                }
                let index = if instruction_set.len() == 0 {
                    0
                } else {
                    instruction_set.len() - 1
                };
                labels.insert(name.clone(), index);
                at = at + 1;
            },
            _ => {
                at = at + 1;
            },
        }
    }
    Ok((instruction_set, labels))
}

} // verus!
