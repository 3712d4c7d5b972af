use vstd::prelude::*;
use vstd::string::StringExecFns;
use crate::error::{ErrorView, JAPLError};
use crate::lexer::token::{optional_view, Token, TokenView};
use crate::runtime::register::{register_of, RegisterName};
use crate::runtime::types::{type_of, Type};
use crate::runtime::value::{value_of, Value, ValueView};

verus! {

/// The register that an operand names. The operand must be there and be the
/// keyword of a register.
pub open spec fn register_operand(token: Option<TokenView>) -> Result<RegisterName, ErrorView> {
    match token {
        None => Err(ErrorView::InvalidArgument("Missing token: RegisterName"@)),
        Some(TokenView::Keyword(keyword)) => match register_of(keyword) {
            Some(reg) => Ok(reg),
            None => Err(ErrorView::InvalidArgument("Exptected keyword: Register Name"@)),
        },
        Some(_) => Err(ErrorView::InvalidArgument("Exptected keyword: Register Name"@)),
    }
}

/// The type that an operand names. The operand must be there and be the
/// keyword of a type.
pub open spec fn type_operand(token: Option<TokenView>) -> Result<Type, ErrorView> {
    match token {
        None => Err(ErrorView::InvalidArgument("Missing token: Variable Type"@)),
        Some(TokenView::Keyword(keyword)) => match type_of(keyword) {
            Some(var_type) => Ok(var_type),
            None => Err(ErrorView::InvalidArgument("Exptected keyword: Variable Type"@)),
        },
        Some(_) => Err(ErrorView::InvalidArgument("Exptected keyword: Variable Type"@)),
    }
}

/// The variable that an operand names. The operand must be there and be an
/// identifier.
pub open spec fn ident_operand(token: Option<TokenView>) -> Result<Seq<char>, ErrorView> {
    match token {
        None => Err(ErrorView::InvalidArgument("Missing token: Identifier"@)),
        Some(TokenView::Identifier(name)) => Ok(name),
        Some(_) => Err(ErrorView::InvalidArgument("Exptected identifier: Variable Name"@)),
    }
}

/// The label that an operand names. The operand must be there and be an
/// identifier.
pub open spec fn label_operand(token: Option<TokenView>) -> Result<Seq<char>, ErrorView> {
    match token {
        None => Err(ErrorView::InvalidArgument("Missing token: Label Name"@)),
        Some(TokenView::Identifier(name)) => Ok(name),
        Some(_) => Err(ErrorView::InvalidArgument("Exptected identifier: Label Name"@)),
    }
}

/// The value that an operand stands for. The operand must be there and be an
/// identifier or a literal.
pub open spec fn value_operand(token: Option<TokenView>) -> Result<ValueView, ErrorView> {
    match token {
        None => Err(ErrorView::InvalidArgument("Missing token: Value"@)),
        Some(token) => match value_of(token) {
            Some(value) => Ok(value),
            None => Err(ErrorView::InvalidArgument("Expected token: Value"@)),
        },
    }
}

/// Reads an operand that names a register.
pub fn get_register_name(tkn: Option<Token>) -> (r: Result<RegisterName, JAPLError>)
    ensures
        match r {
            Ok(reg) => register_operand(optional_view(tkn)) == Ok::<RegisterName, ErrorView>(reg),
            Err(e) => register_operand(optional_view(tkn)) == Err::<RegisterName, ErrorView>(e@),
        },
{
    match tkn {
        None => Err(JAPLError::InvalidArgument(String::from_str("Missing token: RegisterName"))),
        Some(Token::Keyword(keyword)) => match RegisterName::try_from(keyword) {
            Ok(reg) => Ok(reg),
            Err(_) => Err(
                JAPLError::InvalidArgument(String::from_str("Exptected keyword: Register Name")),
            ),
        },
        Some(_) => Err(
            JAPLError::InvalidArgument(String::from_str("Exptected keyword: Register Name")),
        ),
    }
}

/// Reads an operand that names a type.
pub fn get_variable_type(tkn: Option<Token>) -> (r: Result<Type, JAPLError>)
    ensures
        match r {
            Ok(var_type) => type_operand(optional_view(tkn)) == Ok::<Type, ErrorView>(var_type),
            Err(e) => type_operand(optional_view(tkn)) == Err::<Type, ErrorView>(e@),
        },
{
    match tkn {
        None => Err(JAPLError::InvalidArgument(String::from_str("Missing token: Variable Type"))),
        Some(Token::Keyword(keyword)) => match Type::try_from(keyword) {
            Ok(var_type) => Ok(var_type),
            Err(_) => Err(
                JAPLError::InvalidArgument(String::from_str("Exptected keyword: Variable Type")),
            ),
        },
        Some(_) => Err(
            JAPLError::InvalidArgument(String::from_str("Exptected keyword: Variable Type")),
        ),
    }
}

/// Reads an operand that names a variable.
pub fn get_ident_name(tkn: Option<Token>) -> (r: Result<String, JAPLError>)
    ensures
        match r {
            Ok(name) => ident_operand(optional_view(tkn)) == Ok::<Seq<char>, ErrorView>(name@),
            Err(e) => ident_operand(optional_view(tkn)) == Err::<Seq<char>, ErrorView>(e@),
        },
{
    match tkn {
        None => Err(JAPLError::InvalidArgument(String::from_str("Missing token: Identifier"))),
        Some(Token::Identifier(name)) => Ok(name),
        Some(_) => Err(
            JAPLError::InvalidArgument(String::from_str("Exptected identifier: Variable Name")),
        ),
    }
}

/// Reads an operand that names a label.
pub fn get_label_name(tkn: Option<Token>) -> (r: Result<String, JAPLError>)
    ensures
        match r {
            Ok(name) => label_operand(optional_view(tkn)) == Ok::<Seq<char>, ErrorView>(name@),
            Err(e) => label_operand(optional_view(tkn)) == Err::<Seq<char>, ErrorView>(e@),
        },
{
    match tkn {
        None => Err(JAPLError::InvalidArgument(String::from_str("Missing token: Label Name"))),
        Some(Token::Identifier(name)) => Ok(name),
        Some(_) => Err(
            JAPLError::InvalidArgument(String::from_str("Exptected identifier: Label Name")),
        ),
    }
}

/// Reads an operand that stands for a value.
pub fn get_value(tkn: Option<Token>) -> (r: Result<Value, JAPLError>)
    ensures
        match r {
            Ok(value) => value_operand(optional_view(tkn)) == Ok::<ValueView, ErrorView>(value@),
            Err(e) => value_operand(optional_view(tkn)) == Err::<ValueView, ErrorView>(e@),
        },
{
    match tkn {
        None => Err(JAPLError::InvalidArgument(String::from_str("Missing token: Value"))),
        Some(token) => match Value::try_from(token) {
            Ok(value) => Ok(value),
            Err(_) => Err(JAPLError::InvalidArgument(String::from_str("Expected token: Value"))),
        },
    }
}

} // verus!
