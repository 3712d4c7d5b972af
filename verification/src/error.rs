use vstd::prelude::*;
use vstd::string::StringExecFns;

verus! {

/// What can go wrong while a program text is read and decoded. Each error
/// carries the word it is about, or a short description.
#[derive(Debug, PartialEq, Eq, Clone)]
pub enum JAPLError {
    /// A word is no keyword, symbol, literal or identifier.
    InvalidIdentifier(String),
    /// An operand is missing, or is not of the kind the mnemonic takes.
    InvalidArgument(String),
    /// The program uses a part of the language that has no meaning yet.
    Unsupported(String),
}

/// The mathematical content of a `JAPLError`.
pub enum ErrorView {
    InvalidIdentifier(Seq<char>),
    InvalidArgument(Seq<char>),
    Unsupported(Seq<char>),
}

impl View for JAPLError {
    type V = ErrorView;

    open spec fn view(&self) -> ErrorView {
        match self {
            JAPLError::InvalidIdentifier(text) => ErrorView::InvalidIdentifier(text@),
            JAPLError::InvalidArgument(text) => ErrorView::InvalidArgument(text@),
            JAPLError::Unsupported(text) => ErrorView::Unsupported(text@),
        }
    }
}

impl ErrorView {
    /// The line that describes the error to a reader.
    pub open spec fn message(self) -> Seq<char> {
        match self {
            ErrorView::InvalidIdentifier(text) => "Invalid identifier: "@ + text,
            ErrorView::InvalidArgument(text) => "Invalid arguments passed: "@ + text,
            ErrorView::Unsupported(text) => "Unsupported: "@ + text,
        }
    }
}

impl JAPLError {
    /// The line that describes the error to a reader.
    pub fn message(&self) -> (r: String)
        ensures
            r@ == self@.message(),
    {
        match self {
            JAPLError::InvalidIdentifier(text) => String::from_str("Invalid identifier: ").concat(
                text.as_str(),
            ),
            JAPLError::InvalidArgument(text) => String::from_str(
                "Invalid arguments passed: ",
            ).concat(text.as_str()),
            JAPLError::Unsupported(text) => String::from_str("Unsupported: ").concat(
                text.as_str(),
            ),
        }
    }
}

/// What can stop a run of the machine.
#[derive(Debug, PartialEq, Eq, Structural, Clone, Copy)]
pub enum RuntimeError {
    /// An operator was applied to a combination of register classes it is not defined on.
    OperationError,
    /// An integer division or remainder with a zero divisor.
    DivisionByZero,
    /// A value does not have the width of the place it is moved to or from.
    SizeMismatch,
    /// A jump names a label that the label table does not hold.
    LabelNotFound,
    /// An instruction names a variable that was never declared.
    VariableNotFound,
    /// A variable's bytes lie outside the variable area.
    StackOverflow,
    /// The instruction is reserved and has no meaning yet.
    Unsupported,
}

} // verus!
