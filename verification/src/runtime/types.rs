use vstd::prelude::*;
use crate::lexer::keyword::Keyword;

verus! {

/// The primitive kinds a variable can be declared with.
#[derive(Debug, PartialEq, Eq, Structural, Clone, Copy)]
pub enum Type {
    Int8,
    Int16,
    Int32,
    Int64,
    Uint8,
    Uint16,
    Uint32,
    Uint64,
    Float32,
    Float64,
    Boolean,
    Character,
}

/// The type that a keyword names, if it names one.
pub open spec fn type_of(keyword: Keyword) -> Option<Type> {
    match keyword {
        Keyword::Int8 => Some(Type::Int8),
        Keyword::Int16 => Some(Type::Int16),
        Keyword::Int32 => Some(Type::Int32),
        Keyword::Int64 => Some(Type::Int64),
        Keyword::Uint8 => Some(Type::Uint8),
        Keyword::Uint16 => Some(Type::Uint16),
        Keyword::Uint32 => Some(Type::Uint32),
        Keyword::Uint64 => Some(Type::Uint64),
        Keyword::Float32 => Some(Type::Float32),
        Keyword::Float64 => Some(Type::Float64),
        Keyword::Character => Some(Type::Character),
        Keyword::Boolean => Some(Type::Boolean),
        _ => None,
    }
}

impl Type {
    /// The width of the kind in bytes, as a mathematical number.
    pub open spec fn spec_size(self) -> nat {
        match self {
            Type::Int8 | Type::Uint8 | Type::Boolean => 1,
            Type::Int16 | Type::Uint16 => 2,
            Type::Int32 | Type::Uint32 | Type::Float32 | Type::Character => 4,
            Type::Int64 | Type::Uint64 | Type::Float64 => 8,
        }
    }

    /// The number of bytes a variable of this kind occupies.
    pub fn size(&self) -> (r: usize)
        ensures
            r == self.spec_size(),
            r == 1 || r == 2 || r == 4 || r == 8,
    {
        match self {
            Type::Int8 => 1,
            Type::Int16 => 2,
            Type::Int32 => 4,
            Type::Int64 => 8,
            Type::Uint8 => 1,
            Type::Uint16 => 2,
            Type::Uint32 => 4,
            Type::Uint64 => 8,
            Type::Float32 => 4,
            Type::Float64 => 8,
            Type::Boolean => 1,
            Type::Character => 4,
        }
    }

    /// Reads a type from the keyword that names it.
    pub fn try_from(value: Keyword) -> (r: Result<Type, ()>)
        ensures
            match r {
                Ok(var_type) => type_of(value) == Some(var_type),
                Err(_) => type_of(value) is None,
            },
    {
        match value {
            Keyword::Int8 => Ok(Type::Int8),
            Keyword::Int16 => Ok(Type::Int16),
            Keyword::Int32 => Ok(Type::Int32),
            Keyword::Int64 => Ok(Type::Int64),
            Keyword::Uint8 => Ok(Type::Uint8),
            Keyword::Uint16 => Ok(Type::Uint16),
            Keyword::Uint32 => Ok(Type::Uint32),
            Keyword::Uint64 => Ok(Type::Uint64),
            Keyword::Float32 => Ok(Type::Float32),
            Keyword::Float64 => Ok(Type::Float64),
            Keyword::Character => Ok(Type::Character),
            Keyword::Boolean => Ok(Type::Boolean),
            _ => Err(()),
        }
    }
}

} // verus!
