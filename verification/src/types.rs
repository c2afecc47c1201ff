use vstd::prelude::*;
use crate::text::{owned, push_str};

verus! {

/// The types of Amber values that the builtins and command line parameters
/// deal with.
#[derive(Debug, PartialEq, Eq)]
pub enum Type {
    Null,
    Text,
    Bool,
    Num,
    Int,
    Array(Box<Type>),
}

/// How a type is written in messages: `Text`, `[Int]`, ...
pub open spec fn name_of_type(t: Type) -> Seq<char>
    decreases t,
{
    match t {
        Type::Null => "Null"@,
        Type::Text => "Text"@,
        Type::Bool => "Bool"@,
        Type::Num => "Num"@,
        Type::Int => "Int"@,
        Type::Array(inner) => seq!['['] + name_of_type(*inner) + seq![']'],
    }
}

impl Type {
    /// The type written as in messages.
    pub fn to_text(&self) -> (r: String)
        ensures
            r@ == name_of_type(*self),
        decreases self,
    {
        match self {
            Type::Null => owned("Null"),
            Type::Text => owned("Text"),
            Type::Bool => owned("Bool"),
            Type::Num => owned("Num"),
            Type::Int => owned("Int"),
            Type::Array(inner) => {
                let mut r = owned("[");
                let name = inner.to_text();
                push_str(&mut r, name.as_str());
                push_str(&mut r, "]");
                proof {
                    reveal_strlit("[");
                    reveal_strlit("]");
                }
                assert(r@ =~= seq!['['] + name_of_type(**inner) + seq![']']);
                r
            },
        }
    }

    /// An equal type.
    pub fn copied(&self) -> (r: Type)
        ensures
            r == *self,
        decreases self,
    {
        match self {
            Type::Null => Type::Null,
            Type::Text => Type::Text,
            Type::Bool => Type::Bool,
            Type::Num => Type::Num,
            Type::Int => Type::Int,
            Type::Array(inner) => Type::Array(Box::new(inner.copied())),
        }
    }

    /// The type of arrays of `t`.
    pub fn array_of(t: Type) -> (r: Type)
        ensures
            r == Type::Array(Box::new(t)),
    {
        Type::Array(Box::new(t))
    }

    pub fn is_null(&self) -> (r: bool)
        ensures
            r == (*self is Null),
    {
        match self {
            Type::Null => true,
            _ => false,
        }
    }

    pub fn is_text(&self) -> (r: bool)
        ensures
            r == (*self is Text),
    {
        match self {
            Type::Text => true,
            _ => false,
        }
    }

    pub fn is_bool(&self) -> (r: bool)
        ensures
            r == (*self is Bool),
    {
        match self {
            Type::Bool => true,
            _ => false,
        }
    }

    pub fn is_int(&self) -> (r: bool)
        ensures
            r == (*self is Int),
    {
        match self {
            Type::Int => true,
            _ => false,
        }
    }

    pub fn is_num(&self) -> (r: bool)
        ensures
            r == (*self is Num),
    {
        match self {
            Type::Num => true,
            _ => false,
        }
    }

    pub fn is_array(&self) -> (r: bool)
        ensures
            r == (*self is Array),
    {
        match self {
            Type::Array(_) => true,
            _ => false,
        }
    }

    /// Whether the type is `[Text]`.
    pub fn is_array_of_text(&self) -> (r: bool)
        ensures
            r == (*self matches Type::Array(inner) && *inner is Text),
    {
        match self {
            Type::Array(inner) => inner.is_text(),
            _ => false,
        }
    }

    /// Whether the type is `[Int]`.
    pub fn is_array_of_int(&self) -> (r: bool)
        ensures
            r == (*self matches Type::Array(inner) && *inner is Int),
    {
        match self {
            Type::Array(inner) => inner.is_int(),
            _ => false,
        }
    }
}

} // verus!
