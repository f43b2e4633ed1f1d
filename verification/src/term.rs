use vstd::prelude::*;

verus! {

/// A type of the object language: an inference variable minted by the
/// annotation pass, one of the two ground types, or a function type that owns
/// its parameter and return types. Every value is a finite tree.
#[derive(Debug, PartialEq, Eq, Hash)]
pub enum Type {
    Variable(u64),
    Integer,
    Boolean,
    Function { parameter_type: Box<Type>, return_type: Box<Type> },
}

impl Clone for Type {
    /// Cloning yields a structurally identical type.
    fn clone(&self) -> (result: Type)
        ensures
            result == *self,
        decreases self,
    {
        match self {
            Type::Variable(id) => Type::Variable(*id),
            Type::Integer => Type::Integer,
            Type::Boolean => Type::Boolean,
            Type::Function { parameter_type, return_type } => Type::Function {
                parameter_type: Box::new((**parameter_type).clone()),
                return_type: Box::new((**return_type).clone()),
            },
        }
    }
}

/// A syntax-tree node as the annotation pass hands it over: the node's own
/// type (a fresh variable, never touched again by this crate) together with
/// the node's kind. The collector reads such trees and never mutates them.
#[derive(Debug)]
pub struct TypedTerm {
    pub ty: Type,
    pub kind: TypedTermKind,
}

/// The closed set of node kinds of the expression language.
#[derive(Debug)]
pub enum TypedTermKind {
    Integer { value: i64 },
    Identifier { name: String },
    FunctionApplication { function: Box<TypedTerm>, argument: Box<TypedTerm> },
    FunctionDefinition { parameter: Box<TypedTerm>, body: Box<TypedTerm> },
    IfExpression {
        condition: Box<TypedTerm>,
        true_branch: Box<TypedTerm>,
        false_branch: Box<TypedTerm>,
    },
    LetExpression {
        declaration_name: Box<TypedTerm>,
        declaration_value: Box<TypedTerm>,
        expression: Box<TypedTerm>,
    },
}

} // verus!
