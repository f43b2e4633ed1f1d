use vstd::prelude::*;

use crate::bindings::Bindings;
use crate::term::Type;
use crate::term::TypedTerm;
use crate::term::TypedTermKind;

verus! {

/// An equality obligation between two types, to be discharged later by a
/// unification solver. The pair is stored in emission order; semantically the
/// obligation is symmetric.
#[derive(Debug, PartialEq, Eq, Hash)]
pub struct Constraint {
    pub type1: Type,
    pub type2: Type,
}

/// The type `Integer -> Integer` that every built-in operator is seeded with.
pub open spec fn operator_type() -> Type {
    Type::Function {
        parameter_type: Box::new(Type::Integer),
        return_type: Box::new(Type::Integer),
    }
}

/// The environment every top-level collection starts from: the five built-in
/// operator names, each bound to `Integer -> Integer`. The equality operator
/// `=` deliberately gets the same type as the arithmetic operators.
pub open spec fn initial_bindings() -> Map<Seq<char>, Type> {
    Map::empty()
        .insert("+"@, operator_type())
        .insert("-"@, operator_type())
        .insert("*"@, operator_type())
        .insert("/"@, operator_type())
        .insert("="@, operator_type())
}

/// The environment a `let` expression's trailing expression is collected
/// under: the declaration name bound to its own annotated type whenever that
/// declaration target is an identifier, and the unchanged environment
/// otherwise (a malformed target silently adds nothing).
pub open spec fn let_extended(declaration_name: TypedTerm, env: Map<Seq<char>, Type>) -> Map<
    Seq<char>,
    Type,
> {
    match declaration_name.kind {
        TypedTermKind::Identifier { name } => env.insert(name@, declaration_name.ty),
        _ => env,
    }
}

/// The constraints the collector emits for `term` under `env`, in emission
/// order: for each node its self-constraints first, then the constraints of
/// its children, left to right. An identifier with no binding contributes
/// nothing; a `let` collects its declaration value under the unextended
/// environment and only its trailing expression under the extended one.
pub open spec fn constraints_of(term: TypedTerm, env: Map<Seq<char>, Type>) -> Seq<Constraint>
    decreases term,
{
    match term.kind {
        TypedTermKind::Integer { value } => seq![
            Constraint { type1: term.ty, type2: Type::Integer },
        ],
        TypedTermKind::Identifier { name } => {
            if env.contains_key(name@) {
                seq![Constraint { type1: term.ty, type2: env[name@] }]
            } else {
                Seq::empty()
            }
        },
        TypedTermKind::FunctionApplication { function, argument } => seq![
            Constraint {
                type1: (*function).ty,
                type2: Type::Function {
                    parameter_type: Box::new((*argument).ty),
                    return_type: Box::new(term.ty),
                },
            },
        ] + constraints_of(*function, env) + constraints_of(*argument, env),
        TypedTermKind::FunctionDefinition { parameter, body } => seq![
            Constraint {
                type1: term.ty,
                type2: Type::Function {
                    parameter_type: Box::new((*parameter).ty),
                    return_type: Box::new((*body).ty),
                },
            },
        ] + constraints_of(*body, env),
        TypedTermKind::IfExpression { condition, true_branch, false_branch } => seq![
            Constraint { type1: term.ty, type2: (*true_branch).ty },
            Constraint { type1: term.ty, type2: (*false_branch).ty },
            Constraint { type1: (*condition).ty, type2: Type::Boolean },
            Constraint { type1: (*true_branch).ty, type2: (*false_branch).ty },
        ] + constraints_of(*condition, env) + constraints_of(*true_branch, env) + constraints_of(
            *false_branch,
            env,
        ),
        TypedTermKind::LetExpression { declaration_name, declaration_value, expression } => seq![
            Constraint { type1: term.ty, type2: (*expression).ty },
            Constraint { type1: (*declaration_name).ty, type2: (*declaration_value).ty },
        ] + constraints_of(*declaration_value, env) + constraints_of(
            *expression,
            let_extended(*declaration_name, env),
        ),
    }
}

/// Collects the constraints of a fully annotated term under a fresh
/// environment holding exactly the five built-in operators. Total: every
/// tree of the six node kinds yields a (possibly empty) sequence.
pub fn collect_constraints(term: &TypedTerm) -> (result: Vec<Constraint>)
    ensures
        result@ == constraints_of(*term, initial_bindings()),
{
    let mut bindings = Bindings::new();
    bindings.insert(String::from_str("+"), make_operator_type());
    bindings.insert(String::from_str("-"), make_operator_type());
    bindings.insert(String::from_str("*"), make_operator_type());
    bindings.insert(String::from_str("/"), make_operator_type());
    bindings.insert(String::from_str("="), make_operator_type());
    collect_constraints_with_bindings(term, &bindings)
}

/// Builds the executable `Integer -> Integer` operator type.
fn make_operator_type() -> (result: Type)
    ensures
        result == operator_type(),
{
    Type::Function {
        parameter_type: Box::new(Type::Integer),
        return_type: Box::new(Type::Integer),
    }
}

/// The recursive descent: emits each node's self-constraints, then the
/// children's, threading the environment as `constraints_of` describes.
pub fn collect_constraints_with_bindings(term: &TypedTerm, bindings: &Bindings) -> (result: Vec<
    Constraint,
>)
    ensures
        result@ == constraints_of(*term, bindings@),
    decreases *term,
{
    match &term.kind {
        TypedTermKind::Integer { value: _ } => {
            let mut constraints: Vec<Constraint> = Vec::new();
            constraints.push(Constraint { type1: term.ty.clone(), type2: Type::Integer });
            proof {
                assert(constraints@ =~= constraints_of(*term, bindings@));
            }
            constraints
        },
        TypedTermKind::Identifier { name } => {
            let mut constraints: Vec<Constraint> = Vec::new();
            match bindings.lookup(name) {
                Some(bound) => {
                    constraints.push(Constraint { type1: term.ty.clone(), type2: bound.clone() });
                },
                None => {},
            }
            proof {
                assert(constraints@ =~= constraints_of(*term, bindings@));
            }
            constraints
        },
        TypedTermKind::FunctionApplication { function, argument } => {
            let mut constraints: Vec<Constraint> = Vec::new();
            constraints.push(
                Constraint {
                    type1: function.ty.clone(),
                    type2: Type::Function {
                        parameter_type: Box::new(argument.ty.clone()),
                        return_type: Box::new(term.ty.clone()),
                    },
                },
            );
            let mut from_function = collect_constraints_with_bindings(function, bindings);
            constraints.append(&mut from_function);
            let mut from_argument = collect_constraints_with_bindings(argument, bindings);
            constraints.append(&mut from_argument);
            proof {
                assert(constraints@ =~= constraints_of(*term, bindings@));
            }
            constraints
        },
        TypedTermKind::FunctionDefinition { parameter, body } => {
            let mut constraints: Vec<Constraint> = Vec::new();
            constraints.push(
                Constraint {
                    type1: term.ty.clone(),
                    type2: Type::Function {
                        parameter_type: Box::new(parameter.ty.clone()),
                        return_type: Box::new(body.ty.clone()),
                    },
                },
            );
            let mut from_body = collect_constraints_with_bindings(body, bindings);
            constraints.append(&mut from_body);
            proof {
                assert(constraints@ =~= constraints_of(*term, bindings@));
            }
            constraints
        },
        TypedTermKind::IfExpression { condition, true_branch, false_branch } => {
            let mut constraints: Vec<Constraint> = Vec::new();
            constraints.push(
                Constraint { type1: term.ty.clone(), type2: true_branch.ty.clone() },
            );
            constraints.push(
                Constraint { type1: term.ty.clone(), type2: false_branch.ty.clone() },
            );
            constraints.push(
                Constraint { type1: condition.ty.clone(), type2: Type::Boolean },
            );
            constraints.push(
                Constraint { type1: true_branch.ty.clone(), type2: false_branch.ty.clone() },
            );
            let mut from_condition = collect_constraints_with_bindings(condition, bindings);
            constraints.append(&mut from_condition);
            let mut from_true = collect_constraints_with_bindings(true_branch, bindings);
            constraints.append(&mut from_true);
            let mut from_false = collect_constraints_with_bindings(false_branch, bindings);
            constraints.append(&mut from_false);
            proof {
                assert(constraints@ =~= constraints_of(*term, bindings@));
            }
            constraints
        },
        TypedTermKind::LetExpression { declaration_name, declaration_value, expression } => {
            let mut constraints: Vec<Constraint> = Vec::new();
            constraints.push(
                Constraint { type1: term.ty.clone(), type2: expression.ty.clone() },
            );
            constraints.push(
                Constraint {
                    type1: declaration_name.ty.clone(),
                    type2: declaration_value.ty.clone(),
                },
            );
            let mut from_value = collect_constraints_with_bindings(declaration_value, bindings);
            constraints.append(&mut from_value);
            let mut from_expression = match &declaration_name.kind {
                TypedTermKind::Identifier { name } => {
                    let extended = bindings.extended(name, &declaration_name.ty);
                    collect_constraints_with_bindings(expression, &extended)
                },
                _ => collect_constraints_with_bindings(expression, bindings),
            };
            constraints.append(&mut from_expression);
            proof {
                assert(constraints@ =~= constraints_of(*term, bindings@));
            }
            constraints
        },
    }
}

/// Determinism: the constraints of a term under an environment form one
/// well-defined sequence, so any two collections from equal inputs agree.
pub proof fn lemma_collection_deterministic(
    term: TypedTerm,
    env: Map<Seq<char>, Type>,
    first: Seq<Constraint>,
    second: Seq<Constraint>,
)
    requires
        first == constraints_of(term, env),
        second == constraints_of(term, env),
    ensures
        first == second,
{
}

/// Leaf minimality: an identifier whose name has no matching binding yields
/// the empty sequence.
pub proof fn lemma_unbound_identifier_yields_nothing(term: TypedTerm, env: Map<Seq<char>, Type>)
    requires
        term.kind matches TypedTermKind::Identifier { name } && !env.contains_key(name@),
    ensures
        constraints_of(term, env) == Seq::<Constraint>::empty(),
{
}

/// Literal typing: an integer literal yields exactly one constraint, equating
/// the node's own type with `Integer`.
pub proof fn lemma_integer_literal_constraint(term: TypedTerm, env: Map<Seq<char>, Type>)
    requires
        term.kind is Integer,
    ensures
        constraints_of(term, env) == seq![Constraint { type1: term.ty, type2: Type::Integer }],
        constraints_of(term, env).len() == 1,
{
}

/// Conditional shape: a conditional yields exactly its four self-constraints,
/// whatever the branches hold, followed by the constraints of its three
/// children in order.
pub proof fn lemma_if_expression_shape(
    ty: Type,
    condition: Box<TypedTerm>,
    true_branch: Box<TypedTerm>,
    false_branch: Box<TypedTerm>,
    env: Map<Seq<char>, Type>,
)
    ensures
        ({
            let term = TypedTerm {
                ty,
                kind: TypedTermKind::IfExpression { condition, true_branch, false_branch },
            };
            constraints_of(term, env) == seq![
                Constraint { type1: ty, type2: (*true_branch).ty },
                Constraint { type1: ty, type2: (*false_branch).ty },
                Constraint { type1: (*condition).ty, type2: Type::Boolean },
                Constraint { type1: (*true_branch).ty, type2: (*false_branch).ty },
            ] + constraints_of(*condition, env) + constraints_of(*true_branch, env)
                + constraints_of(*false_branch, env)
        }),
{
}

/// Application shape: an application yields exactly one self-constraint,
/// `type(function) = Function(type(argument), own type)`, followed by the
/// constraints of the function and then of the argument.
pub proof fn lemma_application_shape(
    ty: Type,
    function: Box<TypedTerm>,
    argument: Box<TypedTerm>,
    env: Map<Seq<char>, Type>,
)
    ensures
        ({
            let term = TypedTerm {
                ty,
                kind: TypedTermKind::FunctionApplication { function, argument },
            };
            constraints_of(term, env) == seq![
                Constraint {
                    type1: (*function).ty,
                    type2: Type::Function {
                        parameter_type: Box::new((*argument).ty),
                        return_type: Box::new(ty),
                    },
                },
            ] + constraints_of(*function, env) + constraints_of(*argument, env)
        }),
{
}

/// Let scoping: the declaration value is collected under the unextended
/// environment — a let-bound name is not visible inside its own value — and
/// only the trailing expression sees the extended environment.
pub proof fn lemma_let_value_scoping(
    ty: Type,
    declaration_name: Box<TypedTerm>,
    declaration_value: Box<TypedTerm>,
    expression: Box<TypedTerm>,
    env: Map<Seq<char>, Type>,
)
    ensures
        ({
            let term = TypedTerm {
                ty,
                kind: TypedTermKind::LetExpression {
                    declaration_name,
                    declaration_value,
                    expression,
                },
            };
            constraints_of(term, env) == seq![
                Constraint { type1: ty, type2: (*expression).ty },
                Constraint { type1: (*declaration_name).ty, type2: (*declaration_value).ty },
            ] + constraints_of(*declaration_value, env) + constraints_of(
                *expression,
                let_extended(*declaration_name, env),
            )
        }),
{
}

/// Built-in seeding: the initial environment binds exactly the five operator
/// names, each to `Integer -> Integer`. Every top-level collection starts
/// from this same environment, so no call's extensions reach another call.
pub proof fn lemma_initial_bindings_exact()
    ensures
        initial_bindings().dom() =~= set!["+"@, "-"@, "*"@, "/"@, "="@],
        forall|name: Seq<char>| #[trigger]
            initial_bindings().contains_key(name) ==> initial_bindings()[name] == operator_type(),
{
}

} // verus!
