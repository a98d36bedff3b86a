//! The parser's syntax tree, as the lowering reads it: grammar-shaped and
//! not yet checked.
use vstd::prelude::*;
use crate::ir::{Identifier, IntegerType};

verus! {

/// A literal, with its text as written.
#[derive(Debug, PartialEq, Eq)]
pub enum Value {
    Integer(String, IntegerType),
    Field(String),
    Group(String),
    Boolean(String),
    Implicit(String),
}

/// The operator of a binary expression.
#[derive(Debug, Clone, Copy, PartialEq, Eq, Structural)]
pub enum BinaryOperation {
    Or,
    And,
    Eq,
    Ne,
    Ge,
    Gt,
    Le,
    Lt,
    Add,
    Sub,
    Mul,
    Div,
    Pow,
}

/// An element of an inline array: spread (`...e`) or plain.
#[derive(Debug, PartialEq, Eq)]
pub enum SpreadOrExpression {
    Spread(Expression),
    Expression(Expression),
}

/// What stands between the brackets of an array access.
#[derive(Debug, PartialEq, Eq)]
pub enum RangeOrExpression {
    Range(Option<Expression>, Option<Expression>),
    Expression(Expression),
}

/// `name: expression` in a circuit literal.
#[derive(Debug, PartialEq, Eq)]
pub struct CircuitField {
    pub identifier: Identifier,
    pub expression: Expression,
}

/// One step of a postfix chain.
#[derive(Debug, PartialEq, Eq)]
pub enum Access {
    /// `[index]` or `[lo..hi]`
    Array(RangeOrExpression),
    /// `(arguments)`
    Call(Vec<Expression>),
    /// `.member`
    Object(Identifier),
    /// `::member`
    StaticObject(Identifier),
}

/// One step of an assignment target.
#[derive(Debug, PartialEq, Eq)]
pub enum AssigneeAccess {
    Array(RangeOrExpression),
    Member(Identifier),
}

/// An assignment target: a variable and the accesses applied to it.
#[derive(Debug, PartialEq, Eq)]
pub struct Assignee {
    pub identifier: Identifier,
    pub accesses: Vec<AssigneeAccess>,
}

/// An expression of the syntax tree.
#[derive(Debug, PartialEq, Eq)]
pub enum Expression {
    Value(Value),
    Identifier(Identifier),
    Not(Box<Expression>),
    Binary(BinaryOperation, Box<Expression>, Box<Expression>),
    Ternary(Box<Expression>, Box<Expression>, Box<Expression>),
    ArrayInline(Vec<SpreadOrExpression>),
    /// `[element; count]`
    ArrayInitializer(Box<Expression>, Value),
    CircuitInline(Identifier, Vec<CircuitField>),
    /// A variable followed by accesses, in source order.
    Postfix(Identifier, Vec<Access>),
}

} // verus!
