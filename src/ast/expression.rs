use vstd::prelude::*;

use crate::ast::function::Function;

verus! {

/// A value-producing SQL construct: the small part of a query tree that
/// function nodes take as arguments and are embedded into.
#[derive(Debug, PartialEq)]
pub enum Expression {
    /// A reference to a column by name.
    Column(String),
    /// A text literal, sent as a bound parameter.
    Text(String),
    /// An integer literal, sent as a bound parameter.
    Integer(i64),
    /// A call of a database function.
    Function(Box<Function>),
}

impl Expression {
    /// A reference to the column `name`.
    pub fn column(name: &str) -> (r: Expression)
        ensures
            r matches Expression::Column(c) && c@ == name@,
    {
        Expression::Column(name.to_owned())
    }

    /// A text literal holding `value`.
    pub fn text(value: &str) -> (r: Expression)
        ensures
            r matches Expression::Text(t) && t@ == value@,
    {
        Expression::Text(value.to_owned())
    }

    /// An integer literal.
    pub fn integer(value: i64) -> (r: Expression)
        ensures
            r == Expression::Integer(value),
    {
        Expression::Integer(value)
    }
}

impl Expression {
    /// `self` and `other` hold the same tree: equal leaves, and calls with
    /// the same content.
    pub open spec fn same_as(self, other: Expression) -> bool
        decreases self,
    {
        match (self, other) {
            (Expression::Column(a), Expression::Column(b)) => a == b,
            (Expression::Text(a), Expression::Text(b)) => a == b,
            (Expression::Integer(a), Expression::Integer(b)) => a == b,
            (Expression::Function(f), Expression::Function(g)) => (*f).same_as(*g),
            _ => false,
        }
    }

    /// A copy of the whole tree.
    pub fn deep_clone(&self) -> (r: Expression)
        ensures
            r.same_as(*self),
        decreases self,
    {
        match self {
            Expression::Column(a) => Expression::Column(a.clone()),
            Expression::Text(a) => Expression::Text(a.clone()),
            Expression::Integer(a) => Expression::Integer(*a),
            Expression::Function(f) => Expression::Function(Box::new(f.deep_clone())),
        }
    }
}

impl Clone for Expression {
    fn clone(&self) -> Expression {
        self.deep_clone()
    }
}

impl From<Function> for Expression {
    fn from(fun: Function) -> (r: Expression) {
        Expression::Function(Box::new(fun))
    }
}

impl vstd::std_specs::convert::FromSpecImpl<Function> for Expression {
    open spec fn obeys_from_spec() -> bool {
        true
    }

    open spec fn from_spec(fun: Function) -> Expression {
        Expression::Function(Box::new(fun))
    }
}

} // verus!
