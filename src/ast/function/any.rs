use vstd::prelude::*;

use crate::ast::expression::Expression;
use crate::ast::function::{Function, FunctionKind};

verus! {

/// Compares a value against every element of an array expression.
#[derive(Debug, PartialEq)]
pub struct Any {
    pub value: Box<Expression>,
}

/// The `ANY` of `expr`.
pub fn any(expr: Expression) -> (r: Function)
    ensures
        r == Function::unnamed(FunctionKind::Any(Any { value: Box::new(expr) })),
{
    let fun = Any { value: Box::new(expr) };
    Function { kind: FunctionKind::Any(fun), alias: None }
}

} // verus!
