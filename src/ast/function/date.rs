use vstd::prelude::*;

use crate::ast::expression::Expression;
use crate::ast::function::{Function, FunctionKind};

verus! {

/// Coerces the result of an expression into a date.
#[derive(Debug, PartialEq)]
pub struct Date {
    pub value: Box<Expression>,
}

/// The `DATE` coercion of `expr`.
pub fn date(expr: Expression) -> (r: Function)
    ensures
        r == Function::unnamed(FunctionKind::Date(Date { value: Box::new(expr) })),
{
    let fun = Date { value: Box::new(expr) };
    Function { kind: FunctionKind::Date(fun), alias: None }
}

} // verus!
