use vstd::prelude::*;

use crate::ast::expression::Expression;
use crate::ast::function::{Function, FunctionKind};

verus! {

/// Converts text to lower case.
#[derive(Debug, PartialEq)]
pub struct Lower {
    pub value: Box<Expression>,
}

/// The `LOWER` of `expr`.
pub fn lower(expr: Expression) -> (r: Function)
    ensures
        r == Function::unnamed(FunctionKind::Lower(Lower { value: Box::new(expr) })),
{
    let fun = Lower { value: Box::new(expr) };
    Function { kind: FunctionKind::Lower(fun), alias: None }
}

/// Converts text to upper case.
#[derive(Debug, PartialEq)]
pub struct Upper {
    pub value: Box<Expression>,
}

/// The `UPPER` of `expr`.
pub fn upper(expr: Expression) -> (r: Function)
    ensures
        r == Function::unnamed(FunctionKind::Upper(Upper { value: Box::new(expr) })),
{
    let fun = Upper { value: Box::new(expr) };
    Function { kind: FunctionKind::Upper(fun), alias: None }
}

} // verus!
