use vstd::prelude::*;

use crate::ast::expression::Expression;
use crate::ast::function::{Function, FunctionKind};

verus! {

/// Converts text into a full-text search query.
#[derive(Debug, PartialEq)]
pub struct ToTsquery {
    pub expression: Box<Expression>,
}

/// The `to_tsquery` of `expr`.
pub fn to_tsquery(expr: Expression) -> (r: Function)
    ensures
        r == Function::unnamed(FunctionKind::ToTsquery(ToTsquery { expression: Box::new(expr) })),
{
    let fun = ToTsquery { expression: Box::new(expr) };
    Function { kind: FunctionKind::ToTsquery(fun), alias: None }
}

} // verus!
