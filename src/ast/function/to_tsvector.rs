use vstd::prelude::*;

use crate::ast::expression::Expression;
use crate::ast::function::{Function, FunctionKind};

verus! {

/// Converts text into a full-text search document.
#[derive(Debug, PartialEq)]
pub struct ToTsvector {
    pub expression: Box<Expression>,
}

/// The `to_tsvector` of `expr`.
pub fn to_tsvector(expr: Expression) -> (r: Function)
    ensures
        r == Function::unnamed(FunctionKind::ToTsvector(ToTsvector { expression: Box::new(expr) })),
{
    let fun = ToTsvector { expression: Box::new(expr) };
    Function { kind: FunctionKind::ToTsvector(fun), alias: None }
}

} // verus!
