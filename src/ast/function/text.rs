use vstd::prelude::*;

use crate::ast::expression::Expression;
use crate::ast::function::{Function, FunctionKind};

verus! {

/// Coerces the result of an expression into text.
#[derive(Debug, PartialEq)]
pub struct Text {
    pub value: Box<Expression>,
}

/// The `text` coercion of `expr`.
pub fn text(expr: Expression) -> (r: Function)
    ensures
        r == Function::unnamed(FunctionKind::Text(Text { value: Box::new(expr) })),
{
    let fun = Text { value: Box::new(expr) };
    Function { kind: FunctionKind::Text(fun), alias: None }
}

} // verus!
