use vstd::prelude::*;

use crate::ast::expression::Expression;
use crate::ast::function::{Function, FunctionKind};

verus! {

/// The first of its arguments that is not null, tried in the order given.
#[derive(Debug, PartialEq)]
pub struct Coalesce {
    pub exprs: Vec<Expression>,
}

/// The `COALESCE` of `exprs`; the arguments keep the order they were given
/// in, and an empty list is allowed.
pub fn coalesce(exprs: Vec<Expression>) -> (r: Function)
    ensures
        r == Function::unnamed(FunctionKind::Coalesce(Coalesce { exprs })),
        r.kind->Coalesce_0.exprs@ == exprs@,
{
    let fun = Coalesce { exprs };
    Function { kind: FunctionKind::Coalesce(fun), alias: None }
}

} // verus!
