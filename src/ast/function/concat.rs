use vstd::prelude::*;

use crate::ast::expression::Expression;
use crate::ast::function::{Function, FunctionKind};

verus! {

/// The concatenation of all its arguments, in the order given.
#[derive(Debug, PartialEq)]
pub struct Concat {
    pub exprs: Vec<Expression>,
}

/// The `CONCAT` of `exprs`; the arguments keep the order they were given in,
/// and an empty list is allowed.
pub fn concat(exprs: Vec<Expression>) -> (r: Function)
    ensures
        r == Function::unnamed(FunctionKind::Concat(Concat { exprs })),
        r.kind->Concat_0.exprs@ == exprs@,
{
    let fun = Concat { exprs };
    Function { kind: FunctionKind::Concat(fun), alias: None }
}

} // verus!
