use vstd::prelude::*;

use crate::ast::expression::Expression;
use crate::ast::function::{Function, FunctionKind};

verus! {

/// The number of rows on which an expression is not null.
#[derive(Debug, PartialEq)]
pub struct Count {
    pub value: Box<Expression>,
}

/// The `COUNT` of `expr`.
pub fn count(expr: Expression) -> (r: Function)
    ensures
        r == Function::unnamed(FunctionKind::Count(Count { value: Box::new(expr) })),
{
    let fun = Count { value: Box::new(expr) };
    Function { kind: FunctionKind::Count(fun), alias: None }
}

/// The sum of an expression over the rows of a group.
#[derive(Debug, PartialEq)]
pub struct Sum {
    pub value: Box<Expression>,
}

/// The `SUM` of `expr`.
pub fn sum(expr: Expression) -> (r: Function)
    ensures
        r == Function::unnamed(FunctionKind::Sum(Sum { value: Box::new(expr) })),
{
    let fun = Sum { value: Box::new(expr) };
    Function { kind: FunctionKind::Sum(fun), alias: None }
}

/// The average of an expression over the rows of a group.
#[derive(Debug, PartialEq)]
pub struct Average {
    pub value: Box<Expression>,
}

/// The `AVG` of `expr`.
pub fn average(expr: Expression) -> (r: Function)
    ensures
        r == Function::unnamed(FunctionKind::Average(Average { value: Box::new(expr) })),
{
    let fun = Average { value: Box::new(expr) };
    Function { kind: FunctionKind::Average(fun), alias: None }
}

/// The smallest value of an expression over the rows of a group.
#[derive(Debug, PartialEq)]
pub struct Minimum {
    pub value: Box<Expression>,
}

/// The `MIN` of `expr`.
pub fn minimum(expr: Expression) -> (r: Function)
    ensures
        r == Function::unnamed(FunctionKind::Minimum(Minimum { value: Box::new(expr) })),
{
    let fun = Minimum { value: Box::new(expr) };
    Function { kind: FunctionKind::Minimum(fun), alias: None }
}

/// The largest value of an expression over the rows of a group.
#[derive(Debug, PartialEq)]
pub struct Maximum {
    pub value: Box<Expression>,
}

/// The `MAX` of `expr`.
pub fn maximum(expr: Expression) -> (r: Function)
    ensures
        r == Function::unnamed(FunctionKind::Maximum(Maximum { value: Box::new(expr) })),
{
    let fun = Maximum { value: Box::new(expr) };
    Function { kind: FunctionKind::Maximum(fun), alias: None }
}

/// The values of an expression over the rows of a group, joined into one string.
#[derive(Debug, PartialEq)]
pub struct AggregateToString {
    pub value: Box<Expression>,
}

/// The string aggregate (`GROUP_CONCAT`, `string_agg`) of `expr`.
pub fn aggregate_to_string(expr: Expression) -> (r: Function)
    ensures
        r == Function::unnamed(FunctionKind::AggregateToString(AggregateToString { value: Box::new(expr) })),
{
    let fun = AggregateToString { value: Box::new(expr) };
    Function { kind: FunctionKind::AggregateToString(fun), alias: None }
}

} // verus!
