use vstd::prelude::*;

use crate::ast::expression::Expression;
use crate::ast::function::{Function, FunctionKind};

verus! {

/// A call of a function defined and stored in the database.
#[derive(Debug, PartialEq)]
pub struct StoredFunction {
    /// The function's name, fixed in the program text.
    pub name: &'static str,
    /// The positional arguments, in call order.
    pub arguments: Vec<Box<Expression>>,
}

impl StoredFunction {
    /// The arguments, unboxed, in call order.
    pub open spec fn argument_exprs(self) -> Seq<Expression> {
        self.arguments@.map_values(|b: Box<Expression>| *b)
    }
}

/// A call of the stored function `name`, with the positional arguments that
/// `arguments` bundles, all of them and in order.
pub fn stored_function<A: StoredFunctionArguments>(name: &'static str, arguments: A) -> (r: Function)
    ensures
        r.alias is None,
        r.kind is StoredFunction,
        r.kind->StoredFunction_0.name == name,
        r.kind->StoredFunction_0.argument_exprs() == arguments.argument_seq(),
{
    let arguments = arguments.into_args();
    let fun = StoredFunction { name, arguments };
    Function { kind: FunctionKind::StoredFunction(fun), alias: None }
}

/// A bundle of zero to six positional arguments for a stored function call;
/// each arity is its own type, so a call's arity is fixed where it is written.
pub trait StoredFunctionArguments: Sized {
    /// The arguments of the bundle, in call order.
    spec fn argument_seq(self) -> Seq<Expression>;

    /// The arguments, each boxed, in call order.
    fn into_args(self) -> (r: Vec<Box<Expression>>)
        ensures
            r@.map_values(|b: Box<Expression>| *b) == self.argument_seq(),
    ;
}

impl StoredFunctionArguments for () {
    open spec fn argument_seq(self) -> Seq<Expression> {
        Seq::empty()
    }

    fn into_args(self) -> (r: Vec<Box<Expression>>) {
        let r: Vec<Box<Expression>> = Vec::new();
        proof {
            assert(r@.map_values(|b: Box<Expression>| *b) =~= self.argument_seq());
        }
        r
    }
}

impl StoredFunctionArguments for Expression {
    open spec fn argument_seq(self) -> Seq<Expression> {
        seq![self]
    }

    fn into_args(self) -> (r: Vec<Box<Expression>>) {
        let mut r: Vec<Box<Expression>> = Vec::new();
        r.push(Box::new(self));
        proof {
            assert(r@.map_values(|b: Box<Expression>| *b) =~= self.argument_seq());
        }
        r
    }
}

impl StoredFunctionArguments for (Expression, Expression) {
    open spec fn argument_seq(self) -> Seq<Expression> {
        seq![self.0, self.1]
    }

    fn into_args(self) -> (r: Vec<Box<Expression>>) {
        let ghost args = self;
        let (a, b) = self;
        let mut r: Vec<Box<Expression>> = Vec::new();
        r.push(Box::new(a));
        r.push(Box::new(b));
        proof {
            assert(r@.map_values(|b: Box<Expression>| *b) =~= args.argument_seq());
        }
        r
    }
}

impl StoredFunctionArguments for (Expression, Expression, Expression) {
    open spec fn argument_seq(self) -> Seq<Expression> {
        seq![self.0, self.1, self.2]
    }

    fn into_args(self) -> (r: Vec<Box<Expression>>) {
        let ghost args = self;
        let (a, b, c) = self;
        let mut r: Vec<Box<Expression>> = Vec::new();
        r.push(Box::new(a));
        r.push(Box::new(b));
        r.push(Box::new(c));
        proof {
            assert(r@.map_values(|b: Box<Expression>| *b) =~= args.argument_seq());
        }
        r
    }
}

impl StoredFunctionArguments for (Expression, Expression, Expression, Expression) {
    open spec fn argument_seq(self) -> Seq<Expression> {
        seq![self.0, self.1, self.2, self.3]
    }

    fn into_args(self) -> (r: Vec<Box<Expression>>) {
        let ghost args = self;
        let (a, b, c, d) = self;
        let mut r: Vec<Box<Expression>> = Vec::new();
        r.push(Box::new(a));
        r.push(Box::new(b));
        r.push(Box::new(c));
        r.push(Box::new(d));
        proof {
            assert(r@.map_values(|b: Box<Expression>| *b) =~= args.argument_seq());
        }
        r
    }
}

impl StoredFunctionArguments for (Expression, Expression, Expression, Expression, Expression) {
    open spec fn argument_seq(self) -> Seq<Expression> {
        seq![self.0, self.1, self.2, self.3, self.4]
    }

    fn into_args(self) -> (r: Vec<Box<Expression>>) {
        let ghost args = self;
        let (a, b, c, d, e) = self;
        let mut r: Vec<Box<Expression>> = Vec::new();
        r.push(Box::new(a));
        r.push(Box::new(b));
        r.push(Box::new(c));
        r.push(Box::new(d));
        r.push(Box::new(e));
        proof {
            assert(r@.map_values(|b: Box<Expression>| *b) =~= args.argument_seq());
        }
        r
    }
}

impl StoredFunctionArguments for (Expression, Expression, Expression, Expression, Expression, Expression) {
    open spec fn argument_seq(self) -> Seq<Expression> {
        seq![self.0, self.1, self.2, self.3, self.4, self.5]
    }

    fn into_args(self) -> (r: Vec<Box<Expression>>) {
        let ghost args = self;
        let (a, b, c, d, e, f) = self;
        let mut r: Vec<Box<Expression>> = Vec::new();
        r.push(Box::new(a));
        r.push(Box::new(b));
        r.push(Box::new(c));
        r.push(Box::new(d));
        r.push(Box::new(e));
        r.push(Box::new(f));
        proof {
            assert(r@.map_values(|b: Box<Expression>| *b) =~= args.argument_seq());
        }
        r
    }
}

} // verus!
