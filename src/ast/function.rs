use vstd::prelude::*;

mod aggregate;
mod any;
mod coalesce;
pub mod concat;
mod date;
mod letter_case;
mod stored_function;
mod text;
mod to_tsquery;
mod to_tsvector;

pub use aggregate::{
    aggregate_to_string, average, count, maximum, minimum, sum, AggregateToString, Average, Count,
    Maximum, Minimum, Sum,
};
pub use any::{any, Any};
pub use coalesce::{coalesce, Coalesce};
pub use concat::Concat;
pub use date::{date, Date};
pub use letter_case::{lower, upper, Lower, Upper};
pub use stored_function::{stored_function, StoredFunction, StoredFunctionArguments};
pub use text::{text, Text};
pub use to_tsquery::{to_tsquery, ToTsquery};
pub use to_tsvector::{to_tsvector, ToTsvector};

use crate::ast::expression::Expression;

verus! {

/// A call of a database function, with an optional display name.
#[derive(Debug, PartialEq)]
pub struct Function {
    /// Which function is called, with its arguments.
    pub kind: FunctionKind,
    /// The name the result is shown under, if one was given.
    pub alias: Option<String>,
}

/// The functions that a [`Function`] node can call.
#[derive(Debug, PartialEq)]
pub enum FunctionKind {
    /// `string_agg(value)` or `GROUP_CONCAT(value)`.
    AggregateToString(AggregateToString),
    /// `ANY(value)`.
    Any(Any),
    /// `AVG(value)`.
    Average(Average),
    /// `COALESCE(e1, e2, ...)`.
    Coalesce(Coalesce),
    /// `CONCAT(e1, e2, ...)`.
    Concat(Concat),
    /// `COUNT(value)`.
    Count(Count),
    /// `DATE(value)`.
    Date(Date),
    /// `LOWER(value)`.
    Lower(Lower),
    /// `MAX(value)`.
    Maximum(Maximum),
    /// `MIN(value)`.
    Minimum(Minimum),
    /// A function defined in the database, called by name.
    StoredFunction(StoredFunction),
    /// `SUM(value)`.
    Sum(Sum),
    /// `text(value)`.
    Text(Text),
    /// `to_tsquery(expression)`, for dialects with full-text search.
    ToTsquery(ToTsquery),
    /// `to_tsvector(expression)`, for dialects with full-text search.
    ToTsvector(ToTsvector),
    /// `UPPER(value)`.
    Upper(Upper),
}

impl FunctionKind {
    /// `self` and `other` are the same function on arguments with the same
    /// content.
    pub open spec fn same_as(self, other: FunctionKind) -> bool
        decreases self,
    {
        match (self, other) {
            (FunctionKind::Any(a), FunctionKind::Any(b)) => (*a.value).same_as(*b.value),
            (FunctionKind::Concat(a), FunctionKind::Concat(b)) => {
                &&& a.exprs.len() == b.exprs.len()
                &&& forall|i: int|
                    0 <= i < a.exprs.len() ==> (#[trigger] a.exprs[i]).same_as(b.exprs[i])
            },
            (FunctionKind::Date(a), FunctionKind::Date(b)) => (*a.value).same_as(*b.value),
            (FunctionKind::AggregateToString(a), FunctionKind::AggregateToString(b)) => (*a.value).same_as(*b.value),
            (FunctionKind::Average(a), FunctionKind::Average(b)) => (*a.value).same_as(*b.value),
            (FunctionKind::Count(a), FunctionKind::Count(b)) => (*a.value).same_as(*b.value),
            (FunctionKind::Lower(a), FunctionKind::Lower(b)) => (*a.value).same_as(*b.value),
            (FunctionKind::Maximum(a), FunctionKind::Maximum(b)) => (*a.value).same_as(*b.value),
            (FunctionKind::Minimum(a), FunctionKind::Minimum(b)) => (*a.value).same_as(*b.value),
            (FunctionKind::Sum(a), FunctionKind::Sum(b)) => (*a.value).same_as(*b.value),
            (FunctionKind::Upper(a), FunctionKind::Upper(b)) => (*a.value).same_as(*b.value),
            (FunctionKind::Coalesce(a), FunctionKind::Coalesce(b)) => {
                &&& a.exprs.len() == b.exprs.len()
                &&& forall|i: int|
                    0 <= i < a.exprs.len() ==> (#[trigger] a.exprs[i]).same_as(b.exprs[i])
            },
            (FunctionKind::StoredFunction(a), FunctionKind::StoredFunction(b)) => {
                &&& a.name == b.name
                &&& a.arguments.len() == b.arguments.len()
                &&& forall|i: int|
                    0 <= i < a.arguments.len() ==> (*(#[trigger] a.arguments[i])).same_as(
                        *b.arguments[i],
                    )
            },
            (FunctionKind::Text(a), FunctionKind::Text(b)) => (*a.value).same_as(*b.value),
            (FunctionKind::ToTsquery(a), FunctionKind::ToTsquery(b)) => (*a.expression).same_as(
                *b.expression,
            ),
            (FunctionKind::ToTsvector(a), FunctionKind::ToTsvector(b)) => (
            *a.expression).same_as(*b.expression),
            _ => false,
        }
    }

    /// A copy of the call, arguments included.
    pub fn deep_clone(&self) -> (r: FunctionKind)
        ensures
            r.same_as(*self),
        decreases self,
    {
        match self {
            FunctionKind::Any(a) => FunctionKind::Any(Any { value: Box::new(a.value.deep_clone()) }),
            FunctionKind::Coalesce(a) => {
                proof {
                    assert(decreases_to!(*self => self->Coalesce_0));
                    assert(decreases_to!(self->Coalesce_0 => self->Coalesce_0.exprs));
                }
                FunctionKind::Coalesce(Coalesce { exprs: clone_exprs(&a.exprs) })
            },
            FunctionKind::Concat(a) => {
                proof {
                    assert(decreases_to!(*self => self->Concat_0));
                    assert(decreases_to!(self->Concat_0 => self->Concat_0.exprs));
                }
                FunctionKind::Concat(Concat { exprs: clone_exprs(&a.exprs) })
            },
            FunctionKind::Date(a) => FunctionKind::Date(Date { value: Box::new(a.value.deep_clone()) }),
            FunctionKind::AggregateToString(a) => FunctionKind::AggregateToString(AggregateToString { value: Box::new(a.value.deep_clone()) }),
            FunctionKind::Average(a) => FunctionKind::Average(Average { value: Box::new(a.value.deep_clone()) }),
            FunctionKind::Count(a) => FunctionKind::Count(Count { value: Box::new(a.value.deep_clone()) }),
            FunctionKind::Lower(a) => FunctionKind::Lower(Lower { value: Box::new(a.value.deep_clone()) }),
            FunctionKind::Maximum(a) => FunctionKind::Maximum(Maximum { value: Box::new(a.value.deep_clone()) }),
            FunctionKind::Minimum(a) => FunctionKind::Minimum(Minimum { value: Box::new(a.value.deep_clone()) }),
            FunctionKind::Sum(a) => FunctionKind::Sum(Sum { value: Box::new(a.value.deep_clone()) }),
            FunctionKind::Upper(a) => FunctionKind::Upper(Upper { value: Box::new(a.value.deep_clone()) }),
            FunctionKind::StoredFunction(a) => {
                let mut arguments: Vec<Box<Expression>> = Vec::new();
                let mut i: usize = 0;
                while i < a.arguments.len()
                    invariant
                        *self == FunctionKind::StoredFunction(*a),
                        i <= a.arguments.len(),
                        arguments.len() == i,
                        forall|j: int|
                            0 <= j < i ==> #[trigger] (*arguments[j]).same_as(*a.arguments[j]),
                    decreases a.arguments.len() - i,
                {
                    proof {
                        assert(decreases_to!(*self => self->StoredFunction_0));
                        assert(decreases_to!(self->StoredFunction_0 => self->StoredFunction_0.arguments));
                        assert(decreases_to!(a.arguments => a.arguments@));
                        assert(decreases_to!(a.arguments@ => a.arguments@[i as int]));
                    }
                    arguments.push(Box::new(a.arguments[i].deep_clone()));
                    i = i + 1;
                }
                assert(forall|j: int|
                    0 <= j < arguments.len() ==> (*(#[trigger] arguments[j])).same_as(
                        *a.arguments[j],
                    ));
                FunctionKind::StoredFunction(StoredFunction { name: a.name, arguments })
            },
            FunctionKind::Text(a) => FunctionKind::Text(Text { value: Box::new(a.value.deep_clone()) }),
            FunctionKind::ToTsquery(a) => FunctionKind::ToTsquery(
                ToTsquery { expression: Box::new(a.expression.deep_clone()) },
            ),
            FunctionKind::ToTsvector(a) => FunctionKind::ToTsvector(
                ToTsvector { expression: Box::new(a.expression.deep_clone()) },
            ),
        }
    }
}

/// A copy of each expression of `exprs`, in order.
fn clone_exprs(exprs: &Vec<Expression>) -> (r: Vec<Expression>)
    ensures
        r.len() == exprs.len(),
        forall|j: int| 0 <= j < r.len() ==> (#[trigger] r[j]).same_as(exprs[j]),
    decreases exprs,
{
    let mut r: Vec<Expression> = Vec::new();
    let mut i: usize = 0;
    while i < exprs.len()
        invariant
            i <= exprs.len(),
            r.len() == i,
            forall|j: int| 0 <= j < i ==> (#[trigger] r[j]).same_as(exprs[j]),
        decreases exprs.len() - i,
    {
        proof {
            assert(decreases_to!(*exprs => exprs@));
            assert(decreases_to!(exprs@ => exprs@[i as int]));
        }
        r.push(exprs[i].deep_clone());
        i = i + 1;
    }
    r
}

impl Clone for Function {
    fn clone(&self) -> Function {
        self.deep_clone()
    }
}

impl Function {
    /// The node calling `kind`, with no display name yet.
    pub open spec fn unnamed(kind: FunctionKind) -> Function {
        Function { kind, alias: None }
    }

    /// The display name as characters, if one was given.
    pub open spec fn alias_view(self) -> Option<Seq<char>> {
        match self.alias {
            Some(a) => Some(a@),
            None => None,
        }
    }

    /// `self` and `other` call the same function on arguments with the same
    /// content, under the same display name.
    pub open spec fn same_as(self, other: Function) -> bool
        decreases self,
    {
        self.alias == other.alias && self.kind.same_as(other.kind)
    }

    /// A copy of the whole call, arguments included.
    pub fn deep_clone(&self) -> (r: Function)
        ensures
            r.same_as(*self),
        decreases self,
    {
        let kind = self.kind.deep_clone();
        let alias = match &self.alias {
            Some(a) => Some(a.clone()),
            None => None,
        };
        Function { kind, alias }
    }

    /// The same call shown under `alias`; a name given before is replaced.
    pub fn alias(self, alias: &str) -> (r: Function)
        ensures
            r.kind == self.kind,
            r.alias_view() == Some(alias@),
    {
        Function { kind: self.kind, alias: Some(alias.to_owned()) }
    }
}

/// Nodes built by the same unary constructor are equal exactly when their
/// arguments are equal: building twice from equal inputs gives equal nodes,
/// and different inputs are never confused.
pub proof fn lemma_unary_construction_exact(a: Expression, b: Expression)
    ensures
        (Function::unnamed(FunctionKind::Any(Any { value: Box::new(a) })) == Function::unnamed(
            FunctionKind::Any(Any { value: Box::new(b) }),
        )) <==> a == b,
        (Function::unnamed(FunctionKind::Date(Date { value: Box::new(a) })) == Function::unnamed(
            FunctionKind::Date(Date { value: Box::new(b) }),
        )) <==> a == b,
        (Function::unnamed(FunctionKind::Text(Text { value: Box::new(a) })) == Function::unnamed(
            FunctionKind::Text(Text { value: Box::new(b) }),
        )) <==> a == b,
        (Function::unnamed(FunctionKind::AggregateToString(AggregateToString { value: Box::new(a) })) == Function::unnamed(
            FunctionKind::AggregateToString(AggregateToString { value: Box::new(b) }),
        )) <==> a == b,
        (Function::unnamed(FunctionKind::Average(Average { value: Box::new(a) })) == Function::unnamed(
            FunctionKind::Average(Average { value: Box::new(b) }),
        )) <==> a == b,
        (Function::unnamed(FunctionKind::Count(Count { value: Box::new(a) })) == Function::unnamed(
            FunctionKind::Count(Count { value: Box::new(b) }),
        )) <==> a == b,
        (Function::unnamed(FunctionKind::Lower(Lower { value: Box::new(a) })) == Function::unnamed(
            FunctionKind::Lower(Lower { value: Box::new(b) }),
        )) <==> a == b,
        (Function::unnamed(FunctionKind::Maximum(Maximum { value: Box::new(a) })) == Function::unnamed(
            FunctionKind::Maximum(Maximum { value: Box::new(b) }),
        )) <==> a == b,
        (Function::unnamed(FunctionKind::Minimum(Minimum { value: Box::new(a) })) == Function::unnamed(
            FunctionKind::Minimum(Minimum { value: Box::new(b) }),
        )) <==> a == b,
        (Function::unnamed(FunctionKind::Sum(Sum { value: Box::new(a) })) == Function::unnamed(
            FunctionKind::Sum(Sum { value: Box::new(b) }),
        )) <==> a == b,
        (Function::unnamed(FunctionKind::Upper(Upper { value: Box::new(a) })) == Function::unnamed(
            FunctionKind::Upper(Upper { value: Box::new(b) }),
        )) <==> a == b,
        (Function::unnamed(FunctionKind::ToTsquery(ToTsquery { expression: Box::new(a) }))
            == Function::unnamed(FunctionKind::ToTsquery(ToTsquery { expression: Box::new(b) })))
            <==> a == b,
        (Function::unnamed(FunctionKind::ToTsvector(ToTsvector { expression: Box::new(a) }))
            == Function::unnamed(FunctionKind::ToTsvector(ToTsvector { expression: Box::new(b) })))
            <==> a == b,
{
}

/// Nodes built by `concat` from argument lists with equal contents expose
/// equal arguments and no display name.
pub proof fn lemma_concat_construction_exact(xs: Vec<Expression>, ys: Vec<Expression>)
    requires
        xs@ == ys@,
    ensures
        Function::unnamed(FunctionKind::Concat(Concat { exprs: xs })).kind->Concat_0.exprs@
            == Function::unnamed(FunctionKind::Concat(Concat { exprs: ys })).kind->Concat_0.exprs@,
        Function::unnamed(FunctionKind::Concat(Concat { exprs: xs })).alias
            == Function::unnamed(FunctionKind::Concat(Concat { exprs: ys })).alias,
{
}

/// Giving a node a display name twice keeps the call and only the last name.
pub proof fn lemma_alias_overwrites(f: Function, g: Function, h: Function, a: Seq<char>, b: Seq<char>)
    requires
        g.kind == f.kind && g.alias_view() == Some(a),
        h.kind == g.kind && h.alias_view() == Some(b),
    ensures
        h.kind == f.kind,
        h.alias_view() == Some(b),
{
}

/// A concatenation and a coalesce expose their arguments exactly in the
/// order given.
pub proof fn lemma_list_arguments_keep_order(
    exprs: Vec<Expression>,
    e1: Expression,
    e2: Expression,
    e3: Expression,
)
    requires
        exprs@ == seq![e1, e2, e3],
    ensures
        Function::unnamed(FunctionKind::Concat(Concat { exprs })).kind->Concat_0.exprs@ == seq![
            e1,
            e2,
            e3,
        ],
        Function::unnamed(FunctionKind::Coalesce(Coalesce { exprs })).kind->Coalesce_0.exprs@
            == seq![e1, e2, e3],
{
}

/// Every argument bundle, of each arity from zero to six, hands over all of
/// its arguments, in order.
pub proof fn lemma_stored_arguments_all_kept(
    a: Expression,
    b: Expression,
    c: Expression,
    d: Expression,
    e: Expression,
    f: Expression,
)
    ensures
        ().argument_seq().len() == 0,
        a.argument_seq() == seq![a],
        (a, b).argument_seq() == seq![a, b],
        (a, b, c).argument_seq() == seq![a, b, c],
        (a, b, c, d).argument_seq() == seq![a, b, c, d],
        (a, b, c, d, e).argument_seq() == seq![a, b, c, d, e],
        (a, b, c, d, e, f).argument_seq() == seq![a, b, c, d, e, f],
        (a, b, c, d, e).argument_seq().len() == 5,
        (a, b, c, d, e, f).argument_seq().len() == 6,
{
}

} // verus!
