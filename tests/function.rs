use quaint::ast::{
    aggregate_to_string, any, average, coalesce, count, date, lower, maximum, minimum,
    stored_function, sum, text, to_tsquery, to_tsvector, upper, Expression, Function,
    FunctionKind,
};

fn concat_of(exprs: Vec<Expression>) -> Function {
    quaint::ast::function::concat::concat(exprs)
}

fn col(name: &str) -> Expression {
    Expression::column(name)
}

fn stored_args(f: &Function) -> Vec<Expression> {
    match &f.kind {
        FunctionKind::StoredFunction(s) => s.arguments.iter().map(|b| (**b).clone()).collect(),
        other => panic!("not a stored function: {:?}", other),
    }
}

#[test]
fn unary_constructors_are_equal_on_equal_inputs() {
    assert_eq!(date(col("createdAt")), date(col("createdAt")));
    assert_eq!(text(col("createdAt")), text(col("createdAt")));
    assert_eq!(any(col("ids")), any(col("ids")));
    assert_eq!(to_tsquery(col("name")), to_tsquery(col("name")));
    assert_eq!(to_tsvector(col("name")), to_tsvector(col("name")));
}

#[test]
fn unary_constructors_differ_on_different_inputs() {
    assert_ne!(date(col("createdAt")), date(col("updatedAt")));
    assert_ne!(date(col("createdAt")), text(col("createdAt")));
    assert_ne!(to_tsquery(col("name")), to_tsvector(col("name")));
}

#[test]
fn date_wraps_its_argument() {
    let f = date(col("createdAt"));
    assert_eq!(f.alias, None);
    match f.kind {
        FunctionKind::Date(d) => assert_eq!(*d.value, col("createdAt")),
        other => panic!("unexpected kind {:?}", other),
    }
}

#[test]
fn to_tsvector_wraps_its_argument() {
    match to_tsvector(Expression::text("a fat cat")).kind {
        FunctionKind::ToTsvector(t) => assert_eq!(*t.expression, Expression::text("a fat cat")),
        other => panic!("unexpected kind {:?}", other),
    }
}

#[test]
fn alias_keeps_only_the_last_name() {
    let f = date(col("createdAt")).alias("a").alias("b");
    assert_eq!(f.alias, Some("b".to_string()));
    assert_eq!(f.kind, date(col("createdAt")).kind);
}

#[test]
fn alias_is_compared() {
    assert_ne!(text(col("x")).alias("a"), text(col("x")).alias("b"));
    assert_eq!(text(col("x")).alias("a"), text(col("x")).alias("a"));
}

#[test]
fn concat_keeps_argument_order() {
    let e1 = col("company");
    let e2 = Expression::text("Individual");
    let e3 = Expression::integer(7);
    let f = concat_of(vec![e1.clone(), e2.clone(), e3.clone()]);
    match f.kind {
        FunctionKind::Concat(c) => assert_eq!(c.exprs, vec![e1, e2, e3]),
        other => panic!("unexpected kind {:?}", other),
    }
}

#[test]
fn concat_of_nothing_is_allowed() {
    match concat_of(Vec::new()).kind {
        FunctionKind::Concat(c) => assert!(c.exprs.is_empty()),
        other => panic!("unexpected kind {:?}", other),
    }
}

#[test]
fn stored_function_keeps_every_arity() {
    let (a, b, c, d, e, f) = (col("a"), col("b"), col("c"), col("d"), col("e"), col("f"));
    assert_eq!(stored_args(&stored_function("f0", ())).len(), 0);
    assert_eq!(stored_args(&stored_function("f1", a.clone())), vec![a.clone()]);
    assert_eq!(stored_args(&stored_function("f2", (a.clone(), b.clone()))).len(), 2);
    assert_eq!(stored_args(&stored_function("f3", (a.clone(), b.clone(), c.clone()))).len(), 3);
    assert_eq!(
        stored_args(&stored_function("f4", (a.clone(), b.clone(), c.clone(), d.clone()))).len(),
        4
    );
    assert_eq!(
        stored_args(&stored_function("f5", (a.clone(), b.clone(), c.clone(), d.clone(), e.clone()))),
        vec![a.clone(), b.clone(), c.clone(), d.clone(), e.clone()]
    );
    assert_eq!(
        stored_args(&stored_function("f6", (a.clone(), b.clone(), c.clone(), d.clone(), e.clone(), f.clone()))),
        vec![a, b, c, d, e, f]
    );
}

#[test]
fn stored_function_keeps_its_name() {
    match stored_function("upper", col("name")).kind {
        FunctionKind::StoredFunction(s) => assert_eq!(s.name, "upper"),
        other => panic!("unexpected kind {:?}", other),
    }
}

#[test]
fn clone_copies_nested_calls() {
    let inner = concat_of(vec![col("first"), Expression::text(" "), col("last")]);
    let f = stored_function(
        "initcap",
        (Expression::from(inner), Expression::from(date(col("born")))),
    )
    .alias("who");
    let copy = f.clone();
    assert_eq!(copy, f);
    assert_eq!(copy.alias, Some("who".to_string()));
}

#[test]
fn function_converts_into_expression() {
    let f = text(col("createdAt"));
    assert_eq!(Expression::from(f.clone()), Expression::Function(Box::new(f)));
}

#[test]
fn aggregates_wrap_their_argument() {
    match count(col("id")).kind {
        FunctionKind::Count(c) => assert_eq!(*c.value, col("id")),
        other => panic!("unexpected kind {:?}", other),
    }
    match sum(col("price")).kind {
        FunctionKind::Sum(c) => assert_eq!(*c.value, col("price")),
        other => panic!("unexpected kind {:?}", other),
    }
    match average(col("price")).kind {
        FunctionKind::Average(c) => assert_eq!(*c.value, col("price")),
        other => panic!("unexpected kind {:?}", other),
    }
    assert_ne!(minimum(col("price")), maximum(col("price")));
    assert_eq!(minimum(col("price")), minimum(col("price")));
    match aggregate_to_string(col("name")).kind {
        FunctionKind::AggregateToString(c) => assert_eq!(*c.value, col("name")),
        other => panic!("unexpected kind {:?}", other),
    }
}

#[test]
fn lower_and_upper_differ() {
    assert_ne!(lower(col("name")), upper(col("name")));
    match upper(col("name")).kind {
        FunctionKind::Upper(u) => assert_eq!(*u.value, col("name")),
        other => panic!("unexpected kind {:?}", other),
    }
}

#[test]
fn coalesce_keeps_argument_order() {
    let f = coalesce(vec![col("nick"), col("name"), Expression::text("anonymous")]);
    match &f.kind {
        FunctionKind::Coalesce(c) => {
            assert_eq!(c.exprs, vec![col("nick"), col("name"), Expression::text("anonymous")])
        }
        other => panic!("unexpected kind {:?}", other),
    }
    assert_eq!(f.clone(), f);
    match coalesce(Vec::new()).kind {
        FunctionKind::Coalesce(c) => assert!(c.exprs.is_empty()),
        other => panic!("unexpected kind {:?}", other),
    }
}
