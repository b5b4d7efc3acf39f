pub mod expression;
pub mod function;

pub use expression::Expression;
pub use function::{
    aggregate_to_string, any, average, coalesce, count, date, lower, maximum, minimum,
    stored_function, sum, text, to_tsquery, to_tsvector, upper, AggregateToString, Any, Average,
    Coalesce, Concat, Count, Date, Function, FunctionKind, Lower, Maximum, Minimum, StoredFunction,
    StoredFunctionArguments, Sum, Text, ToTsquery, ToTsvector, Upper,
};
