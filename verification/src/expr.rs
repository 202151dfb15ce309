use vstd::prelude::*;
use crate::ast::Expr;
use crate::error::{EntryError, EntryErrorView, RunnerError, RunnerErrorView};
use crate::value::{Value, ValueView};
use crate::variables::Variables;

verus! {

/// The error for an expression that names a variable which is not set.
pub open spec fn not_defined(expr: Expr) -> EntryErrorView {
    EntryErrorView {
        source_info: expr.variable.source_info,
        inner: RunnerErrorView::TemplateVariableNotDefined { name: expr.variable.name@ },
        assert: false,
    }
}

/// What an expression evaluates to: the value of its variable, or the error that the
/// variable is not set.
pub open spec fn expr_value(expr: Expr, env: Map<Seq<char>, ValueView>) -> Result<
    ValueView,
    EntryErrorView,
> {
    if env.contains_key(expr.variable.name@) {
        Ok(env[expr.variable.name@])
    } else {
        Err(not_defined(expr))
    }
}

/// What a result that holds a value is.
pub open spec fn value_result_view(result: Result<Value, EntryError>) -> Result<ValueView, EntryErrorView> {
    match result {
        Ok(value) => Ok(value@),
        Err(error) => Err(error@),
    }
}

/// Evaluates an expression to a typed value.
pub fn eval_expr(expr: &Expr, variables: &Variables) -> (result: Result<Value, EntryError>)
    ensures
        value_result_view(result) == expr_value(*expr, variables@),
{
    match variables.get(expr.variable.name.as_str()) {
        Some(value) => Ok(value.clone()),
        None => {
            let inner = RunnerError::TemplateVariableNotDefined {
                name: expr.variable.name.clone(),
            };
            Err(EntryError::new(expr.variable.source_info, inner, false))
        },
    }
}

} // verus!
