use vstd::prelude::*;
use crate::ast::{Number, PredicateValue};
use crate::body::{eval_file, file_content, read_view};
use crate::error::{EntryError, EntryErrorView};
use crate::expr::{eval_expr, expr_value, value_result_view};
use crate::multiline::{eval_multiline, multiline_text};
use crate::path::ContextDir;
use crate::template::{eval_template, template_text, text_result_view};
use crate::value::{NumberView, Value, ValueView};
use crate::value;
use crate::variables::Variables;

verus! {

/// The number that a number literal stands for: the same representation, the same value,
/// and for a big integer the same digits.
pub open spec fn number_value(number: Number) -> NumberView {
    match number {
        Number::Float(float) => float@,
        Number::Integer(i) => NumberView::Integer(i as int),
        Number::BigInteger(digits) => NumberView::BigInteger(digits@),
    }
}

/// The value that a predicate operand evaluates to.
pub open spec fn predicate_value(
    operand: PredicateValue,
    env: Map<Seq<char>, ValueView>,
    context_dir: ContextDir,
    read: Option<Seq<u8>>,
) -> Result<ValueView, EntryErrorView> {
    match operand {
        PredicateValue::String(template) => match template_text(template, env) {
            Ok(text) => Ok(ValueView::String(text)),
            Err(error) => Err(error),
        },
        PredicateValue::MultilineString(multiline) => match multiline_text(multiline, env) {
            Ok(text) => Ok(ValueView::String(text)),
            Err(error) => Err(error),
        },
        PredicateValue::Bool(b) => Ok(ValueView::Bool(b)),
        PredicateValue::Null => Ok(ValueView::Null),
        PredicateValue::Number(number) => Ok(ValueView::Number(number_value(number))),
        PredicateValue::File(file) => match file_content(file.filename, context_dir, read) {
            Ok(content) => Ok(ValueView::Bytes(content)),
            Err(error) => Err(error),
        },
        PredicateValue::Hex(hex) => Ok(ValueView::Bytes(hex.value@)),
        PredicateValue::Base64(base64) => Ok(ValueView::Bytes(base64.value@)),
        PredicateValue::Expression(expr) => expr_value(expr, env),
        PredicateValue::Regex(regex) => Ok(ValueView::Regex(regex.pattern@)),
    }
}

/// The text of an operand that the grammar lets be only a string or a regular expression.
pub open spec fn predicate_value_text(
    operand: PredicateValue,
    env: Map<Seq<char>, ValueView>,
) -> Result<Seq<char>, EntryErrorView>
    recommends
        operand is String || operand is Regex,
{
    match operand {
        PredicateValue::String(template) => template_text(template, env),
        PredicateValue::Regex(regex) => Ok(regex.pattern@),
        _ => arbitrary(),
    }
}

/// Evaluates the operand of a predicate to a typed value. `read` is what reading the file
/// of a file operand gave, `None` where that failed or where there was nothing to read;
/// only a file operand looks at it.
pub fn eval_predicate_value(
    predicate_value: &PredicateValue,
    variables: &Variables,
    context_dir: &ContextDir,
    read: Option<Vec<u8>>,
) -> (result: Result<Value, EntryError>)
    ensures
        value_result_view(result) == self::predicate_value(
            *predicate_value,
            variables@,
            *context_dir,
            read_view(read),
        ),
{
    match predicate_value {
        PredicateValue::String(template) => {
            let s = eval_template(template, variables)?;
            Ok(Value::String(s))
        },
        PredicateValue::MultilineString(value) => {
            let s = eval_multiline(value, variables)?;
            Ok(Value::String(s))
        },
        PredicateValue::Bool(value) => Ok(Value::Bool(*value)),
        PredicateValue::Null => Ok(Value::Null),
        PredicateValue::Number(value) => Ok(Value::Number(eval_number(value))),
        PredicateValue::File(value) => {
            let value = eval_file(&value.filename, context_dir, read)?;
            Ok(Value::Bytes(value))
        },
        PredicateValue::Hex(value) => Ok(Value::Bytes(value.value.clone())),
        PredicateValue::Base64(value) => Ok(Value::Bytes(value.value.clone())),
        PredicateValue::Expression(expr) => {
            let value = eval_expr(expr, variables)?;
            Ok(value)
        },
        PredicateValue::Regex(regex) => Ok(Value::Regex(regex.pattern.clone())),
    }
}

/// Evaluates an operand that the grammar lets be only a string or a regular expression to
/// its text: the text of the template, or the pattern. The grammar sees to it that no
/// other operand comes here; a caller that cannot know tests the operand first.
pub fn eval_predicate_value_template(predicate_value: &PredicateValue, variables: &Variables) -> (result:
    Result<String, EntryError>)
    requires
        predicate_value is String || predicate_value is Regex,
    ensures
        text_result_view(result) == predicate_value_text(*predicate_value, variables@),
{
    match predicate_value {
        PredicateValue::String(template) => eval_template(template, variables),
        PredicateValue::Regex(regex) => Ok(regex.pattern.clone()),
        _ => unreached(),
    }
}

/// The number that a number literal stands for.
pub fn eval_number(number: &Number) -> (result: value::Number)
    ensures
        result@ == number_value(*number),
{
    match number {
        Number::Float(value) => value::Number::Float(value.clone()),
        Number::Integer(value) => value::Number::Integer(*value),
        Number::BigInteger(value) => value::Number::BigInteger(value.clone()),
    }
}

/// A hexadecimal or base64 operand evaluates to the bytes that the literal decodes to,
/// whatever the environment holds, whatever the file root is and whatever was read.
pub proof fn lemma_bytes_operand_ignores_environment(
    operand: PredicateValue,
    env: Map<Seq<char>, ValueView>,
    context_dir: ContextDir,
    read: Option<Seq<u8>>,
)
    ensures
        operand matches PredicateValue::Hex(hex) ==> predicate_value(
            operand,
            env,
            context_dir,
            read,
        ) == Ok::<ValueView, EntryErrorView>(ValueView::Bytes(hex.value@)),
        operand matches PredicateValue::Base64(base64) ==> predicate_value(
            operand,
            env,
            context_dir,
            read,
        ) == Ok::<ValueView, EntryErrorView>(ValueView::Bytes(base64.value@)),
{
}

} // verus!
