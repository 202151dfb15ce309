use hurl::ast::{Expr, Pos, SourceInfo, Template, TemplateElement, Variable};
use hurl::error::RunnerError;
use hurl::expr::eval_expr;
use hurl::template::{eval_expression, eval_template};
use hurl::value::{Float, Number, Value};
use hurl::variables::Variables;

fn at(column: usize) -> SourceInfo {
    SourceInfo::new(Pos::new(1, column), Pos::new(1, column + 4))
}

fn expr(name: &str, column: usize) -> Expr {
    Expr { variable: Variable { name: String::from(name), source_info: at(column) } }
}

fn literal(text: &str) -> TemplateElement {
    TemplateElement::String { value: String::from(text), encoded: String::from(text) }
}

fn template(elements: Vec<TemplateElement>) -> Template {
    Template { delimiter: None, elements, source_info: at(1) }
}

fn variables() -> Variables {
    let mut variables = Variables::new();
    variables.insert(String::from("name"), Value::String(String::from("Bob")));
    variables.insert(String::from("age"), Value::Number(Number::Integer(-42)));
    variables.insert(
        String::from("ratio"),
        Value::Number(Number::Float(Float { bits: 0x3ff8000000000000, encoded: String::from("1.5") })),
    );
    variables.insert(
        String::from("big"),
        Value::Number(Number::BigInteger(String::from("123456789012345678901234567890"))),
    );
    variables.insert(String::from("yes"), Value::Bool(true));
    variables.insert(String::from("no"), Value::Bool(false));
    variables.insert(String::from("nothing"), Value::Null);
    variables.insert(String::from("bytes"), Value::Bytes(vec![1, 2]));
    variables.insert(String::from("regex"), Value::Regex(String::from("a.*")));
    variables
}

#[test]
fn template_without_expression() {
    assert_eq!(eval_template(&template(vec![]), &variables()).unwrap(), "");
    assert_eq!(eval_template(&template(vec![literal("abc")]), &variables()).unwrap(), "abc");
}

#[test]
fn template_takes_the_value_of_a_literal() {
    let element = TemplateElement::String {
        value: String::from("a\tb"),
        encoded: String::from("a\\tb"),
    };
    assert_eq!(eval_template(&template(vec![element]), &variables()).unwrap(), "a\tb");
}

#[test]
fn template_with_values_of_all_kinds() {
    let template = template(vec![
        literal("Hello "),
        TemplateElement::Expression(expr("name", 7)),
        literal(", "),
        TemplateElement::Expression(expr("age", 20)),
        literal(" "),
        TemplateElement::Expression(expr("ratio", 30)),
        literal(" "),
        TemplateElement::Expression(expr("big", 40)),
        literal(" "),
        TemplateElement::Expression(expr("yes", 50)),
        TemplateElement::Expression(expr("no", 60)),
        TemplateElement::Expression(expr("nothing", 70)),
    ]);
    assert_eq!(
        eval_template(&template, &variables()).unwrap(),
        "Hello Bob, -42 1.5 123456789012345678901234567890 truefalsenull"
    );
}

#[test]
fn template_is_deterministic() {
    let template = template(vec![literal("x="), TemplateElement::Expression(expr("age", 3))]);
    let variables = variables();
    let first = eval_template(&template, &variables).unwrap();
    let second = eval_template(&template, &variables).unwrap();
    assert_eq!(first, "x=-42");
    assert_eq!(first, second);
    assert_eq!(eval_template(&template, &self::variables()).unwrap(), first);
}

#[test]
fn template_variable_not_defined() {
    let template = template(vec![
        literal("a"),
        TemplateElement::Expression(expr("missing", 5)),
        TemplateElement::Expression(expr("bytes", 9)),
    ]);
    let error = eval_template(&template, &variables()).err().unwrap();
    assert_eq!(error.inner, RunnerError::TemplateVariableNotDefined { name: "missing".to_string() });
    assert_eq!(error.source_info, at(5));
    assert!(!error.assert);
}

#[test]
fn template_variable_names_are_case_sensitive() {
    let template = template(vec![TemplateElement::Expression(expr("Name", 5))]);
    let error = eval_template(&template, &variables()).err().unwrap();
    assert_eq!(error.inner, RunnerError::TemplateVariableNotDefined { name: "Name".to_string() });
}

#[test]
fn template_variable_invalid_type() {
    for name in ["bytes", "regex"] {
        let template = template(vec![literal("a"), TemplateElement::Expression(expr(name, 5))]);
        let error = eval_template(&template, &variables()).err().unwrap();
        assert_eq!(
            error.inner,
            RunnerError::TemplateVariableInvalidType {
                name: name.to_string(),
                expected: "text".to_string()
            }
        );
        assert_eq!(error.source_info, at(5));
    }
}

#[test]
fn expression_gives_a_typed_value() {
    let variables = variables();
    assert_eq!(eval_expr(&expr("age", 1), &variables).unwrap(), Value::Number(Number::Integer(-42)));
    assert_eq!(eval_expr(&expr("bytes", 1), &variables).unwrap(), Value::Bytes(vec![1, 2]));
    assert_eq!(eval_expr(&expr("regex", 1), &variables).unwrap(), Value::Regex("a.*".to_string()));
    assert_eq!(eval_expr(&expr("nothing", 1), &variables).unwrap(), Value::Null);
    let error = eval_expr(&expr("missing", 3), &variables).err().unwrap();
    assert_eq!(error.inner, RunnerError::TemplateVariableNotDefined { name: "missing".to_string() });
    assert_eq!(error.source_info, at(3));
    assert_eq!(eval_expression(&expr("yes", 1), &variables).unwrap(), "true");
}

#[test]
fn variables_are_set_in_any_order() {
    let mut first = Variables::new();
    first.insert(String::from("a"), Value::Bool(true));
    first.insert(String::from("b"), Value::Null);
    let mut second = Variables::new();
    second.insert(String::from("b"), Value::Null);
    second.insert(String::from("a"), Value::Bool(false));
    second.insert(String::from("a"), Value::Bool(true));
    for name in ["a", "b", "c"] {
        assert_eq!(first.get(name), second.get(name));
        assert_eq!(first.contains(name), second.contains(name));
    }
    assert_eq!(first.get("a"), Some(&Value::Bool(true)));
    assert_eq!(first.get("c"), None);
}
