use hurl::ast::{
    Expr, JsonListElement, JsonObjectElement, JsonValue, Pos, SourceInfo, Template,
    TemplateElement, Variable,
};
use hurl::error::RunnerError;
use hurl::json::{encode_json_string, eval_json_value};
use hurl::value::{Number, Value};
use hurl::variables::Variables;

fn at(column: usize) -> SourceInfo {
    SourceInfo::new(Pos::new(2, column), Pos::new(2, column + 1))
}

fn expr(name: &str, column: usize) -> Expr {
    Expr { variable: Variable { name: String::from(name), source_info: at(column) } }
}

fn written(value: &str, encoded: &str) -> TemplateElement {
    TemplateElement::String { value: String::from(value), encoded: String::from(encoded) }
}

fn template(elements: Vec<TemplateElement>) -> Template {
    Template { delimiter: Some('"'), elements, source_info: at(1) }
}

fn element(space0: &str, value: JsonValue, space1: &str) -> JsonListElement {
    JsonListElement { space0: String::from(space0), value, space1: String::from(space1) }
}

fn member(name: &str, space2: &str, value: JsonValue) -> JsonObjectElement {
    JsonObjectElement {
        space0: String::from("\n  "),
        name: template(vec![written(name, name)]),
        space1: String::new(),
        space2: String::from(space2),
        value,
        space3: String::new(),
    }
}

fn variables() -> Variables {
    let mut variables = Variables::new();
    variables.insert(String::from("name"), Value::String(String::from("Bob \"the\" \\ builder")));
    variables.insert(String::from("count"), Value::Number(Number::Integer(3)));
    variables.insert(String::from("raw"), Value::String(String::from("[1, 2]")));
    variables.insert(String::from("bytes"), Value::Bytes(vec![1]));
    variables
}

#[test]
fn json_string_escapes() {
    assert_eq!(encode_json_string(""), "");
    assert_eq!(encode_json_string("plain text é"), "plain text é");
    assert_eq!(encode_json_string("a\"b"), "a\\\"b");
    assert_eq!(encode_json_string("a\\b"), "a\\\\b");
    assert_eq!(encode_json_string("\n\r\t"), "\\n\\r\\t");
    assert_eq!(encode_json_string("\u{8}\u{c}"), "\\b\\f");
    assert_eq!(encode_json_string("\u{0}\u{1f}\u{1b}"), "\\u0000\\u001f\\u001b");
    assert_eq!(encode_json_string("\u{20}\u{7f}"), "\u{20}\u{7f}");
}

#[test]
fn json_scalars() {
    let variables = variables();
    assert_eq!(eval_json_value(&JsonValue::Null, &variables, true).unwrap(), "null");
    assert_eq!(eval_json_value(&JsonValue::Boolean(true), &variables, true).unwrap(), "true");
    assert_eq!(eval_json_value(&JsonValue::Boolean(false), &variables, true).unwrap(), "false");
    assert_eq!(
        eval_json_value(&JsonValue::Number(String::from("1.50")), &variables, true).unwrap(),
        "1.50"
    );
    assert_eq!(
        eval_json_value(&JsonValue::String(template(vec![])), &variables, true).unwrap(),
        "\"\""
    );
}

#[test]
fn json_string_keeps_literal_as_written() {
    let value = JsonValue::String(template(vec![written("a\nb", "a\\nb")]));
    assert_eq!(eval_json_value(&value, &variables(), true).unwrap(), "\"a\\nb\"");
    assert_eq!(eval_json_value(&value, &variables(), false).unwrap(), "\"a\\nb\"");
}

#[test]
fn json_string_escapes_value_of_variable() {
    let value = JsonValue::String(template(vec![
        written("Hi ", "Hi "),
        TemplateElement::Expression(expr("name", 5)),
    ]));
    assert_eq!(
        eval_json_value(&value, &variables(), true).unwrap(),
        "\"Hi Bob \\\"the\\\" \\\\ builder\""
    );
    assert_eq!(
        eval_json_value(&value, &variables(), false).unwrap(),
        "\"Hi Bob \"the\" \\ builder\""
    );
}

#[test]
fn json_expression_is_put_in_as_it_is() {
    let variables = variables();
    assert_eq!(
        eval_json_value(&JsonValue::Expression(expr("count", 1)), &variables, true).unwrap(),
        "3"
    );
    assert_eq!(
        eval_json_value(&JsonValue::Expression(expr("raw", 1)), &variables, true).unwrap(),
        "[1, 2]"
    );
}

#[test]
fn json_list() {
    let variables = variables();
    let empty = JsonValue::List { space0: String::from(" "), elements: vec![] };
    assert_eq!(eval_json_value(&empty, &variables, true).unwrap(), "[ ]");
    let list = JsonValue::List {
        space0: String::new(),
        elements: vec![
            element("", JsonValue::Number(String::from("1")), ""),
            element(" ", JsonValue::Expression(expr("count", 1)), ""),
            element(" ", JsonValue::List { space0: String::new(), elements: vec![] }, " "),
        ],
    };
    assert_eq!(eval_json_value(&list, &variables, true).unwrap(), "[1, 3, [] ]");
}

#[test]
fn json_object() {
    let variables = variables();
    let empty = JsonValue::Object { space0: String::new(), elements: vec![] };
    assert_eq!(eval_json_value(&empty, &variables, true).unwrap(), "{}");
    let mut last = member("tags", " ", JsonValue::List {
        space0: String::new(),
        elements: vec![element("", JsonValue::String(template(vec![written("a", "a")])), "")],
    });
    last.space3 = String::from("\n");
    let object = JsonValue::Object {
        space0: String::new(),
        elements: vec![
            member("count", " ", JsonValue::Expression(expr("count", 1))),
            member("ok", "", JsonValue::Boolean(true)),
            last,
        ],
    };
    assert_eq!(
        eval_json_value(&object, &variables, true).unwrap(),
        "{\n  \"count\": 3,\n  \"ok\":true,\n  \"tags\": [\"a\"]\n}"
    );
}

#[test]
fn json_error_is_the_first_error() {
    let variables = variables();
    let list = JsonValue::List {
        space0: String::new(),
        elements: vec![
            element("", JsonValue::Number(String::from("1")), ""),
            element("", JsonValue::Expression(expr("missing", 4)), ""),
            element("", JsonValue::Expression(expr("bytes", 8)), ""),
        ],
    };
    let error = eval_json_value(&list, &variables, true).err().unwrap();
    assert_eq!(error.inner, RunnerError::TemplateVariableNotDefined { name: "missing".to_string() });
    assert_eq!(error.source_info, at(4));
    let object = JsonValue::Object {
        space0: String::new(),
        elements: vec![member(
            "a",
            "",
            JsonValue::String(template(vec![TemplateElement::Expression(expr("bytes", 8))])),
        )],
    };
    let error = eval_json_value(&object, &variables, true).err().unwrap();
    assert_eq!(
        error.inner,
        RunnerError::TemplateVariableInvalidType {
            name: "bytes".to_string(),
            expected: "text".to_string()
        }
    );
    assert_eq!(error.source_info, at(8));
}
