use hurl::ast::{
    Base64, Body, Bytes, Expr, File, Filename, Hex, Indentation, JsonObjectElement, JsonValue,
    LineEnding, MultilineString, Pos, SourceInfo, Template, TemplateElement, Variable,
};
use hurl::body::{eval_body, eval_bytes, eval_file, file_to_read};
use hurl::error::RunnerError;
use hurl::http;
use hurl::path::ContextDir;
use hurl::value::Value;
use hurl::variables::Variables;

fn source_info() -> SourceInfo {
    SourceInfo::new(Pos::new(1, 7), Pos::new(1, 15))
}

fn file_literal(name: &str) -> Bytes {
    Bytes::File(File {
        filename: Filename { value: String::from(name), source_info: source_info() },
    })
}

fn literal(text: &str) -> TemplateElement {
    TemplateElement::String { value: String::from(text), encoded: String::from(text) }
}

fn variable(name: &str) -> TemplateElement {
    TemplateElement::Expression(Expr {
        variable: Variable { name: String::from(name), source_info: source_info() },
    })
}

fn template(elements: Vec<TemplateElement>) -> Template {
    Template { delimiter: None, elements, source_info: source_info() }
}

/// Stands for the file system: one directory, `/work/tests`, with one file, `data.bin`.
fn read(path: &str) -> Option<Vec<u8>> {
    if path == "tests/data.bin" || path == "/work/tests/data.bin" {
        Some(b"Hello World!".to_vec())
    } else {
        None
    }
}

#[test]
fn test_body_file() {
    // file, data.bin;
    let bytes = file_literal("tests/data.bin");
    let variables = Variables::new();
    let context_dir = ContextDir::new("/work", "");
    let filename = Filename { value: String::from("tests/data.bin"), source_info: source_info() };
    let path = file_to_read(&filename, &context_dir).unwrap();
    assert_eq!(path, "tests/data.bin");
    assert_eq!(
        eval_bytes(&bytes, &variables, &context_dir, read(&path)).unwrap(),
        http::Body::File(b"Hello World!".to_vec(), "tests/data.bin".to_string())
    );
}

#[test]
fn test_body_file_error() {
    // file, data.bin;
    let bytes = file_literal("data.bin");
    let variables = Variables::new();
    let context_dir = ContextDir::new("/work", "file_root");
    let filename = Filename { value: String::from("data.bin"), source_info: source_info() };
    let path = file_to_read(&filename, &context_dir).unwrap();
    assert_eq!(path, "file_root/data.bin");
    let error = eval_bytes(&bytes, &variables, &context_dir, read(&path)).err().unwrap();
    assert_eq!(error.inner, RunnerError::FileReadAccess { file: "data.bin".to_string() });
    assert_eq!(error.source_info, SourceInfo::new(Pos::new(1, 7), Pos::new(1, 15)));
    assert!(!error.assert);
}

#[test]
fn file_body_in_file_root() {
    let bytes = file_literal("data.bin");
    let context_dir = ContextDir::new("/work", "/work/tests");
    let filename = Filename { value: String::from("data.bin"), source_info: source_info() };
    let path = file_to_read(&filename, &context_dir).unwrap();
    assert_eq!(path, "/work/tests/data.bin");
    let body = eval_bytes(&bytes, &Variables::new(), &context_dir, read(&path)).unwrap();
    assert_eq!(
        body,
        http::Body::File(
            vec![72, 101, 108, 108, 111, 32, 87, 111, 114, 108, 100, 33],
            "data.bin".to_string()
        )
    );
}

#[test]
fn file_body_missing_in_sibling_root() {
    let bytes = file_literal("data.bin");
    let context_dir = ContextDir::new("/work", "/work/other");
    let filename = Filename { value: String::from("data.bin"), source_info: source_info() };
    let path = file_to_read(&filename, &context_dir).unwrap();
    assert_eq!(path, "/work/other/data.bin");
    let error = eval_bytes(&bytes, &Variables::new(), &context_dir, read(&path)).err().unwrap();
    assert_eq!(error.inner, RunnerError::FileReadAccess { file: "data.bin".to_string() });
}

#[test]
fn file_body_outside_root_is_not_read() {
    let bytes = file_literal("../secret.txt");
    let filename = Filename { value: String::from("../secret.txt"), source_info: source_info() };
    for root in ["/work/tests", "tests", "", "/work", "a/b/c"] {
        let context_dir = ContextDir::new("/work", root);
        assert_eq!(file_to_read(&filename, &context_dir), None);
        let error = eval_bytes(&bytes, &Variables::new(), &context_dir, None).err().unwrap();
        assert_eq!(
            error.inner,
            RunnerError::UnauthorizedFileAccess { path: "../secret.txt".to_string() }
        );
        assert_eq!(error.source_info, source_info());
        // Whatever a caller read all the same is not handed out.
        let error = eval_bytes(&bytes, &Variables::new(), &context_dir, Some(vec![1, 2, 3]))
            .err()
            .unwrap();
        assert_eq!(
            error.inner,
            RunnerError::UnauthorizedFileAccess { path: "../secret.txt".to_string() }
        );
    }
}

#[test]
fn eval_file_gives_what_was_read() {
    let filename = Filename { value: String::from("data.bin"), source_info: source_info() };
    let context_dir = ContextDir::new("/work", "tests");
    assert_eq!(eval_file(&filename, &context_dir, Some(vec![1, 2, 3])).unwrap(), vec![1, 2, 3]);
    assert_eq!(eval_file(&filename, &context_dir, Some(vec![])).unwrap(), Vec::<u8>::new());
    let error = eval_file(&filename, &context_dir, None).err().unwrap();
    assert_eq!(error.inner, RunnerError::FileReadAccess { file: "data.bin".to_string() });
}

#[test]
fn json_body_with_variable() {
    // {"id": "{{user_id}}"}
    let json = JsonValue::Object {
        space0: String::new(),
        elements: vec![JsonObjectElement {
            space0: String::new(),
            name: template(vec![literal("id")]),
            space1: String::new(),
            space2: String::from(" "),
            value: JsonValue::String(template(vec![variable("user_id")])),
            space3: String::new(),
        }],
    };
    let body = Body { value: Bytes::Json(json) };
    let mut variables = Variables::new();
    variables.insert(String::from("user_id"), Value::String(String::from("42")));
    let context_dir = ContextDir::new("/work", "");
    assert_eq!(
        eval_body(&body, &variables, &context_dir, None).unwrap(),
        http::Body::Text("{\"id\": \"42\"}".to_string())
    );
    variables.insert(String::from("user_id"), Value::String(String::from("4\"2\n")));
    assert_eq!(
        eval_body(&body, &variables, &context_dir, None).unwrap(),
        http::Body::Text("{\"id\": \"4\\\"2\\n\"}".to_string())
    );
}

#[test]
fn text_bodies() {
    let mut variables = Variables::new();
    variables.insert(String::from("name"), Value::String(String::from("Bob")));
    let context_dir = ContextDir::new("/work", "");
    let oneline = Bytes::OnelineString(template(vec![literal("Hello "), variable("name"), literal("!")]));
    assert_eq!(
        eval_bytes(&oneline, &variables, &context_dir, None).unwrap(),
        http::Body::Text("Hello Bob!".to_string())
    );
    let multiline = Bytes::MultilineString(MultilineString {
        indentation: Indentation::Keep,
        line_ending: LineEnding::Lf,
        value: template(vec![literal("Hello\n"), variable("name"), literal("\n")]),
    });
    assert_eq!(
        eval_bytes(&multiline, &variables, &context_dir, None).unwrap(),
        http::Body::Text("Hello\nBob\n".to_string())
    );
    // An XML body is handed on as it is written: `{{name}}` stays.
    let xml = Bytes::Xml(String::from("<a>{{name}}</a>"));
    assert_eq!(
        eval_bytes(&xml, &variables, &context_dir, None).unwrap(),
        http::Body::Text("<a>{{name}}</a>".to_string())
    );
}

#[test]
fn binary_bodies() {
    let variables = Variables::new();
    let context_dir = ContextDir::new("/work", "");
    let base64 = Bytes::Base64(Base64 { value: vec![1, 2, 3], encoded: String::from("AQID") });
    assert_eq!(
        eval_bytes(&base64, &variables, &context_dir, None).unwrap(),
        http::Body::Binary(vec![1, 2, 3])
    );
    let hex = Bytes::Hex(Hex { value: vec![0xff, 0x10], encoded: String::from("ff10") });
    assert_eq!(
        eval_bytes(&hex, &variables, &context_dir, Some(vec![9])).unwrap(),
        http::Body::Binary(vec![0xff, 0x10])
    );
}

#[test]
fn body_error_is_the_first_error() {
    let variables = Variables::new();
    let context_dir = ContextDir::new("/work", "");
    let oneline = Bytes::OnelineString(template(vec![variable("a"), variable("b")]));
    let error = eval_bytes(&oneline, &variables, &context_dir, None).err().unwrap();
    assert_eq!(error.inner, RunnerError::TemplateVariableNotDefined { name: "a".to_string() });
}
