use hurl::ast::{
    Expr, Indentation, LineEnding, MultilineString, Pos, SourceInfo, Template, TemplateElement,
    Variable,
};
use hurl::error::RunnerError;
use hurl::multiline::eval_multiline;
use hurl::value::Value;
use hurl::variables::Variables;

fn source_info() -> SourceInfo {
    SourceInfo::new(Pos::new(3, 1), Pos::new(5, 4))
}

fn literal(text: &str) -> TemplateElement {
    TemplateElement::String { value: String::from(text), encoded: String::from(text) }
}

fn variable(name: &str) -> TemplateElement {
    TemplateElement::Expression(Expr {
        variable: Variable { name: String::from(name), source_info: source_info() },
    })
}

fn block(
    indentation: Indentation,
    line_ending: LineEnding,
    elements: Vec<TemplateElement>,
) -> MultilineString {
    MultilineString {
        indentation,
        line_ending,
        value: Template { delimiter: None, elements, source_info: source_info() },
    }
}

fn variables() -> Variables {
    let mut variables = Variables::new();
    variables.insert(String::from("indented"), Value::String(String::from("  x\n  y")));
    variables.insert(String::from("name"), Value::String(String::from("Bob")));
    variables
}

#[test]
fn multiline_kept_as_written() {
    let block =
        block(Indentation::Keep, LineEnding::Lf, vec![literal("  a\n\tb\n"), literal("c")]);
    assert_eq!(eval_multiline(&block, &variables()).unwrap(), "  a\n\tb\nc");
    let empty = self::block(Indentation::Keep, LineEnding::Lf, vec![]);
    assert_eq!(eval_multiline(&empty, &variables()).unwrap(), "");
}

#[test]
fn multiline_strips_indentation() {
    let block = block(
        Indentation::Strip(2),
        LineEnding::Lf,
        vec![literal("  a\n    b\n c\n\t\td\n\ne  f")],
    );
    assert_eq!(eval_multiline(&block, &variables()).unwrap(), "a\n  b\nc\nd\n\ne  f");
}

#[test]
fn multiline_strips_across_fragments_but_not_values() {
    let block = block(
        Indentation::Strip(4),
        LineEnding::Lf,
        vec![literal("  "), literal("   a\n  "), variable("indented"), literal("\n  "), variable("name")],
    );
    assert_eq!(eval_multiline(&block, &variables()).unwrap(), " a\n  x\n  y\nBob");
}

#[test]
fn multiline_sets_line_endings() {
    let text = "a\nb\r\nc\rd\n\n\r\r\n";
    let lf = block(Indentation::Keep, LineEnding::Lf, vec![literal(text)]);
    assert_eq!(eval_multiline(&lf, &variables()).unwrap(), "a\nb\nc\rd\n\n\r\n");
    let crlf = block(Indentation::Keep, LineEnding::CrLf, vec![literal(text)]);
    assert_eq!(eval_multiline(&crlf, &variables()).unwrap(), "a\r\nb\r\nc\rd\r\n\r\n\r\r\n");
}

#[test]
fn multiline_sets_line_endings_of_values() {
    let block = block(
        Indentation::Strip(1),
        LineEnding::CrLf,
        vec![literal(" a\r"), variable("indented")],
    );
    assert_eq!(eval_multiline(&block, &variables()).unwrap(), "a\r  x\r\n  y");
}

#[test]
fn multiline_error() {
    let block = block(Indentation::Keep, LineEnding::Lf, vec![literal("a"), variable("missing")]);
    let error = eval_multiline(&block, &variables()).err().unwrap();
    assert_eq!(error.inner, RunnerError::TemplateVariableNotDefined { name: "missing".to_string() });
    assert_eq!(error.source_info, source_info());
}
