use vstd::prelude::*;
use crate::value::Float;

verus! {

/// A position in a source text: line and column, both counted from one.
#[derive(Clone, Copy, Debug, PartialEq, Eq, Structural)]
pub struct Pos {
    pub line: usize,
    pub column: usize,
}

impl Pos {
    pub fn new(line: usize, column: usize) -> (pos: Pos)
        ensures
            pos == (Pos { line, column }),
    {
        Pos { line, column }
    }
}

/// The span of source text that a node was read from.
#[derive(Clone, Copy, Debug, PartialEq, Eq, Structural)]
pub struct SourceInfo {
    pub start: Pos,
    pub end: Pos,
}

impl SourceInfo {
    pub fn new(start: Pos, end: Pos) -> (source_info: SourceInfo)
        ensures
            source_info == (SourceInfo { start, end }),
    {
        SourceInfo { start, end }
    }
}

/// A reference to a variable, as written between `{{` and `}}`.
#[derive(Clone, Debug, PartialEq, Eq)]
pub struct Variable {
    pub name: String,
    pub source_info: SourceInfo,
}

/// An expression: at present, a reference to one variable.
#[derive(Clone, Debug, PartialEq, Eq)]
pub struct Expr {
    pub variable: Variable,
}

/// One fragment of a template. A literal fragment holds its text twice: `value` is what it
/// stands for, `encoded` is how the source wrote it (escapes not yet resolved).
#[derive(Clone, Debug, PartialEq, Eq)]
pub enum TemplateElement {
    String { value: String, encoded: String },
    Expression(Expr),
}

/// Text with placeholders: literal fragments and expressions, in source order.
#[derive(Clone, Debug, PartialEq, Eq)]
pub struct Template {
    pub delimiter: Option<char>,
    pub elements: Vec<TemplateElement>,
    pub source_info: SourceInfo,
}

/// The name of a file, as the source wrote it.
#[derive(Clone, Debug, PartialEq, Eq)]
pub struct Filename {
    pub value: String,
    pub source_info: SourceInfo,
}

/// A file literal: `file, name;`.
#[derive(Clone, Debug, PartialEq, Eq)]
pub struct File {
    pub filename: Filename,
}

/// A base64 literal: the bytes it decodes to, and its source text.
#[derive(Clone, Debug, PartialEq, Eq)]
pub struct Base64 {
    pub value: Vec<u8>,
    pub encoded: String,
}

/// A hexadecimal literal: the bytes it decodes to, and its source text.
#[derive(Clone, Debug, PartialEq, Eq)]
pub struct Hex {
    pub value: Vec<u8>,
    pub encoded: String,
}

/// A regular expression literal, held by the text of its pattern.
#[derive(Clone, Debug, PartialEq, Eq)]
pub struct Regex {
    pub pattern: String,
}

/// A number literal, in the representation that the source chose.
#[derive(Clone, Debug, PartialEq, Eq)]
pub enum Number {
    Float(Float),
    Integer(i64),
    BigInteger(String),
}

/// How much leading white space a multiline block strips from each of its lines.
#[derive(Clone, Copy, Debug, PartialEq, Eq, Structural)]
pub enum Indentation {
    /// Lines are kept as written.
    Keep,
    /// Up to this many leading spaces and tabs leave each line.
    Strip(usize),
}

/// The line ending that a multiline block declares for its text.
#[derive(Clone, Copy, Debug, PartialEq, Eq, Structural)]
pub enum LineEnding {
    Lf,
    CrLf,
}

/// A multiline string block.
#[derive(Clone, Debug, PartialEq, Eq)]
pub struct MultilineString {
    pub indentation: Indentation,
    pub line_ending: LineEnding,
    pub value: Template,
}

/// A JSON literal. Strings are templates, and an expression may stand where a value may.
/// White space between the tokens is kept, so that the literal is given back as written.
#[derive(Debug, PartialEq, Eq)]
pub enum JsonValue {
    Expression(Expr),
    Number(String),
    String(Template),
    Boolean(bool),
    List { space0: String, elements: Vec<JsonListElement> },
    Object { space0: String, elements: Vec<JsonObjectElement> },
    Null,
}

#[derive(Debug, PartialEq, Eq)]
pub struct JsonListElement {
    pub space0: String,
    pub value: JsonValue,
    pub space1: String,
}

#[derive(Debug, PartialEq, Eq)]
pub struct JsonObjectElement {
    pub space0: String,
    pub name: Template,
    pub space1: String,
    pub space2: String,
    pub value: JsonValue,
    pub space3: String,
}

/// The literal that gives a request or a response its body.
#[derive(Debug, PartialEq, Eq)]
pub enum Bytes {
    Json(JsonValue),
    Xml(String),
    MultilineString(MultilineString),
    OnelineString(Template),
    Base64(Base64),
    File(File),
    Hex(Hex),
}

/// The body of a request or of an expected response.
#[derive(Debug, PartialEq, Eq)]
pub struct Body {
    pub value: Bytes,
}

/// The operand of a predicate: the expected side of an assertion.
#[derive(Clone, Debug, PartialEq, Eq)]
pub enum PredicateValue {
    Base64(Base64),
    Bool(bool),
    Expression(Expr),
    File(File),
    Hex(Hex),
    MultilineString(MultilineString),
    Null,
    Number(Number),
    Regex(Regex),
    String(Template),
}

} // verus!
