use vstd::prelude::*;
use vstd::string::StringExecFns;
use crate::ast::{JsonListElement, JsonObjectElement, JsonValue, Template, TemplateElement};
use crate::error::{EntryError, EntryErrorView};
use crate::template::{eval_expression, expr_text, text_result_view};
use crate::text::chars_of;
use crate::value::ValueView;
use crate::variables::Variables;

verus! {

/// The character that writes `n` in base sixteen, for `n` from 0 to 15.
pub open spec fn hex_digit(n: int) -> char {
    if n < 10 {
        ((n + 48) as u8) as char
    } else {
        ((n + 87) as u8) as char
    }
}

/// How a JSON string writes one character: a quote, a backslash and the control
/// characters are escaped, every other character stands for itself.
pub open spec fn escaped_char(c: char) -> Seq<char> {
    if c == '"' {
        seq!['\\', '"']
    } else if c == '\\' {
        seq!['\\', '\\']
    } else if c == '\n' {
        seq!['\\', 'n']
    } else if c == '\r' {
        seq!['\\', 'r']
    } else if c == '\t' {
        seq!['\\', 't']
    } else if c == '\u{8}' {
        seq!['\\', 'b']
    } else if c == '\u{c}' {
        seq!['\\', 'f']
    } else if (c as u32) < 32 {
        seq!['\\', 'u', '0', '0', hex_digit((c as u32) as int / 16), hex_digit((c as u32) as int % 16)]
    } else {
        seq![c]
    }
}

/// How a JSON string writes a text.
pub open spec fn escaped(text: Seq<char>) -> Seq<char>
    decreases text.len(),
{
    if text.len() == 0 {
        Seq::empty()
    } else {
        escaped(text.drop_last()) + escaped_char(text.last())
    }
}

/// The number that a digit of base sixteen writes, as `hex_digit` writes it.
pub open spec fn hex_value(c: char) -> Option<int> {
    if 48 <= c as u32 <= 57 {
        Some(c as u32 - 48)
    } else if 97 <= c as u32 <= 102 {
        Some(c as u32 - 87)
    } else {
        None
    }
}

/// The character that stands after a backslash for `c`, for the characters that are
/// escaped by one letter.
pub open spec fn short_escape(c: char) -> Option<char> {
    if c == '"' {
        Some('"')
    } else if c == '\\' {
        Some('\\')
    } else if c == 'n' {
        Some('\n')
    } else if c == 'r' {
        Some('\r')
    } else if c == 't' {
        Some('\t')
    } else if c == 'b' {
        Some('\u{8}')
    } else if c == 'f' {
        Some('\u{c}')
    } else {
        None
    }
}

/// The text that an escaped text stands for, read as a reader of JSON reads the inside of
/// a string: `None` where a quote or a control character stands bare, or where an escape
/// is none of those that `escaped` writes.
pub open spec fn unescaped(text: Seq<char>) -> Option<Seq<char>>
    decreases text.len(),
{
    if text.len() == 0 {
        Some(Seq::empty())
    } else if text[0] != '\\' {
        if text[0] == '"' || (text[0] as u32) < 32 {
            None
        } else {
            match unescaped(text.skip(1)) {
                Some(rest) => Some(seq![text[0]] + rest),
                None => None,
            }
        }
    } else if text.len() < 2 {
        None
    } else if text[1] == 'u' {
        if text.len() >= 6 && text[2] == '0' && text[3] == '0' && hex_value(text[4]) is Some
            && hex_value(text[5]) is Some {
            let code = hex_value(text[4])->0 * 16 + hex_value(text[5])->0;
            match unescaped(text.skip(6)) {
                Some(rest) => Some(seq![(code as u8) as char] + rest),
                None => None,
            }
        } else {
            None
        }
    } else {
        match short_escape(text[1]) {
            None => None,
            Some(c) => match unescaped(text.skip(2)) {
                Some(rest) => Some(seq![c] + rest),
                None => None,
            },
        }
    }
}

/// The text between the quotes of a JSON string, for the first `n` fragments of its
/// template: a literal fragment is given back as the source wrote it, an expression gives
/// way to the text of its variable, escaped where `escape` is set.
pub open spec fn json_string_text(
    elements: Seq<TemplateElement>,
    n: nat,
    env: Map<Seq<char>, ValueView>,
    escape: bool,
) -> Result<Seq<char>, EntryErrorView>
    decreases n,
{
    if n == 0 {
        Ok(Seq::empty())
    } else {
        match json_string_text(elements, (n - 1) as nat, env, escape) {
            Err(error) => Err(error),
            Ok(text) => match elements[n - 1] {
                TemplateElement::String { encoded, .. } => Ok(text + encoded@),
                TemplateElement::Expression(expr) => match expr_text(expr, env) {
                    Err(error) => Err(error),
                    Ok(value) => Ok(text + if escape { escaped(value) } else { value }),
                },
            },
        }
    }
}

/// A JSON string: its text between two quotes.
pub open spec fn json_quoted(
    template: Template,
    env: Map<Seq<char>, ValueView>,
    escape: bool,
) -> Result<Seq<char>, EntryErrorView> {
    match json_string_text(template.elements@, template.elements@.len(), env, escape) {
        Err(error) => Err(error),
        Ok(text) => Ok(seq!['"'] + text + seq!['"']),
    }
}

/// The text of a JSON literal: the literal as the source wrote it, white space included,
/// with every expression replaced by the text of its variable. The first error, from left
/// to right, is the error of the whole.
pub open spec fn json_text(value: JsonValue, env: Map<Seq<char>, ValueView>, escape: bool) -> Result<
    Seq<char>,
    EntryErrorView,
>
    decreases value, 0nat,
{
    match value {
        JsonValue::Null => Ok("null"@),
        JsonValue::Number(number) => Ok(number@),
        JsonValue::Boolean(b) => Ok(if b { "true"@ } else { "false"@ }),
        JsonValue::String(template) => json_quoted(template, env, escape),
        JsonValue::Expression(expr) => expr_text(expr, env),
        JsonValue::List { space0, elements } => match json_list_text(
            elements@,
            elements@.len(),
            env,
            escape,
        ) {
            Err(error) => Err(error),
            Ok(text) => Ok(seq!['['] + space0@ + text + seq![']']),
        },
        JsonValue::Object { space0, elements } => match json_object_text(
            elements@,
            elements@.len(),
            env,
            escape,
        ) {
            Err(error) => Err(error),
            Ok(text) => Ok(seq!['{'] + space0@ + text + seq!['}']),
        },
    }
}

/// The text of the first `n` elements of a list, with a comma between two of them.
pub open spec fn json_list_text(
    elements: Seq<JsonListElement>,
    n: nat,
    env: Map<Seq<char>, ValueView>,
    escape: bool,
) -> Result<Seq<char>, EntryErrorView>
    decreases elements, n,
{
    if n == 0 || n > elements.len() {
        Ok(Seq::empty())
    } else {
        match json_list_text(elements, (n - 1) as nat, env, escape) {
            Err(error) => Err(error),
            Ok(text) => match json_text(elements[n - 1].value, env, escape) {
                Err(error) => Err(error),
                Ok(value) => Ok(
                    text + separator(n) + elements[n - 1].space0@ + value + elements[n
                        - 1].space1@,
                ),
            },
        }
    }
}

/// The text of the first `n` members of an object, with a comma between two of them.
pub open spec fn json_object_text(
    elements: Seq<JsonObjectElement>,
    n: nat,
    env: Map<Seq<char>, ValueView>,
    escape: bool,
) -> Result<Seq<char>, EntryErrorView>
    decreases elements, n,
{
    if n == 0 || n > elements.len() {
        Ok(Seq::empty())
    } else {
        match json_object_text(elements, (n - 1) as nat, env, escape) {
            Err(error) => Err(error),
            Ok(text) => match json_quoted(elements[n - 1].name, env, escape) {
                Err(error) => Err(error),
                Ok(name) => match json_text(elements[n - 1].value, env, escape) {
                    Err(error) => Err(error),
                    Ok(value) => Ok(
                        text + separator(n) + elements[n - 1].space0@ + name + elements[n
                            - 1].space1@ + seq![':'] + elements[n - 1].space2@ + value
                            + elements[n - 1].space3@,
                    ),
                },
            },
        }
    }
}

/// What stands before the `n`th element of a list or an object: a comma, but before the
/// first.
pub open spec fn separator(n: nat) -> Seq<char> {
    if n > 1 {
        seq![',']
    } else {
        Seq::empty()
    }
}

/// An error among the first fragments of a JSON string is the error of the whole.
pub proof fn lemma_json_string_text_error(
    elements: Seq<TemplateElement>,
    n: nat,
    env: Map<Seq<char>, ValueView>,
    escape: bool,
)
    requires
        n <= elements.len(),
    ensures
        json_string_text(elements, n, env, escape) matches Err(error) ==> json_string_text(
            elements,
            elements.len(),
            env,
            escape,
        ) == Err::<Seq<char>, EntryErrorView>(error),
    decreases elements.len() - n,
{
    if n < elements.len() {
        lemma_json_string_text_error(elements, n + 1, env, escape);
    }
}

/// An error among the first elements of a list is the error of the whole.
pub proof fn lemma_json_list_text_error(
    elements: Seq<JsonListElement>,
    n: nat,
    env: Map<Seq<char>, ValueView>,
    escape: bool,
)
    requires
        n <= elements.len(),
    ensures
        json_list_text(elements, n, env, escape) matches Err(error) ==> json_list_text(
            elements,
            elements.len(),
            env,
            escape,
        ) == Err::<Seq<char>, EntryErrorView>(error),
    decreases elements.len() - n,
{
    if n < elements.len() {
        lemma_json_list_text_error(elements, n + 1, env, escape);
    }
}

/// An error among the first members of an object is the error of the whole.
pub proof fn lemma_json_object_text_error(
    elements: Seq<JsonObjectElement>,
    n: nat,
    env: Map<Seq<char>, ValueView>,
    escape: bool,
)
    requires
        n <= elements.len(),
    ensures
        json_object_text(elements, n, env, escape) matches Err(error) ==> json_object_text(
            elements,
            elements.len(),
            env,
            escape,
        ) == Err::<Seq<char>, EntryErrorView>(error),
    decreases elements.len() - n,
{
    if n < elements.len() {
        lemma_json_object_text_error(elements, n + 1, env, escape);
    }
}

fn hex_digit_of(n: u8) -> (c: char)
    requires
        n < 16,
    ensures
        c == hex_digit(n as int),
{
    if n < 10 {
        (n + 48) as char
    } else {
        (n + 87) as char
    }
}

/// Appends to `text` what a JSON string writes for `c`.
fn push_escaped_char(text: &mut String, c: char)
    ensures
        final(text)@ == old(text)@ + escaped_char(c),
{
    if c == '"' {
        text.push('\\');
        text.push('"');
    } else if c == '\\' {
        text.push('\\');
        text.push('\\');
    } else if c == '\n' {
        text.push('\\');
        text.push('n');
    } else if c == '\r' {
        text.push('\\');
        text.push('r');
    } else if c == '\t' {
        text.push('\\');
        text.push('t');
    } else if c == '\u{8}' {
        text.push('\\');
        text.push('b');
    } else if c == '\u{c}' {
        text.push('\\');
        text.push('f');
    } else if (c as u32) < 32 {
        let code: u8 = c as u8;
        text.push('\\');
        text.push('u');
        text.push('0');
        text.push('0');
        text.push(hex_digit_of(code / 16));
        text.push(hex_digit_of(code % 16));
    } else {
        text.push(c);
    }
}

/// Writes a text as a JSON string writes it, without the quotes around it.
pub fn encode_json_string(text: &str) -> (encoded: String)
    ensures
        encoded@ == escaped(text@),
{
    let chars = chars_of(text);
    let mut encoded = String::new();
    let mut i: usize = 0;
    while i < chars.len()
        invariant
            i <= chars.len(),
            chars@ == text@,
            encoded@ == escaped(chars@.take(i as int)),
        decreases chars.len() - i,
    {
        assert(chars@.take(i as int + 1).drop_last() =~= chars@.take(i as int));
        push_escaped_char(&mut encoded, chars[i]);
        i = i + 1;
    }
    assert(chars@.take(i as int) =~= text@);
    encoded
}

/// Evaluates the template of a JSON string to the text between its quotes.
fn eval_json_template(template: &Template, variables: &Variables, escape: bool) -> (result: Result<
    String,
    EntryError,
>)
    ensures
        text_result_view(result) == json_string_text(
            template.elements@,
            template.elements@.len(),
            variables@,
            escape,
        ),
{
    let mut text = String::new();
    let mut i: usize = 0;
    while i < template.elements.len()
        invariant
            i <= template.elements.len(),
            json_string_text(template.elements@, i as nat, variables@, escape) == Ok::<
                Seq<char>,
                EntryErrorView,
            >(text@),
        decreases template.elements.len() - i,
    {
        proof {
            lemma_json_string_text_error(template.elements@, (i + 1) as nat, variables@, escape);
        }
        match &template.elements[i] {
            TemplateElement::String { encoded, .. } => text.append(encoded.as_str()),
            TemplateElement::Expression(expr) => {
                let value = eval_expression(expr, variables)?;
                if escape {
                    let encoded = encode_json_string(value.as_str());
                    text.append(encoded.as_str());
                } else {
                    text.append(value.as_str());
                }
            },
        }
        i = i + 1;
    }
    Ok(text)
}

/// Evaluates a JSON string: its text, between two quotes.
fn eval_json_quoted(template: &Template, variables: &Variables, escape: bool) -> (result: Result<
    String,
    EntryError,
>)
    ensures
        text_result_view(result) == json_quoted(*template, variables@, escape),
{
    let text = eval_json_template(template, variables, escape)?;
    let mut quoted = String::new();
    quoted.push('"');
    quoted.append(text.as_str());
    quoted.push('"');
    assert(quoted@ =~= seq!['"'] + text@ + seq!['"']);
    Ok(quoted)
}

/// Evaluates a JSON literal to its text. With `escape` set, the text that an expression
/// brings into a string is escaped as a JSON string asks; without it, the text is put in
/// as it is.
pub fn eval_json_value(value: &JsonValue, variables: &Variables, escape: bool) -> (result: Result<
    String,
    EntryError,
>)
    ensures
        text_result_view(result) == json_text(*value, variables@, escape),
    decreases value,
{
    match value {
        JsonValue::Null => Ok(String::from_str("null")),
        JsonValue::Number(number) => Ok(number.clone()),
        JsonValue::Boolean(b) => if *b {
            Ok(String::from_str("true"))
        } else {
            Ok(String::from_str("false"))
        },
        JsonValue::String(template) => eval_json_quoted(template, variables, escape),
        JsonValue::Expression(expr) => eval_expression(expr, variables),
        JsonValue::List { space0, elements } => {
            let mut inner = String::new();
            let mut i: usize = 0;
            while i < elements.len()
                invariant
                    i <= elements.len(),
                    *value == (JsonValue::List { space0: *space0, elements: *elements }),
                    json_list_text(elements@, i as nat, variables@, escape) == Ok::<
                        Seq<char>,
                        EntryErrorView,
                    >(inner@),
                decreases elements.len() - i,
            {
                proof {
                    lemma_json_list_text_error(elements@, (i + 1) as nat, variables@, escape);
                }
                let element = &elements[i];
                let text = eval_json_value(&element.value, variables, escape)?;
                let ghost before = inner@;
                if i > 0 {
                    inner.push(',');
                }
                inner.append(element.space0.as_str());
                inner.append(text.as_str());
                inner.append(element.space1.as_str());
                assert(inner@ =~= before + separator((i + 1) as nat) + element.space0@ + text@
                    + element.space1@);
                i = i + 1;
            }
            let mut text = String::new();
            text.push('[');
            text.append(space0.as_str());
            text.append(inner.as_str());
            text.push(']');
            assert(text@ =~= seq!['['] + space0@ + inner@ + seq![']']);
            Ok(text)
        },
        JsonValue::Object { space0, elements } => {
            let mut inner = String::new();
            let mut i: usize = 0;
            while i < elements.len()
                invariant
                    i <= elements.len(),
                    *value == (JsonValue::Object { space0: *space0, elements: *elements }),
                    json_object_text(elements@, i as nat, variables@, escape) == Ok::<
                        Seq<char>,
                        EntryErrorView,
                    >(inner@),
                decreases elements.len() - i,
            {
                proof {
                    lemma_json_object_text_error(elements@, (i + 1) as nat, variables@, escape);
                }
                let element = &elements[i];
                let name = eval_json_quoted(&element.name, variables, escape)?;
                let text = eval_json_value(&element.value, variables, escape)?;
                let ghost before = inner@;
                if i > 0 {
                    inner.push(',');
                }
                inner.append(element.space0.as_str());
                inner.append(name.as_str());
                inner.append(element.space1.as_str());
                inner.push(':');
                inner.append(element.space2.as_str());
                inner.append(text.as_str());
                inner.append(element.space3.as_str());
                assert(inner@ =~= before + separator((i + 1) as nat) + element.space0@ + name@
                    + element.space1@ + seq![':'] + element.space2@ + text@ + element.space3@);
                i = i + 1;
            }
            let mut text = String::new();
            text.push('{');
            text.append(space0.as_str());
            text.append(inner.as_str());
            text.push('}');
            assert(text@ =~= seq!['{'] + space0@ + inner@ + seq!['}']);
            Ok(text)
        },
    }
}

/// The escaped form of two texts one after the other is the escaped form of the first,
/// then that of the second.
pub proof fn lemma_escaped_of_two(first: Seq<char>, second: Seq<char>)
    ensures
        escaped(first + second) == escaped(first) + escaped(second),
    decreases second.len(),
{
    if second.len() == 0 {
        assert(first + second =~= first);
        assert(escaped(first) + escaped(second) =~= escaped(first));
    } else {
        lemma_escaped_of_two(first, second.drop_last());
        assert((first + second).drop_last() =~= first + second.drop_last());
        assert(escaped(first + second) =~= escaped(first) + escaped(second));
    }
}

/// What one character is escaped to is read back as that character.
pub proof fn lemma_unescaped_char(c: char, rest: Seq<char>)
    ensures
        unescaped(escaped_char(c) + rest) == match unescaped(rest) {
            Some(text) => Some(seq![c] + text),
            None => None,
        },
{
    let whole = escaped_char(c) + rest;
    if c == '"' || c == '\\' || c == '\n' || c == '\r' || c == '\t' || c == '\u{8}' || c
        == '\u{c}' {
        assert(whole.skip(2) =~= rest);
    } else if (c as u32) < 32 {
        let code = c as u32 as int;
        assert(whole.skip(6) =~= rest);
        assert(hex_value(hex_digit(code / 16)) == Some(code / 16));
        assert(hex_value(hex_digit(code % 16)) == Some(code % 16));
        assert(whole[4] == hex_digit(code / 16));
        assert(whole[5] == hex_digit(code % 16));
        assert(((code as u8) as char) == c);
    } else {
        assert(whole.skip(1) =~= rest);
    }
}

/// Escaping loses nothing and lets nothing out: an escaped text holds no bare quote and no
/// bare control character, and read back it is the text that was escaped.
pub proof fn lemma_escaped_reads_back(text: Seq<char>)
    ensures
        unescaped(escaped(text)) == Some(text),
    decreases text.len(),
{
    if text.len() > 0 {
        let first = seq![text[0]];
        let rest = text.skip(1);
        assert(text =~= first + rest);
        lemma_escaped_of_two(first, rest);
        assert(first.drop_last() =~= Seq::<char>::empty());
        assert(escaped(first.drop_last()) =~= Seq::<char>::empty());
        assert(escaped(first) =~= escaped_char(text[0]));
        lemma_escaped_reads_back(rest);
        lemma_unescaped_char(text[0], escaped(rest));
    }
}

} // verus!
