use vstd::prelude::*;
use crate::ast::{Indentation, LineEnding, MultilineString, TemplateElement};
use crate::error::{EntryError, EntryErrorView};
use crate::template::{eval_expression, expr_text, text_result_view};
use crate::text::{chars_of, string_of};
use crate::value::ValueView;
use crate::variables::Variables;

verus! {

/// A text in the making: what is written so far, and how many more leading spaces and
/// tabs may leave the line that is being written.
pub struct Stripped {
    pub text: Seq<char>,
    pub left: nat,
}

/// How many leading spaces and tabs leave each line.
pub open spec fn strip_width(indentation: Indentation) -> nat {
    match indentation {
        Indentation::Keep => 0,
        Indentation::Strip(width) => width as nat,
    }
}

/// Takes one character of a literal fragment: a line feed is written and opens a new line,
/// a space or a tab at the start of a line leaves while any may leave, every other
/// character is written and ends the start of its line.
pub open spec fn strip_char(state: Stripped, c: char, width: nat) -> Stripped {
    if c == '\n' {
        Stripped { text: state.text.push(c), left: width }
    } else if state.left > 0 && (c == ' ' || c == '\t') {
        Stripped { text: state.text, left: (state.left - 1) as nat }
    } else {
        Stripped { text: state.text.push(c), left: 0 }
    }
}

/// Takes a literal fragment, character by character.
pub open spec fn strip_text(state: Stripped, text: Seq<char>, width: nat) -> Stripped
    decreases text.len(),
{
    if text.len() == 0 {
        state
    } else {
        strip_char(strip_text(state, text.drop_last(), width), text.last(), width)
    }
}

/// The text of the first `n` fragments of a block, before its line endings are set: the
/// indentation leaves the literal fragments, and then each expression gives way to the
/// text of its variable, which is written as it is.
pub open spec fn stripped_text(
    elements: Seq<TemplateElement>,
    n: nat,
    env: Map<Seq<char>, ValueView>,
    width: nat,
) -> Result<Stripped, EntryErrorView>
    decreases n,
{
    if n == 0 {
        Ok(Stripped { text: Seq::empty(), left: width })
    } else {
        match stripped_text(elements, (n - 1) as nat, env, width) {
            Err(error) => Err(error),
            Ok(state) => match elements[n - 1] {
                TemplateElement::String { value, .. } => Ok(strip_text(state, value@, width)),
                TemplateElement::Expression(expr) => match expr_text(expr, env) {
                    Err(error) => Err(error),
                    Ok(text) => Ok(Stripped { text: state.text + text, left: 0 }),
                },
            },
        }
    }
}

/// The characters that end a line.
pub open spec fn line_end(ending: LineEnding) -> Seq<char> {
    match ending {
        LineEnding::Lf => seq!['\n'],
        LineEnding::CrLf => seq!['\r', '\n'],
    }
}

/// `text` with each of its line endings, a line feed alone or after a carriage return,
/// written as `ending` asks. A carriage return that no line feed follows stays.
pub open spec fn with_line_ending(text: Seq<char>, ending: LineEnding) -> Seq<char>
    decreases text.len(),
{
    if text.len() == 0 {
        Seq::empty()
    } else {
        let before = with_line_ending(text.drop_last(), ending);
        if text.last() != '\n' {
            before.push(text.last())
        } else if text.len() >= 2 && text[text.len() - 2] == '\r' {
            before.drop_last() + line_end(ending)
        } else {
            before + line_end(ending)
        }
    }
}

/// The text of a multiline block.
pub open spec fn multiline_text(multiline: MultilineString, env: Map<Seq<char>, ValueView>) -> Result<
    Seq<char>,
    EntryErrorView,
> {
    match stripped_text(
        multiline.value.elements@,
        multiline.value.elements@.len(),
        env,
        strip_width(multiline.indentation),
    ) {
        Err(error) => Err(error),
        Ok(state) => Ok(with_line_ending(state.text, multiline.line_ending)),
    }
}

/// An error among the first fragments of a block is the error of the whole.
pub proof fn lemma_stripped_text_error(
    elements: Seq<TemplateElement>,
    n: nat,
    env: Map<Seq<char>, ValueView>,
    width: nat,
)
    requires
        n <= elements.len(),
    ensures
        stripped_text(elements, n, env, width) matches Err(error) ==> stripped_text(
            elements,
            elements.len(),
            env,
            width,
        ) == Err::<Stripped, EntryErrorView>(error),
    decreases elements.len() - n,
{
    if n < elements.len() {
        lemma_stripped_text_error(elements, n + 1, env, width);
    }
}

/// Takes a literal fragment: writes to `out` what stays of it, and gives back how many
/// leading spaces and tabs may still leave the line it ends in.
fn strip_into(out: &mut Vec<char>, left: usize, text: &str, width: usize) -> (after: usize)
    requires
        left <= width,
    ensures
        after <= width,
        (Stripped { text: final(out)@, left: after as nat }) == strip_text(
            Stripped { text: old(out)@, left: left as nat },
            text@,
            width as nat,
        ),
{
    let chars = chars_of(text);
    let mut left = left;
    let ghost start = Stripped { text: out@, left: left as nat };
    let mut i: usize = 0;
    while i < chars.len()
        invariant
            i <= chars.len(),
            chars@ == text@,
            left <= width,
            (Stripped { text: out@, left: left as nat }) == strip_text(
                start,
                chars@.take(i as int),
                width as nat,
            ),
        decreases chars.len() - i,
    {
        assert(chars@.take(i as int + 1).drop_last() =~= chars@.take(i as int));
        let c = chars[i];
        if c == '\n' {
            out.push(c);
            left = width;
        } else if left > 0 && (c == ' ' || c == '\t') {
            left = left - 1;
        } else {
            out.push(c);
            left = 0;
        }
        i = i + 1;
    }
    assert(chars@.take(i as int) =~= text@);
    left
}

fn push_all(out: &mut Vec<char>, text: &str)
    ensures
        final(out)@ == old(out)@ + text@,
{
    let mut chars = chars_of(text);
    out.append(&mut chars);
}

/// Writes each line ending of `text` as `ending` asks.
fn set_line_ending(text: &Vec<char>, ending: LineEnding) -> (out: Vec<char>)
    ensures
        out@ == with_line_ending(text@, ending),
{
    let mut out: Vec<char> = Vec::new();
    let mut i: usize = 0;
    while i < text.len()
        invariant
            i <= text.len(),
            out@ == with_line_ending(text@.take(i as int), ending),
        decreases text.len() - i,
    {
        let ghost before = text@.take(i as int);
        let ghost after = text@.take(i as int + 1);
        assert(after.drop_last() =~= before);
        let c = text[i];
        if c != '\n' {
            out.push(c);
        } else {
            if i > 0 && text[i - 1] == '\r' {
                out.pop();
            }
            match ending {
                LineEnding::Lf => {
                    out.push('\n');
                },
                LineEnding::CrLf => {
                    out.push('\r');
                    out.push('\n');
                },
            }
        }
        i = i + 1;
    }
    assert(text@.take(i as int) =~= text@);
    out
}

/// Evaluates a multiline block: the indentation that the block declares leaves its
/// lines, the expressions give way to the texts of their variables, and the line endings
/// are written as the block declares.
pub fn eval_multiline(multiline: &MultilineString, variables: &Variables) -> (result: Result<
    String,
    EntryError,
>)
    ensures
        text_result_view(result) == multiline_text(*multiline, variables@),
{
    let width: usize = match multiline.indentation {
        Indentation::Keep => 0,
        Indentation::Strip(width) => width,
    };
    let elements = &multiline.value.elements;
    let mut out: Vec<char> = Vec::new();
    let mut left: usize = width;
    let mut i: usize = 0;
    while i < elements.len()
        invariant
            i <= elements.len(),
            left <= width,
            width as nat == strip_width(multiline.indentation),
            elements == &multiline.value.elements,
            stripped_text(elements@, i as nat, variables@, width as nat) == Ok::<
                Stripped,
                EntryErrorView,
            >(Stripped { text: out@, left: left as nat }),
        decreases elements.len() - i,
    {
        proof {
            lemma_stripped_text_error(elements@, (i + 1) as nat, variables@, width as nat);
        }
        match &elements[i] {
            TemplateElement::String { value, .. } => {
                left = strip_into(&mut out, left, value.as_str(), width);
            },
            TemplateElement::Expression(expr) => {
                let text = eval_expression(expr, variables)?;
                push_all(&mut out, text.as_str());
                left = 0;
            },
        }
        i = i + 1;
    }
    let text = set_line_ending(&out, multiline.line_ending);
    Ok(string_of(&text))
}

} // verus!
