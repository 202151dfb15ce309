use vstd::prelude::*;
use vstd::string::StringExecFns;
use crate::ast::{Expr, Template, TemplateElement};
use crate::error::{EntryError, EntryErrorView, RunnerError, RunnerErrorView};
use crate::expr::{eval_expr, expr_value};
use crate::value::ValueView;
use crate::variables::Variables;

verus! {

/// The error for an expression in a template whose variable holds a value that cannot
/// stand in a text.
pub open spec fn invalid_type(expr: Expr) -> EntryErrorView {
    EntryErrorView {
        source_info: expr.variable.source_info,
        inner: RunnerErrorView::TemplateVariableInvalidType {
            name: expr.variable.name@,
            expected: "text"@,
        },
        assert: false,
    }
}

/// The text that an expression stands for in a template.
pub open spec fn expr_text(expr: Expr, env: Map<Seq<char>, ValueView>) -> Result<
    Seq<char>,
    EntryErrorView,
> {
    match expr_value(expr, env) {
        Err(error) => Err(error),
        Ok(value) => if value.is_renderable() {
            Ok(value.text())
        } else {
            Err(invalid_type(expr))
        },
    }
}

/// The text that one fragment of a template stands for.
pub open spec fn element_text(element: TemplateElement, env: Map<Seq<char>, ValueView>) -> Result<
    Seq<char>,
    EntryErrorView,
> {
    match element {
        TemplateElement::String { value, .. } => Ok(value@),
        TemplateElement::Expression(expr) => expr_text(expr, env),
    }
}

/// The text that a run of fragments stands for: the texts of the fragments one after
/// another, or the error of the first fragment that has one.
pub open spec fn elements_text(
    elements: Seq<TemplateElement>,
    env: Map<Seq<char>, ValueView>,
) -> Result<Seq<char>, EntryErrorView>
    decreases elements.len(),
{
    if elements.len() == 0 {
        Ok(Seq::empty())
    } else {
        match elements_text(elements.drop_last(), env) {
            Err(error) => Err(error),
            Ok(text) => match element_text(elements.last(), env) {
                Err(error) => Err(error),
                Ok(last) => Ok(text + last),
            },
        }
    }
}

/// The text that a template stands for.
pub open spec fn template_text(template: Template, env: Map<Seq<char>, ValueView>) -> Result<
    Seq<char>,
    EntryErrorView,
> {
    elements_text(template.elements@, env)
}

/// What a result that holds a text is.
pub open spec fn text_result_view(result: Result<String, EntryError>) -> Result<Seq<char>, EntryErrorView> {
    match result {
        Ok(text) => Ok(text@),
        Err(error) => Err(error@),
    }
}

/// Whether every variable that the fragments name is set, and to a value that can stand
/// in a text.
pub open spec fn names_texts(elements: Seq<TemplateElement>, env: Map<Seq<char>, ValueView>) -> bool {
    forall|i: int|
        0 <= i < elements.len() ==> (#[trigger] elements[i] matches TemplateElement::Expression(expr)
            ==> env.contains_key(expr.variable.name@) && env[expr.variable.name@].is_renderable())
}

/// Evaluates an expression to the text that it stands for in a template.
pub fn eval_expression(expr: &Expr, variables: &Variables) -> (result: Result<String, EntryError>)
    ensures
        text_result_view(result) == expr_text(*expr, variables@),
{
    let value = eval_expr(expr, variables)?;
    match value.render() {
        Some(text) => Ok(text),
        None => {
            let inner = RunnerError::TemplateVariableInvalidType {
                name: expr.variable.name.clone(),
                expected: String::from_str("text"),
            };
            Err(EntryError::new(expr.variable.source_info, inner, false))
        },
    }
}

/// Evaluates one fragment of a template.
pub fn eval_template_element(element: &TemplateElement, variables: &Variables) -> (result: Result<
    String,
    EntryError,
>)
    ensures
        text_result_view(result) == element_text(*element, variables@),
{
    match element {
        TemplateElement::String { value, .. } => Ok(value.clone()),
        TemplateElement::Expression(expr) => eval_expression(expr, variables),
    }
}

/// Evaluates a template: every expression gives way to the text of its variable. The
/// fragments are taken from left to right, and the first error ends the evaluation.
pub fn eval_template(template: &Template, variables: &Variables) -> (result: Result<String, EntryError>)
    ensures
        text_result_view(result) == template_text(*template, variables@),
{
    let mut text = String::new();
    let mut i: usize = 0;
    while i < template.elements.len()
        invariant
            i <= template.elements.len(),
            elements_text(template.elements@.take(i as int), variables@) == Ok::<
                Seq<char>,
                EntryErrorView,
            >(text@),
        decreases template.elements.len() - i,
    {
        proof {
            lemma_elements_text_prefix(template.elements@, variables@, i as int + 1);
            assert(template.elements@.take(i as int + 1).drop_last() =~= template.elements@.take(
                i as int,
            ));
        }
        match eval_template_element(&template.elements[i], variables) {
            Ok(part) => text.append(part.as_str()),
            Err(error) => return Err(error),
        }
        i = i + 1;
    }
    assert(template.elements@.take(i as int) =~= template.elements@);
    Ok(text)
}

/// An error among the first fragments of a template is the error of the whole.
pub proof fn lemma_elements_text_prefix(
    elements: Seq<TemplateElement>,
    env: Map<Seq<char>, ValueView>,
    n: int,
)
    requires
        0 <= n <= elements.len(),
    ensures
        elements_text(elements.take(n), env) matches Err(error) ==> elements_text(elements, env)
            == Err::<Seq<char>, EntryErrorView>(error),
    decreases elements.len() - n,
{
    if n < elements.len() {
        lemma_elements_text_prefix(elements, env, n + 1);
        assert(elements.take(n + 1).drop_last() =~= elements.take(n));
    } else {
        assert(elements.take(n) =~= elements);
    }
}

/// A template evaluates to a text, and to no error, where every variable that it names is
/// set to a value that can stand in a text.
pub proof fn lemma_template_of_texts_succeeds(template: Template, env: Map<Seq<char>, ValueView>)
    requires
        names_texts(template.elements@, env),
    ensures
        template_text(template, env) is Ok,
{
    lemma_elements_of_texts_succeed(template.elements@, env);
}

proof fn lemma_elements_of_texts_succeed(
    elements: Seq<TemplateElement>,
    env: Map<Seq<char>, ValueView>,
)
    requires
        names_texts(elements, env),
    ensures
        elements_text(elements, env) is Ok,
    decreases elements.len(),
{
    if elements.len() > 0 {
        assert(names_texts(elements.drop_last(), env));
        lemma_elements_of_texts_succeed(elements.drop_last(), env);
    }
}

/// Evaluation is a function of the template and of what the environment holds: two
/// environments that hold the same give the same text, and so do two evaluations in one
/// environment.
pub proof fn lemma_template_deterministic(
    template: Template,
    first: Map<Seq<char>, ValueView>,
    second: Map<Seq<char>, ValueView>,
)
    requires
        first =~= second,
        names_texts(template.elements@, first),
    ensures
        template_text(template, first) is Ok,
        template_text(template, first) == template_text(template, second),
{
    lemma_template_of_texts_succeeds(template, first);
}

} // verus!
