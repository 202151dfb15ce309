use vstd::prelude::*;
use crate::ast::{Body, Bytes, Filename};
use crate::error::{EntryError, EntryErrorView, RunnerError, RunnerErrorView};
use crate::http;
use crate::http::BodyView;
use crate::json::{eval_json_value, json_text};
use crate::multiline::{eval_multiline, multiline_text};
use crate::path::ContextDir;
use crate::template::{eval_template, template_text};
use crate::value::ValueView;
use crate::variables::Variables;

verus! {

/// The error for a file literal that names a file outside the file root. It carries the
/// name as the source wrote it, not the path that the name stands for.
pub open spec fn unauthorized(filename: Filename) -> EntryErrorView {
    EntryErrorView {
        source_info: filename.source_info,
        inner: RunnerErrorView::UnauthorizedFileAccess { path: filename.value@ },
        assert: false,
    }
}

/// The error for a file inside the file root that could not be read. It says which file,
/// and not why.
pub open spec fn unreadable(filename: Filename) -> EntryErrorView {
    EntryErrorView {
        source_info: filename.source_info,
        inner: RunnerErrorView::FileReadAccess { file: filename.value@ },
        assert: false,
    }
}

/// What was read, as a sequence of bytes.
pub open spec fn read_view(read: Option<Vec<u8>>) -> Option<Seq<u8>> {
    match read {
        Some(bytes) => Some(bytes@),
        None => None,
    }
}

/// What a file literal evaluates to, given what reading its file gave: nothing is taken
/// from a file outside the file root, whatever was read.
pub open spec fn file_content(
    filename: Filename,
    context_dir: ContextDir,
    read: Option<Seq<u8>>,
) -> Result<Seq<u8>, EntryErrorView> {
    if !context_dir.allows(filename.value@) {
        Err(unauthorized(filename))
    } else {
        match read {
            Some(bytes) => Ok(bytes),
            None => Err(unreadable(filename)),
        }
    }
}

/// What a result that holds bytes is.
pub open spec fn bytes_result_view(result: Result<Vec<u8>, EntryError>) -> Result<Seq<u8>, EntryErrorView> {
    match result {
        Ok(bytes) => Ok(bytes@),
        Err(error) => Err(error@),
    }
}

/// What a result that holds a body is.
pub open spec fn body_result_view(result: Result<http::Body, EntryError>) -> Result<
    BodyView,
    EntryErrorView,
> {
    match result {
        Ok(body) => Ok(body@),
        Err(error) => Err(error@),
    }
}

/// The body that a literal evaluates to.
pub open spec fn bytes_value(
    bytes: Bytes,
    env: Map<Seq<char>, ValueView>,
    context_dir: ContextDir,
    read: Option<Seq<u8>>,
) -> Result<BodyView, EntryErrorView> {
    match bytes {
        Bytes::OnelineString(template) => match template_text(template, env) {
            Ok(text) => Ok(BodyView::Text(text)),
            Err(error) => Err(error),
        },
        Bytes::MultilineString(multiline) => match multiline_text(multiline, env) {
            Ok(text) => Ok(BodyView::Text(text)),
            Err(error) => Err(error),
        },
        Bytes::Xml(text) => Ok(BodyView::Text(text@)),
        Bytes::Json(value) => match json_text(value, env, true) {
            Ok(text) => Ok(BodyView::Text(text)),
            Err(error) => Err(error),
        },
        Bytes::Base64(base64) => Ok(BodyView::Binary(base64.value@)),
        Bytes::Hex(hex) => Ok(BodyView::Binary(hex.value@)),
        Bytes::File(file) => match file_content(file.filename, context_dir, read) {
            Ok(content) => Ok(BodyView::File(content, file.filename.value@)),
            Err(error) => Err(error),
        },
    }
}

/// The path to read a file literal from: `None` where the file lies outside the file
/// root, so that nothing is read for it.
pub fn file_to_read(filename: &Filename, context_dir: &ContextDir) -> (path: Option<String>)
    ensures
        path is Some <==> context_dir.allows(filename.value@),
        path is Some ==> path->0@ == context_dir.resolved(filename.value@),
{
    if context_dir.is_access_allowed(filename.value.as_str()) {
        Some(context_dir.get_path(filename.value.as_str()))
    } else {
        None
    }
}

/// Evaluates a body. `read` is what reading the file of `file_to_read` gave, `None` where
/// that failed or where there was nothing to read.
pub fn eval_body(
    body: &Body,
    variables: &Variables,
    context_dir: &ContextDir,
    read: Option<Vec<u8>>,
) -> (result: Result<http::Body, EntryError>)
    ensures
        body_result_view(result) == bytes_value(
            body.value,
            variables@,
            *context_dir,
            read_view(read),
        ),
{
    eval_bytes(&body.value, variables, context_dir, read)
}

/// Evaluates a body literal. `read` is what reading the file of `file_to_read` gave,
/// `None` where that failed or where there was nothing to read; only a file literal
/// looks at it.
pub fn eval_bytes(
    bytes: &Bytes,
    variables: &Variables,
    context_dir: &ContextDir,
    read: Option<Vec<u8>>,
) -> (result: Result<http::Body, EntryError>)
    ensures
        body_result_view(result) == bytes_value(*bytes, variables@, *context_dir, read_view(read)),
{
    match bytes {
        Bytes::OnelineString(value) => {
            let value = eval_template(value, variables)?;
            Ok(http::Body::Text(value))
        },
        Bytes::MultilineString(value) => {
            let value = eval_multiline(value, variables)?;
            Ok(http::Body::Text(value))
        },
        Bytes::Xml(value) => Ok(http::Body::Text(value.clone())),
        Bytes::Json(value) => {
            let value = eval_json_value(value, variables, true)?;
            Ok(http::Body::Text(value))
        },
        Bytes::Base64(base64) => Ok(http::Body::Binary(base64.value.clone())),
        Bytes::Hex(hex) => Ok(http::Body::Binary(hex.value.clone())),
        Bytes::File(file) => {
            let value = eval_file(&file.filename, context_dir, read)?;
            Ok(http::Body::File(value, file.filename.value.clone()))
        },
    }
}

/// Evaluates a file literal. A file outside the file root is refused before anything
/// else is looked at; a file inside it gives the bytes that were read, or the error that
/// it could not be read.
pub fn eval_file(filename: &Filename, context_dir: &ContextDir, read: Option<Vec<u8>>) -> (result:
    Result<Vec<u8>, EntryError>)
    ensures
        bytes_result_view(result) == file_content(*filename, *context_dir, read_view(read)),
{
    if !context_dir.is_access_allowed(filename.value.as_str()) {
        let inner = RunnerError::UnauthorizedFileAccess { path: filename.value.clone() };
        return Err(EntryError::new(filename.source_info, inner, false));
    }
    match read {
        Some(value) => Ok(value),
        None => {
            let inner = RunnerError::FileReadAccess { file: filename.value.clone() };
            Err(EntryError::new(filename.source_info, inner, false))
        },
    }
}

} // verus!
