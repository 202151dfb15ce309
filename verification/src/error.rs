use vstd::prelude::*;
use crate::ast::SourceInfo;

verus! {

/// What went wrong while an entry was evaluated or run.
#[derive(Clone, Debug, PartialEq, Eq)]
pub enum RunnerError {
    /// A template or an expression names a variable that the environment does not hold.
    TemplateVariableNotDefined { name: String },
    /// A template names a variable whose value cannot stand in a text.
    TemplateVariableInvalidType { name: String, expected: String },
    /// A file literal names a file outside the file root.
    UnauthorizedFileAccess { path: String },
    /// A file inside the file root could not be read.
    FileReadAccess { file: String },
    /// The response did not meet an assertion.
    AssertionFailure,
    /// The transport could not carry out the request; it says itself whether trying again
    /// can help.
    TransportFailure { retryable: bool },
}

/// An error, with the place in the source that it is about.
#[derive(Clone, Debug, PartialEq, Eq)]
pub struct EntryError {
    pub source_info: SourceInfo,
    pub inner: RunnerError,
    pub assert: bool,
}

/// What a `RunnerError` is.
pub enum RunnerErrorView {
    TemplateVariableNotDefined { name: Seq<char> },
    TemplateVariableInvalidType { name: Seq<char>, expected: Seq<char> },
    UnauthorizedFileAccess { path: Seq<char> },
    FileReadAccess { file: Seq<char> },
    AssertionFailure,
    TransportFailure { retryable: bool },
}

/// What an `EntryError` is.
pub struct EntryErrorView {
    pub source_info: SourceInfo,
    pub inner: RunnerErrorView,
    pub assert: bool,
}

impl View for RunnerError {
    type V = RunnerErrorView;

    open spec fn view(&self) -> RunnerErrorView {
        match *self {
            RunnerError::TemplateVariableNotDefined { name } => {
                RunnerErrorView::TemplateVariableNotDefined { name: name@ }
            },
            RunnerError::TemplateVariableInvalidType { name, expected } => {
                RunnerErrorView::TemplateVariableInvalidType { name: name@, expected: expected@ }
            },
            RunnerError::UnauthorizedFileAccess { path } => {
                RunnerErrorView::UnauthorizedFileAccess { path: path@ }
            },
            RunnerError::FileReadAccess { file } => RunnerErrorView::FileReadAccess { file: file@ },
            RunnerError::AssertionFailure => RunnerErrorView::AssertionFailure,
            RunnerError::TransportFailure { retryable } => {
                RunnerErrorView::TransportFailure { retryable }
            },
        }
    }
}

impl View for EntryError {
    type V = EntryErrorView;

    open spec fn view(&self) -> EntryErrorView {
        EntryErrorView { source_info: self.source_info, inner: self.inner@, assert: self.assert }
    }
}

impl RunnerErrorView {
    /// Whether running the entry again can make this failure go away: only a failed
    /// assertion, and a transport failure that the transport marked so.
    pub open spec fn is_retryable(self) -> bool {
        match self {
            RunnerErrorView::AssertionFailure => true,
            RunnerErrorView::TransportFailure { retryable } => retryable,
            _ => false,
        }
    }
}

impl RunnerError {
    /// Whether running the entry again can make this failure go away.
    pub fn is_retryable(&self) -> (b: bool)
        ensures
            b == self@.is_retryable(),
    {
        match self {
            RunnerError::AssertionFailure => true,
            RunnerError::TransportFailure { retryable } => *retryable,
            _ => false,
        }
    }
}

impl EntryError {
    pub fn new(source_info: SourceInfo, inner: RunnerError, assert: bool) -> (error: EntryError)
        ensures
            error == (EntryError { source_info, inner, assert }),
    {
        EntryError { source_info, inner, assert }
    }
}

} // verus!
