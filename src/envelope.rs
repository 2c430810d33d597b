use vstd::prelude::*;

verus! {

/// The category of a failed invocation.
#[derive(Clone, Copy, Debug, PartialEq, Eq)]
pub enum ErrorKind {
    /// No tool of the requested name is registered.
    ToolNotFound,
    /// The parameters do not match the tool's parameter schema.
    InvalidParameters,
    /// The tool ran and its operation failed.
    InternalError,
}

/// A categorised failure with a human-readable message.
#[derive(Clone, Debug, PartialEq, Eq)]
pub struct ToolError {
    pub kind: ErrorKind,
    pub message: String,
}

/// One unit of a result payload.
#[derive(Clone, Debug, PartialEq, Eq)]
pub enum Content {
    Text(String),
}

/// The result of a successful invocation.
#[derive(Clone, Debug, PartialEq, Eq)]
pub struct ToolOutput {
    pub success: bool,
    pub content: Vec<Content>,
}

impl Content {
    pub open spec fn text_view(self) -> Seq<char> {
        match self {
            Content::Text(s) => s@,
        }
    }
}

/// The message of an internal error: `Failed to <verb>: <cause>`.
pub open spec fn failure_text(verb: Seq<char>, cause: Seq<char>) -> Seq<char> {
    "Failed to "@ + verb + ": "@ + cause
}

/// A success envelope holding exactly one text item, `t`.
pub open spec fn is_text_output(out: ToolOutput, t: Seq<char>) -> bool {
    &&& out.success
    &&& out.content@.len() == 1
    &&& out.content@[0].text_view() == t
}

/// An internal error for the operation `verb`, caused by `cause`.
pub open spec fn is_internal_error(e: ToolError, verb: Seq<char>, cause: Seq<char>) -> bool {
    &&& e.kind == ErrorKind::InternalError
    &&& e.message@ == failure_text(verb, cause)
}

/// The outcome of an operation that either yields the text `t` or fails with
/// `cause`.
pub open spec fn is_outcome<T>(
    r: Result<ToolOutput, ToolError>,
    step: Result<T, String>,
    t: Seq<char>,
    verb: Seq<char>,
) -> bool {
    match step {
        Ok(_) => r is Ok && is_text_output(r->Ok_0, t),
        Err(cause) => r is Err && is_internal_error(r->Err_0, verb, cause@),
    }
}

/// Builds a success envelope around one text item.
pub fn text_output(t: String) -> (out: ToolOutput)
    ensures
        is_text_output(out, t@),
{
    let mut content: Vec<Content> = Vec::new();
    content.push(Content::Text(t));
    ToolOutput { success: true, content }
}

/// Builds the internal error `Failed to <verb>: <cause>`.
pub fn internal_error(verb: &str, cause: &str) -> (e: ToolError)
    ensures
        is_internal_error(e, verb@, cause@),
{
    let mut message = String::from_str("Failed to ");
    message.append(verb);
    message.append(": ");
    message.append(cause);
    ToolError { kind: ErrorKind::InternalError, message }
}

/// Concatenates a fixed prefix and a value.
pub fn prefixed(prefix: &str, value: &str) -> (s: String)
    ensures
        s@ == prefix@ + value@,
{
    let mut s = String::from_str(prefix);
    s.append(value);
    s
}

} // verus!
