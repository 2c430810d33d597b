use vstd::prelude::*;

use crate::envelope::{internal_error, is_outcome, text_output, ToolError, ToolOutput};
use crate::router::{describes, unary_tool, ToolDescriptor, ToolKind};

verus! {

/// The tools of the fetch group: `fetch`, which retrieves a URL.
pub fn tool_list() -> (r: Vec<ToolDescriptor>)
    ensures
        r@.len() == 1,
        describes(r@[0], "fetch"@, ToolKind::Fetch, seq!["url"@]),
{
    let mut r: Vec<ToolDescriptor> = Vec::new();
    r.push(
        unary_tool(
            "fetch",
            "Fetch the content at the specified URL as text",
            "url",
            ToolKind::Fetch,
        ),
    );
    r
}

/// The outcome of `fetch`, given the body of the response (or the error met
/// sending the request or reading its body). The body is passed through
/// whatever the response's status.
pub fn fetch_outcome(fetched: Result<String, String>) -> (r: Result<ToolOutput, ToolError>)
    ensures
        is_outcome(
            r,
            fetched,
            match fetched {
                Ok(body) => body@,
                Err(_) => Seq::empty(),
            },
            "fetch"@,
        ),
{
    match fetched {
        Ok(body) => Ok(text_output(body)),
        Err(cause) => Err(internal_error("fetch", cause.as_str())),
    }
}

} // verus!
