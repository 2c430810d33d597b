use vstd::prelude::*;

use crate::envelope::ToolError;
use crate::router::{
    describes, has_tool, names_disjoint, Field, Invocation, ToolDescriptor, ToolKind, ToolRegistry,
};

verus! {

#[verifier::external_type_specification]
#[verifier::external_body]
pub struct ExClient(reqwest::Client);

/// Relies on reqwest's `Client::new`: a client with the default
/// configuration. It panics where no TLS backend can be set up or the system's
/// resolver configuration cannot be loaded.
pub assume_specification[ reqwest::Client::new ]() -> reqwest::Client;

/// Relies on reqwest's `Client` being `Clone`: the copy shares the original's
/// connection pool.
pub assume_specification[ <reqwest::Client as Clone>::clone ](c: &reqwest::Client) -> reqwest::Client;

/// What the server reports of itself when introspected.
#[derive(Clone, Debug, PartialEq, Eq)]
pub struct ServerDescription {
    pub instructions: Option<String>,
    pub supports_tools: bool,
    pub notifies_tool_list_changed: bool,
}

/// The service: the composed tool registry, and the one HTTP client that all
/// fetches share.
#[derive(Clone)]
pub struct DiveDefaultService {
    http_client: reqwest::Client,
    tool_router: ToolRegistry,
}

/// The tools of the service, echo first, then fetch, then the filesystem.
pub open spec fn service_tools(tools: Seq<ToolDescriptor>) -> bool {
    &&& tools.len() == 7
    &&& describes(tools[0], "echo"@, ToolKind::Echo, seq!["message"@])
    &&& describes(tools[1], "fetch"@, ToolKind::Fetch, seq!["url"@])
    &&& describes(tools[2], "read_file"@, ToolKind::ReadFile, seq!["path"@])
    &&& describes(tools[3], "write_file"@, ToolKind::WriteFile, seq!["path"@, "content"@])
    &&& describes(tools[4], "list_directory"@, ToolKind::ListDirectory, seq!["path"@])
    &&& describes(tools[5], "create_directory"@, ToolKind::CreateDirectory, seq!["path"@])
    &&& describes(tools[6], "delete_file"@, ToolKind::DeleteFile, seq!["path"@])
}

impl DiveDefaultService {
    pub closed spec fn tools_view(self) -> Seq<ToolDescriptor> {
        self.tool_router.tools_view()
    }

    /// The service's invariant: its registry is well formed.
    pub closed spec fn wf(self) -> bool {
        self.tool_router.wf()
    }

    /// Builds the service from the echo, fetch and filesystem groups.
    pub fn new() -> (s: Self)
        ensures
            s.wf(),
            service_tools(s.tools_view()),
    {
        let echo = crate::echo::tool_list();
        let fetch = crate::fetch::tool_list();
        let fs = crate::fs_tools::tool_list();
        proof {
            reveal_strlit("echo");
            reveal_strlit("fetch");
            reveal_strlit("read_file");
            reveal_strlit("write_file");
            reveal_strlit("list_directory");
            reveal_strlit("create_directory");
            reveal_strlit("delete_file");
        }
        let ghost fs_view = fs@;
        assert(fs_view[0].name@.len() == 9);
        assert(fs_view[1].name@.len() == 10);
        assert(fs_view[2].name@.len() == 14);
        assert(fs_view[3].name@.len() == 16);
        assert(fs_view[4].name@.len() == 11);
        let echo = ToolRegistry::from_tools(echo).unwrap();
        let fetch = ToolRegistry::from_tools(fetch).unwrap();
        let fs = ToolRegistry::from_tools(fs).unwrap();
        let ghost e = echo.tools_view();
        let ghost f = fetch.tools_view();
        assert(e[0].name@.len() == 4);
        assert(f[0].name@.len() == 5);
        assert(names_disjoint(e, f));
        let net = echo.compose(fetch).unwrap();
        let ghost n = net.tools_view();
        assert(n[0] == e[0] && n[1] == f[0]);
        assert(names_disjoint(n, fs.tools_view()));
        let all = net.compose(fs).unwrap();
        assert(all.tools_view() =~= echo.tools_view() + fetch.tools_view() + fs.tools_view());
        DiveDefaultService { http_client: reqwest::Client::new(), tool_router: all }
    }

    /// The HTTP client that fetches go through.
    pub fn http_client(&self) -> &reqwest::Client {
        &self.http_client
    }

    /// The registered tools, in order.
    pub fn list_tools(&self) -> (r: &Vec<ToolDescriptor>)
        ensures
            r@ == self.tools_view(),
    {
        self.tool_router.tools()
    }

    /// Routes a call to the tool `name` with the parameters in `payload`.
    pub fn dispatch(&self, name: &str, payload: &Vec<Field>) -> (r: Result<Invocation, ToolError>)
        requires
            self.wf(),
        ensures
            !has_tool(self.tools_view(), name@) ==> r is Err && r->Err_0.kind
                == crate::envelope::ErrorKind::ToolNotFound && r->Err_0.message@
                == "tool not found"@,
            forall|i: int|
                0 <= i < self.tools_view().len() && #[trigger] self.tools_view()[i].name@ == name@
                    ==> crate::router::dispatched_to(r, self.tools_view()[i], payload@),
    {
        self.tool_router.dispatch(name, payload)
    }

    /// The server's description of itself.
    pub fn get_info(&self) -> (r: ServerDescription)
        ensures
            r.instructions is Some && r.instructions->Some_0@
                == "default mcp server for dive client"@,
            r.supports_tools,
            r.notifies_tool_list_changed,
    {
        ServerDescription {
            instructions: Some(String::from_str("default mcp server for dive client")),
            supports_tools: true,
            notifies_tool_list_changed: true,
        }
    }
}

} // verus!
