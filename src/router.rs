use vstd::prelude::*;

use crate::envelope::{ErrorKind, ToolError};

verus! {

/// The operation behind a registered tool.
#[derive(Clone, Copy, Debug, PartialEq, Eq)]
pub enum ToolKind {
    Echo,
    Fetch,
    ReadFile,
    WriteFile,
    ListDirectory,
    CreateDirectory,
    DeleteFile,
}

/// A named tool: its description, the string parameters it requires, in
/// order, and the operation it runs.
#[derive(Clone, Debug, PartialEq, Eq)]
pub struct ToolDescriptor {
    pub name: String,
    pub description: String,
    pub params: Vec<String>,
    pub kind: ToolKind,
}

/// The value of one field of a parameter payload, as far as the schemas
/// tell values apart.
#[derive(Clone, Debug, PartialEq, Eq)]
pub enum ParamValue {
    Text(String),
    Other,
}

/// One named field of a parameter payload.
#[derive(Clone, Debug, PartialEq, Eq)]
pub struct Field {
    pub name: String,
    pub value: ParamValue,
}

/// A call that passed routing and validation: the operation to run and the
/// values of its parameters, in the order of the tool's schema.
#[derive(Clone, Debug, PartialEq, Eq)]
pub struct Invocation {
    pub kind: ToolKind,
    pub args: Vec<String>,
}

/// A set of tools with pairwise distinct names.
#[derive(Clone, Debug)]
pub struct ToolRegistry {
    tools: Vec<ToolDescriptor>,
}

/// No two tools share a name.
pub open spec fn names_unique(tools: Seq<ToolDescriptor>) -> bool {
    forall|i: int, j: int|
        0 <= i < j < tools.len() ==> #[trigger] tools[i].name@ != #[trigger] tools[j].name@
}

/// Some tool is named `name`.
pub open spec fn has_tool(tools: Seq<ToolDescriptor>, name: Seq<char>) -> bool {
    exists|i: int| 0 <= i < tools.len() && #[trigger] tools[i].name@ == name
}

/// `d` is the tool `name`, running `kind` on the parameters `params`.
pub open spec fn describes(
    d: ToolDescriptor,
    name: Seq<char>,
    kind: ToolKind,
    params: Seq<Seq<char>>,
) -> bool {
    &&& d.name@ == name
    &&& d.kind == kind
    &&& d.params@.len() == params.len()
    &&& forall|j: int| 0 <= j < params.len() ==> #[trigger] d.params@[j]@ == params[j]
}

/// Builds the descriptor of a tool with one string parameter.
pub fn unary_tool(name: &str, description: &str, param: &str, kind: ToolKind) -> (d:
    ToolDescriptor)
    ensures
        describes(d, name@, kind, seq![param@]),
        d.description@ == description@,
{
    let mut params: Vec<String> = Vec::new();
    params.push(String::from_str(param));
    ToolDescriptor {
        name: String::from_str(name),
        description: String::from_str(description),
        params,
        kind,
    }
}

/// Builds the descriptor of a tool with two string parameters.
pub fn binary_tool(
    name: &str,
    description: &str,
    first: &str,
    second: &str,
    kind: ToolKind,
) -> (d: ToolDescriptor)
    ensures
        describes(d, name@, kind, seq![first@, second@]),
        d.description@ == description@,
{
    let mut params: Vec<String> = Vec::new();
    params.push(String::from_str(first));
    params.push(String::from_str(second));
    ToolDescriptor {
        name: String::from_str(name),
        description: String::from_str(description),
        params,
        kind,
    }
}

/// No tool of `a` shares its name with a tool of `b`.
pub open spec fn names_disjoint(a: Seq<ToolDescriptor>, b: Seq<ToolDescriptor>) -> bool {
    forall|i: int, j: int|
        0 <= i < a.len() && 0 <= j < b.len() ==> #[trigger] a[i].name@ != #[trigger] b[j].name@
}

/// The value of the first field named `key`, if any.
pub open spec fn field_value(fields: Seq<Field>, key: Seq<char>) -> Option<ParamValue>
    decreases fields.len(),
{
    if fields.len() == 0 {
        None
    } else {
        match field_value(fields.drop_last(), key) {
            Some(v) => Some(v),
            None => if fields.last().name@ == key {
                Some(fields.last().value)
            } else {
                None
            },
        }
    }
}

/// The text of a field's value, where the field is present and holds text.
pub open spec fn text_arg(fields: Seq<Field>, key: Seq<char>) -> Option<Seq<char>> {
    match field_value(fields, key) {
        Some(ParamValue::Text(s)) => Some(s@),
        _ => None,
    }
}

/// Every parameter of the schema is present in the payload as text.
pub open spec fn params_valid(fields: Seq<Field>, params: Seq<String>) -> bool {
    forall|j: int| 0 <= j < params.len() ==> (#[trigger] text_arg(fields, params[j]@)) is Some
}

/// `args` holds, in order, the text of each parameter of the schema.
pub open spec fn args_match(args: Seq<String>, fields: Seq<Field>, params: Seq<String>) -> bool {
    &&& args.len() == params.len()
    &&& forall|j: int|
        0 <= j < params.len() ==> text_arg(fields, #[trigger] params[j]@) == Some(args[j]@)
}

/// The result of dispatching a call to the tool `d`.
pub open spec fn dispatched_to(
    r: Result<Invocation, ToolError>,
    d: ToolDescriptor,
    fields: Seq<Field>,
) -> bool {
    if params_valid(fields, d.params@) {
        &&& r is Ok
        &&& r->Ok_0.kind == d.kind
        &&& args_match(r->Ok_0.args@, fields, d.params@)
    } else {
        r is Err && r->Err_0.kind == ErrorKind::InvalidParameters
    }
}

/// The first field named `key` within a prefix is the first in the whole.
proof fn lemma_field_value_prefix(fields: Seq<Field>, n: int, key: Seq<char>)
    requires
        0 <= n <= fields.len(),
        field_value(fields.take(n), key) is Some,
    ensures
        field_value(fields, key) == field_value(fields.take(n), key),
    decreases fields.len(),
{
    if n < fields.len() {
        assert(fields.drop_last().take(n) =~= fields.take(n));
        lemma_field_value_prefix(fields.drop_last(), n, key);
    } else {
        assert(fields.take(n) =~= fields);
    }
}

/// Finds the first field named `key`.
fn find_field<'a>(fields: &'a Vec<Field>, key: &String) -> (r: Option<&'a ParamValue>)
    ensures
        match r {
            Some(v) => field_value(fields@, key@) == Some(*v),
            None => field_value(fields@, key@) is None,
        },
{
    let mut i: usize = 0;
    while i < fields.len()
        invariant
            i <= fields@.len(),
            field_value(fields@.take(i as int), key@) is None,
        decreases fields@.len() - i,
    {
        assert(fields@.take(i as int + 1).drop_last() =~= fields@.take(i as int));
        if fields[i].name == *key {
            proof {
                lemma_field_value_prefix(fields@, i as int + 1, key@);
            }
            return Some(&fields[i].value);
        }
        i = i + 1;
    }
    assert(fields@.take(fields@.len() as int) =~= fields@);
    None
}

/// Builds an invalid-parameters error naming the offending field.
fn invalid_param(what: &str, key: &String) -> (e: ToolError)
    ensures
        e.kind == ErrorKind::InvalidParameters,
{
    let mut message = String::from_str(what);
    message.append(" `");
    message.append(key.as_str());
    message.append("`");
    ToolError { kind: ErrorKind::InvalidParameters, message }
}

/// Reads the values of the schema's parameters out of the payload.
pub fn decode_args(fields: &Vec<Field>, params: &Vec<String>) -> (r: Result<Vec<String>, ToolError>)
    ensures
        params_valid(fields@, params@) ==> r is Ok && args_match(r->Ok_0@, fields@, params@),
        !params_valid(fields@, params@) ==> r is Err && r->Err_0.kind
            == ErrorKind::InvalidParameters,
{
    let mut args: Vec<String> = Vec::new();
    let mut j: usize = 0;
    while j < params.len()
        invariant
            j <= params@.len(),
            args@.len() == j,
            forall|k: int|
                0 <= k < j ==> text_arg(fields@, #[trigger] params@[k]@) == Some(args@[k]@),
        decreases params@.len() - j,
    {
        match find_field(fields, &params[j]) {
            Some(ParamValue::Text(s)) => {
                args.push(s.clone());
            },
            Some(ParamValue::Other) => {
                assert(text_arg(fields@, params@[j as int]@) is None);
                return Err(invalid_param("invalid type for field", &params[j]));
            },
            None => {
                assert(text_arg(fields@, params@[j as int]@) is None);
                return Err(invalid_param("missing field", &params[j]));
            },
        }
        j = j + 1;
    }
    Ok(args)
}

impl ToolRegistry {
    pub closed spec fn tools_view(self) -> Seq<ToolDescriptor> {
        self.tools@
    }

    /// The registry's invariant: tool names are unique.
    pub open spec fn wf(self) -> bool {
        names_unique(self.tools_view())
    }

    /// A registry of one group whose tool names are distinct.
    pub fn from_tools(tools: Vec<ToolDescriptor>) -> (r: Result<ToolRegistry, String>)
        ensures
            names_unique(tools@) ==> r is Ok && r->Ok_0.tools_view() == tools@ && r->Ok_0.wf(),
            !names_unique(tools@) ==> r is Err,
    {
        let mut i: usize = 0;
        while i < tools.len()
            invariant
                i <= tools@.len(),
                names_unique(tools@.take(i as int)),
            decreases tools@.len() - i,
        {
            let mut j: usize = 0;
            while j < i
                invariant
                    i < tools@.len(),
                    j <= i,
                    forall|k: int| 0 <= k < j ==> tools@[k].name@ != tools@[i as int].name@,
                decreases i - j,
            {
                if tools[j].name == tools[i].name {
                    assert(!names_unique(tools@));
                    return Err(tools[i].name.clone());
                }
                j = j + 1;
            }
            assert(names_unique(tools@.take(i as int + 1)));
            i = i + 1;
        }
        assert(tools@.take(tools@.len() as int) =~= tools@);
        Ok(ToolRegistry { tools })
    }

    /// The tools of the registry, in order of registration.
    pub fn tools(&self) -> (r: &Vec<ToolDescriptor>)
        ensures
            r@ == self.tools_view(),
    {
        &self.tools
    }

    /// Finds the tool named `name`.
    pub fn lookup(&self, name: &str) -> (r: Option<usize>)
        ensures
            match r {
                Some(i) => i < self.tools_view().len() && self.tools_view()[i as int].name@
                    == name@,
                None => !has_tool(self.tools_view(), name@),
            },
    {
        let key = String::from_str(name);
        let mut i: usize = 0;
        while i < self.tools.len()
            invariant
                i <= self.tools@.len(),
                key@ == name@,
                forall|k: int| 0 <= k < i ==> self.tools@[k].name@ != name@,
            decreases self.tools@.len() - i,
        {
            if self.tools[i].name == key {
                return Some(i);
            }
            i = i + 1;
        }
        None
    }

    /// Merges two registries into one, keeping the order of both. Fails
    /// with a name that both hold, where there is one.
    pub fn compose(self, other: ToolRegistry) -> (r: Result<ToolRegistry, String>)
        requires
            self.wf(),
            other.wf(),
        ensures
            names_disjoint(self.tools_view(), other.tools_view()) ==> r is Ok && r->Ok_0.wf()
                && r->Ok_0.tools_view() == self.tools_view() + other.tools_view(),
            !names_disjoint(self.tools_view(), other.tools_view()) ==> r is Err && has_tool(
                self.tools_view(),
                r->Err_0@,
            ) && has_tool(other.tools_view(), r->Err_0@),
    {
        let mut j: usize = 0;
        while j < other.tools.len()
            invariant
                j <= other.tools@.len(),
                forall|i: int, k: int|
                    0 <= i < self.tools@.len() && 0 <= k < j ==> #[trigger] self.tools@[i].name@
                        != #[trigger] other.tools@[k].name@,
            decreases other.tools@.len() - j,
        {
            match self.lookup(other.tools[j].name.as_str()) {
                Some(i) => {
                    let dup = other.tools[j].name.clone();
                    assert(self.tools@[i as int].name@ == dup@);
                    assert(other.tools@[j as int].name@ == dup@);
                    return Err(dup);
                },
                None => {},
            }
            j = j + 1;
        }
        let ghost a = self.tools@;
        let ghost b = other.tools@;
        let mut tools = self.tools;
        let mut rest = other.tools;
        tools.append(&mut rest);
        assert(names_unique(tools@)) by {
            assert forall|i: int, k: int| 0 <= i < k < tools@.len() implies #[trigger] tools@[i].name@
                != #[trigger] tools@[k].name@ by {
                if k < a.len() {
                    assert(tools@[i] == a[i] && tools@[k] == a[k]);
                } else if i < a.len() {
                    assert(tools@[i] == a[i] && tools@[k] == b[k - a.len()]);
                } else {
                    assert(tools@[i] == b[i - a.len()] && tools@[k] == b[k - a.len()]);
                }
            }
        }
        Ok(ToolRegistry { tools })
    }

    /// Routes a call: finds the tool named `name`, then reads its parameters
    /// out of `payload`. An unknown name fails before the payload is read.
    pub fn dispatch(&self, name: &str, payload: &Vec<Field>) -> (r: Result<Invocation, ToolError>)
        requires
            self.wf(),
        ensures
            !has_tool(self.tools_view(), name@) ==> r is Err && r->Err_0.kind
                == ErrorKind::ToolNotFound && r->Err_0.message@ == "tool not found"@,
            forall|i: int|
                0 <= i < self.tools_view().len() && #[trigger] self.tools_view()[i].name@ == name@
                    ==> dispatched_to(r, self.tools_view()[i], payload@),
    {
        match self.lookup(name) {
            None => Err(
                ToolError { kind: ErrorKind::ToolNotFound, message: String::from_str("tool not found") },
            ),
            Some(i) => {
                let d = &self.tools[i];
                assert forall|k: int|
                    0 <= k < self.tools_view().len() && #[trigger] self.tools_view()[k].name@
                        == name@ implies k == i by {
                    if k < i {
                        assert(self.tools@[k].name@ != self.tools@[i as int].name@);
                    } else if k > i {
                        assert(self.tools@[i as int].name@ != self.tools@[k].name@);
                    }
                }
                match decode_args(payload, &d.params) {
                    Ok(args) => Ok(Invocation { kind: d.kind, args }),
                    Err(e) => Err(e),
                }
            },
        }
    }
}

} // verus!
