//! The tool registry and the built-in tools: their callable shapes, the
//! reading of their arguments, and the shaping of their results. Running a
//! tool — shell, disk or network — happens outside; every decision around it
//! is here.

use vstd::prelude::*;
use crate::json::{Json, JsonV, dec_int, i64_to_string, dec_digits, u64_to_string, str_eq};
use crate::protocol::{FunctionDeclaration, DeclV, Tool, ToolV, seq_view};
use crate::wire::push_member;
use crate::sse::{str_req, str_opt};

verus! {

/// What a tool execution hands back: a JSON body and whether it failed.
#[derive(Debug)]
pub struct ToolResult {
    pub output: Json,
    pub is_error: bool,
}

pub struct ToolResultV {
    pub output: JsonV,
    pub is_error: bool,
}

impl View for ToolResult {
    type V = ToolResultV;

    open spec fn view(&self) -> ToolResultV {
        ToolResultV { output: self.output@, is_error: self.is_error }
    }
}

// ---------------------------------------------------------------------------
// The registry.
// ---------------------------------------------------------------------------

/// The first registered tool under `name`.
pub open spec fn find_tool(s: Seq<DeclV>, name: Seq<char>) -> Option<int>
    decreases s.len(),
{
    if s.len() == 0 {
        None
    } else if s[0].name == name {
        Some(0)
    } else {
        match find_tool(s.drop_first(), name) {
            Some(i) => Some(i + 1),
            None => None,
        }
    }
}

pub proof fn lemma_find_tool(s: Seq<DeclV>, name: Seq<char>)
    ensures
        match find_tool(s, name) {
            Some(i) => 0 <= i < s.len() && s[i].name == name,
            None => forall|k: int| 0 <= k < s.len() ==> (#[trigger] s[k]).name != name,
        },
    decreases s.len(),
{
    if s.len() > 0 && s[0].name != name {
        lemma_find_tool(s.drop_first(), name);
        match find_tool(s.drop_first(), name) {
            Some(i) => {
                assert(s.drop_first()[i] == s[i + 1]);
            }
            None => {
                assert forall|k: int| 0 <= k < s.len() implies (#[trigger] s[k]).name != name by {
                    if k > 0 {
                        assert(s.drop_first()[k - 1] == s[k]);
                    }
                }
            }
        }
    }
}

/// The registered tools, by name. A later registration under a name already
/// taken replaces the earlier one.
#[derive(Debug)]
pub struct ToolRegistry {
    tools: Vec<FunctionDeclaration>,
}

impl View for ToolRegistry {
    type V = Seq<DeclV>;

    closed spec fn view(&self) -> Seq<DeclV> {
        seq_view(self.tools@)
    }
}

impl ToolRegistry {
    /// An empty registry.
    pub fn new() -> (r: Self)
        ensures
            r@ == Seq::<DeclV>::empty(),
    {
        let r = ToolRegistry { tools: Vec::new() };
        proof {
            assert(r@ =~= Seq::<DeclV>::empty());
        }
        r
    }

    /// Registers a tool's shape; a tool of the same name is replaced.
    pub fn register(&mut self, decl: FunctionDeclaration)
        ensures
            (*final(self))@ == match find_tool(old(self)@, decl@.name) {
                Some(i) => old(self)@.update(i, decl@),
                None => old(self)@.push(decl@),
            },
    {
        let ghost s0 = self@;
        let ghost dv = decl@;
        proof {
            assert(s0.skip(0) =~= s0);
        }
        let n = self.tools.len();
        let mut i: usize = 0;
        while i < n
            invariant
                i <= n,
                n == self.tools@.len(),
                self@ == s0,
                old(self)@ == s0,
                dv == decl@,
                find_tool(s0, dv.name) == match find_tool(s0.skip(i as int), dv.name) {
                    Some(k) => Some(k + i),
                    None => None,
                },
            decreases n - i,
        {
            proof {
                assert(s0.skip(i as int)[0] == s0[i as int]);
                assert(s0.skip(i as int).drop_first() =~= s0.skip(i + 1));
            }
            if str_eq(self.tools[i].name.as_str(), decl.name.as_str()) {
                proof {
                    assert(s0[i as int] == self.tools@[i as int]@);
                    assert(s0.skip(i as int)[0].name == dv.name);
                    assert(s0.skip(i as int).len() > 0);
                    assert(find_tool(s0.skip(i as int), dv.name) == Some(0int));
                    assert(find_tool(s0, dv.name) == Some(i as int));
                }
                self.tools[i] = decl;
                proof {
                    assert((*self)@ =~= s0.update(i as int, dv));
                }
                return;
            }
            i += 1;
        }
        proof {
            assert(s0.skip(n as int) =~= Seq::<DeclV>::empty());
        }
        self.tools.push(decl);
        proof {
            assert((*self)@ =~= s0.push(dv));
        }
    }

    /// How many tools are registered.
    pub fn len(&self) -> (r: usize)
        ensures
            r == self@.len(),
    {
        self.tools.len()
    }

    /// The position of the tool under `name`, when one is registered.
    pub fn find(&self, name: &str) -> (r: Option<usize>)
        ensures
            match (r, find_tool(self@, name@)) {
                (Some(i), Some(k)) => i as int == k,
                (None, None) => true,
                _ => false,
            },
    {
        let ghost s0 = self@;
        proof {
            assert(s0.skip(0) =~= s0);
        }
        let n = self.tools.len();
        let mut i: usize = 0;
        while i < n
            invariant
                i <= n,
                n == self.tools@.len(),
                self@ == s0,
                find_tool(s0, name@) == match find_tool(s0.skip(i as int), name@) {
                    Some(k) => Some(k + i),
                    None => None,
                },
            decreases n - i,
        {
            proof {
                assert(s0.skip(i as int)[0] == s0[i as int]);
                assert(s0.skip(i as int).drop_first() =~= s0.skip(i + 1));
            }
            if str_eq(self.tools[i].name.as_str(), name) {
                proof {
                    assert(s0[i as int] == self.tools@[i as int]@);
                    assert(s0.skip(i as int)[0].name == name@);
                    assert(s0.skip(i as int).len() > 0);
                    assert(find_tool(s0.skip(i as int), name@) == Some(0int));
                }
                return Some(i);
            }
            i += 1;
        }
        proof {
            assert(s0.skip(n as int) =~= Seq::<DeclV>::empty());
        }
        None
    }

    /// The tool entries a request sends to the model: one function entry per
    /// registered tool, in order.
    pub fn get_definitions(&self) -> (r: Vec<Tool>)
        ensures
            seq_view(r@) == Seq::new(self@.len(), |i: int| ToolV::Function { declaration: self@[i] }),
    {
        let mut out: Vec<Tool> = Vec::new();
        let mut i: usize = 0;
        while i < self.tools.len()
            invariant
                i <= self.tools@.len(),
                out@.len() == i,
                forall|k: int| 0 <= k < i ==> (#[trigger] out@[k])@ == (ToolV::Function {
                    declaration: seq_view(self.tools@)[k],
                }),
            decreases self.tools@.len() - i,
        {
            out.push(Tool::Function { declaration: self.tools[i].clone() });
            i += 1;
        }
        proof {
            assert(seq_view(out@) =~= Seq::new(self@.len(), |i: int| ToolV::Function {
                declaration: self@[i],
            }));
        }
        out
    }

    /// The error text for a call to a tool nobody registered.
    pub fn not_found_message(name: &str) -> (r: String)
        ensures
            r@ == "Tool not found: "@ + name@,
    {
        let mut s = "Tool not found: ".to_owned();
        s.append(name);
        s
    }
}

} // verus!

verus! {

// ---------------------------------------------------------------------------
// Schema building blocks.
// ---------------------------------------------------------------------------

/// A string property with a description.
pub open spec fn string_prop_schema(description: Seq<char>) -> JsonV {
    JsonV::Obj(seq![
        ("type"@, JsonV::Str("string"@)),
        ("description"@, JsonV::Str(description)),
    ])
}

fn string_prop(description: &str) -> (r: Json)
    ensures
        r@ == string_prop_schema(description@),
{
    let mut ms: Vec<(String, Json)> = Vec::new();
    push_member(&mut ms, "type".to_owned(), Json::Str("string".to_owned()));
    push_member(&mut ms, "description".to_owned(), Json::Str(description.to_owned()));
    let r = Json::Obj(ms);
    proof {
        assert(r@->Obj_0 =~= string_prop_schema(description@)->Obj_0);
    }
    r
}

// ---------------------------------------------------------------------------
// The shell tool.
// ---------------------------------------------------------------------------

/// Runs shell commands; the execution itself happens outside.
#[derive(Debug)]
pub struct BashTool;

/// The schema of the shell tool's arguments: one required command string.
pub open spec fn bash_schema() -> JsonV {
    JsonV::Obj(seq![
        ("type"@, JsonV::Str("object"@)),
        ("properties"@, JsonV::Obj(seq![
            ("command"@, string_prop_schema("The full bash command to execute (e.g., 'ls -la' or 'rg search_term')."@)),
        ])),
        ("required"@, JsonV::Arr(seq![JsonV::Str("command"@)])),
    ])
}

impl BashTool {
    pub fn name(&self) -> (r: String)
        ensures
            r@ == "execute_bash"@,
    {
        "execute_bash".to_owned()
    }

    pub fn definition(&self) -> (r: FunctionDeclaration)
        ensures
            r@ == (DeclV {
                name: "execute_bash"@,
                description: "Execute a bash command on the local macOS system to read files, search code, or manage system state."@,
                parameters: Some(bash_schema()),
            }),
    {
        let mut props: Vec<(String, Json)> = Vec::new();
        push_member(&mut props, "command".to_owned(),
            string_prop("The full bash command to execute (e.g., 'ls -la' or 'rg search_term')."));
        let required = vec![Json::Str("command".to_owned())];
        proof {
            crate::json::lemma_jview_list(required@);
            assert(crate::json::jview_list(required@) =~= seq![JsonV::Str("command"@)]);
        }
        let mut schema: Vec<(String, Json)> = Vec::new();
        push_member(&mut schema, "type".to_owned(), Json::Str("object".to_owned()));
        push_member(&mut schema, "properties".to_owned(), Json::Obj(props));
        push_member(&mut schema, "required".to_owned(), Json::Arr(required));
        let params = Json::Obj(schema);
        proof {
            assert(params@->Obj_0 =~= bash_schema()->Obj_0);
        }
        FunctionDeclaration {
            name: self.name(),
            description: "Execute a bash command on the local macOS system to read files, search code, or manage system state.".to_owned(),
            parameters: Some(params),
        }
    }
}

/// The command the shell tool is asked to run.
pub open spec fn bash_command_of(args: JsonV) -> Option<Seq<char>> {
    str_req(args, "command"@)
}

/// Reads the shell tool's arguments.
pub fn parse_bash_args(args: &Json) -> (r: Result<String, String>)
    ensures
        match (r, bash_command_of(args@)) {
            (Result::Ok(c), Some(v)) => c@ == v,
            (Result::Err(m), None) => m@ == "Invalid arguments: 'command' must be a string"@,
            _ => false,
        },
{
    match args.field_str_req("command") {
        Some(c) => Ok(c),
        None => Err("Invalid arguments: 'command' must be a string".to_owned()),
    }
}

/// The shell tool's result: the captured streams and the exit code, an error
/// exactly when the exit code is not zero.
pub fn shell_result(stdout: String, stderr: String, exit_code: i64) -> (r: ToolResult)
    ensures
        r@.output == JsonV::Obj(seq![
            ("stdout"@, JsonV::Str(stdout@)),
            ("stderr"@, JsonV::Str(stderr@)),
            ("exit_code"@, JsonV::Num(dec_int(exit_code as int))),
        ]),
        r@.is_error == (exit_code != 0),
{
    let is_error = exit_code != 0;
    let mut ms: Vec<(String, Json)> = Vec::new();
    push_member(&mut ms, "stdout".to_owned(), Json::Str(stdout));
    push_member(&mut ms, "stderr".to_owned(), Json::Str(stderr));
    push_member(&mut ms, "exit_code".to_owned(), Json::Num(i64_to_string(exit_code)));
    let output = Json::Obj(ms);
    proof {
        assert(output@->Obj_0 =~= seq![
            ("stdout"@, JsonV::Str(stdout@)),
            ("stderr"@, JsonV::Str(stderr@)),
            ("exit_code"@, JsonV::Num(dec_int(exit_code as int))),
        ]);
    }
    ToolResult { output, is_error }
}

// ---------------------------------------------------------------------------
// The file tool.
// ---------------------------------------------------------------------------

/// Reads, writes and lists files; the I/O itself happens outside.
#[derive(Debug)]
pub struct EditorTool;

/// The schema of the file tool's arguments.
pub open spec fn editor_schema() -> JsonV {
    JsonV::Obj(seq![
        ("type"@, JsonV::Str("object"@)),
        ("properties"@, JsonV::Obj(seq![
            ("operation"@, JsonV::Obj(seq![
                ("type"@, JsonV::Str("string"@)),
                ("enum"@, JsonV::Arr(seq![
                    JsonV::Str("read"@), JsonV::Str("write"@), JsonV::Str("list"@),
                ])),
                ("description"@, JsonV::Str("The operation to perform."@)),
            ])),
            ("path"@, string_prop_schema("The path to the file or directory."@)),
            ("content"@, string_prop_schema("The content to write (required for 'write' operation)."@)),
        ])),
        ("required"@, JsonV::Arr(seq![JsonV::Str("operation"@), JsonV::Str("path"@)])),
    ])
}

impl EditorTool {
    pub fn name(&self) -> (r: String)
        ensures
            r@ == "file_editor"@,
    {
        "file_editor".to_owned()
    }

    pub fn definition(&self) -> (r: FunctionDeclaration)
        ensures
            r@ == (DeclV {
                name: "file_editor"@,
                description: "Read, write, or list files and directories on the local system."@,
                parameters: Some(editor_schema()),
            }),
    {
        let op_enum = vec![
            Json::Str("read".to_owned()),
            Json::Str("write".to_owned()),
            Json::Str("list".to_owned()),
        ];
        proof {
            crate::json::lemma_jview_list(op_enum@);
            assert(crate::json::jview_list(op_enum@) =~= seq![
                JsonV::Str("read"@), JsonV::Str("write"@), JsonV::Str("list"@),
            ]);
        }
        let mut op: Vec<(String, Json)> = Vec::new();
        push_member(&mut op, "type".to_owned(), Json::Str("string".to_owned()));
        push_member(&mut op, "enum".to_owned(), Json::Arr(op_enum));
        push_member(&mut op, "description".to_owned(), Json::Str("The operation to perform.".to_owned()));
        let op_obj = Json::Obj(op);
        proof {
            assert(op_obj@->Obj_0 =~= seq![
                ("type"@, JsonV::Str("string"@)),
                ("enum"@, JsonV::Arr(seq![
                    JsonV::Str("read"@), JsonV::Str("write"@), JsonV::Str("list"@),
                ])),
                ("description"@, JsonV::Str("The operation to perform."@)),
            ]);
        }
        let mut props: Vec<(String, Json)> = Vec::new();
        push_member(&mut props, "operation".to_owned(), op_obj);
        push_member(&mut props, "path".to_owned(), string_prop("The path to the file or directory."));
        push_member(&mut props, "content".to_owned(), string_prop("The content to write (required for 'write' operation)."));
        let required = vec![Json::Str("operation".to_owned()), Json::Str("path".to_owned())];
        proof {
            crate::json::lemma_jview_list(required@);
            assert(crate::json::jview_list(required@) =~= seq![
                JsonV::Str("operation"@), JsonV::Str("path"@),
            ]);
        }
        let props_obj = Json::Obj(props);
        proof {
            assert(props_obj@->Obj_0 =~= editor_schema()->Obj_0[1].1->Obj_0);
        }
        let mut schema: Vec<(String, Json)> = Vec::new();
        push_member(&mut schema, "type".to_owned(), Json::Str("object".to_owned()));
        push_member(&mut schema, "properties".to_owned(), props_obj);
        push_member(&mut schema, "required".to_owned(), Json::Arr(required));
        let params = Json::Obj(schema);
        proof {
            assert(params@->Obj_0 =~= editor_schema()->Obj_0);
        }
        FunctionDeclaration {
            name: self.name(),
            description: "Read, write, or list files and directories on the local system.".to_owned(),
            parameters: Some(params),
        }
    }
}

/// What the file tool is asked to do.
#[derive(Debug)]
pub enum EditorPlan {
    Read { path: String },
    Write { path: String, content: String },
    List { path: String },
    /// The arguments were not a valid ask; the message becomes the result.
    Invalid { message: String },
}

pub enum EditorPlanV {
    Read { path: Seq<char> },
    Write { path: Seq<char>, content: Seq<char> },
    List { path: Seq<char> },
    Invalid { message: Seq<char> },
}

impl View for EditorPlan {
    type V = EditorPlanV;

    open spec fn view(&self) -> EditorPlanV {
        match *self {
            EditorPlan::Read { path } => EditorPlanV::Read { path: path@ },
            EditorPlan::Write { path, content } => EditorPlanV::Write {
                path: path@,
                content: content@,
            },
            EditorPlan::List { path } => EditorPlanV::List { path: path@ },
            EditorPlan::Invalid { message } => EditorPlanV::Invalid { message: message@ },
        }
    }
}

/// How the file tool reads its arguments: a required operation and path,
/// content required for a write, and anything else an invalid ask.
pub open spec fn editor_plan_of(args: JsonV) -> EditorPlanV {
    match (str_req(args, "operation"@), str_req(args, "path"@)) {
        (Some(op), Some(path)) => {
            if op == "read"@ {
                EditorPlanV::Read { path }
            } else if op == "write"@ {
                match str_opt(args, "content"@) {
                    Some(Some(content)) => EditorPlanV::Write { path, content },
                    Some(Option::None) => EditorPlanV::Invalid {
                        message: "Missing 'content' for write operation"@,
                    },
                    Option::None => EditorPlanV::Invalid {
                        message: "Invalid arguments: 'content' must be a string"@,
                    },
                }
            } else if op == "list"@ {
                EditorPlanV::List { path }
            } else {
                EditorPlanV::Invalid { message: "Unknown operation: "@ + op }
            }
        }
        _ => EditorPlanV::Invalid {
            message: "Invalid arguments: 'operation' and 'path' must be strings"@,
        },
    }
}

/// Reads the file tool's arguments into a plan.
pub fn parse_editor_args(args: &Json) -> (r: EditorPlan)
    ensures
        r@ == editor_plan_of(args@),
{
    let op = match args.field_str_req("operation") {
        Some(v) => v,
        None => {
            return EditorPlan::Invalid {
                message: "Invalid arguments: 'operation' and 'path' must be strings".to_owned(),
            };
        }
    };
    let path = match args.field_str_req("path") {
        Some(v) => v,
        None => {
            return EditorPlan::Invalid {
                message: "Invalid arguments: 'operation' and 'path' must be strings".to_owned(),
            };
        }
    };
    if str_eq(op.as_str(), "read") {
        EditorPlan::Read { path }
    } else if str_eq(op.as_str(), "write") {
        match args.field_str_opt("content") {
            Some(Some(content)) => EditorPlan::Write { path, content },
            Some(None) => EditorPlan::Invalid {
                message: "Missing 'content' for write operation".to_owned(),
            },
            None => EditorPlan::Invalid {
                message: "Invalid arguments: 'content' must be a string".to_owned(),
            },
        }
    } else if str_eq(op.as_str(), "list") {
        EditorPlan::List { path }
    } else {
        let mut message = "Unknown operation: ".to_owned();
        message.append(op.as_str());
        EditorPlan::Invalid { message }
    }
}

/// The result of a successful read: the file's content.
pub fn read_file_result(content: String) -> (r: ToolResult)
    ensures
        r@.output == JsonV::Obj(seq![("content"@, JsonV::Str(content@))]),
        !r@.is_error,
{
    let mut ms: Vec<(String, Json)> = Vec::new();
    push_member(&mut ms, "content".to_owned(), Json::Str(content));
    let output = Json::Obj(ms);
    proof {
        assert(output@->Obj_0 =~= JsonV::Obj(seq![("content"@, JsonV::Str(output@->Obj_0[0].1->Str_0))])->Obj_0);
    }
    ToolResult { output, is_error: false }
}

/// The result of a successful write.
pub fn write_file_result() -> (r: ToolResult)
    ensures
        r@.output == JsonV::Obj(seq![("status"@, JsonV::Str("success"@))]),
        !r@.is_error,
{
    let mut ms: Vec<(String, Json)> = Vec::new();
    push_member(&mut ms, "status".to_owned(), Json::Str("success".to_owned()));
    let output = Json::Obj(ms);
    proof {
        assert(output@->Obj_0 =~= seq![("status"@, JsonV::Str("success"@))]);
    }
    ToolResult { output, is_error: false }
}

/// The result of a successful directory listing: the entry names in order.
pub fn list_dir_result(entries: Vec<String>) -> (r: ToolResult)
    ensures
        r@.output == JsonV::Obj(seq![
            ("entries"@, JsonV::Arr(Seq::new(entries@.len(), |i: int| JsonV::Str(entries@[i]@)))),
        ]),
        !r@.is_error,
{
    let ghost ev = entries@;
    let mut items: Vec<Json> = Vec::new();
    let mut i: usize = 0;
    while i < entries.len()
        invariant
            i <= entries@.len(),
            entries@ == ev,
            items@.len() == i,
            forall|k: int| 0 <= k < i ==> (#[trigger] items@[k])@ == JsonV::Str(ev[k]@),
        decreases entries@.len() - i,
    {
        items.push(Json::Str(entries[i].clone()));
        i += 1;
    }
    let arr = Json::Arr(items);
    proof {
        crate::json::lemma_jview_list(arr->Arr_0@);
        assert(crate::json::jview_list(arr->Arr_0@)
            =~= Seq::new(ev.len(), |k: int| JsonV::Str(ev[k]@)));
    }
    let mut ms: Vec<(String, Json)> = Vec::new();
    push_member(&mut ms, "entries".to_owned(), arr);
    let output = Json::Obj(ms);
    proof {
        assert(output@->Obj_0 =~= seq![
            ("entries"@, JsonV::Arr(Seq::new(ev.len(), |k: int| JsonV::Str(ev[k]@)))),
        ]);
    }
    ToolResult { output, is_error: false }
}

/// The result of a failed tool operation.
pub fn error_result(message: String) -> (r: ToolResult)
    ensures
        r@.output == crate::conductor::failure_json(message@),
        r@.is_error,
{
    ToolResult { output: crate::conductor::error_obj(message), is_error: true }
}

// ---------------------------------------------------------------------------
// The web tool.
// ---------------------------------------------------------------------------

/// Fetches a page; the network call happens outside.
#[derive(Debug)]
pub struct WebTool;

/// The schema of the web tool's arguments: one required URL.
pub open spec fn web_schema() -> JsonV {
    JsonV::Obj(seq![
        ("type"@, JsonV::Str("object"@)),
        ("properties"@, JsonV::Obj(seq![
            ("url"@, string_prop_schema("The URL to fetch."@)),
        ])),
        ("required"@, JsonV::Arr(seq![JsonV::Str("url"@)])),
    ])
}

impl WebTool {
    pub fn name(&self) -> (r: String)
        ensures
            r@ == "fetch_web"@,
    {
        "fetch_web".to_owned()
    }

    pub fn definition(&self) -> (r: FunctionDeclaration)
        ensures
            r@ == (DeclV {
                name: "fetch_web"@,
                description: "Fetch a web page and return its content (HTML or JSON)."@,
                parameters: Some(web_schema()),
            }),
    {
        let mut props: Vec<(String, Json)> = Vec::new();
        push_member(&mut props, "url".to_owned(), string_prop("The URL to fetch."));
        let required = vec![Json::Str("url".to_owned())];
        proof {
            crate::json::lemma_jview_list(required@);
            assert(crate::json::jview_list(required@) =~= seq![JsonV::Str("url"@)]);
        }
        let mut schema: Vec<(String, Json)> = Vec::new();
        push_member(&mut schema, "type".to_owned(), Json::Str("object".to_owned()));
        push_member(&mut schema, "properties".to_owned(), Json::Obj(props));
        push_member(&mut schema, "required".to_owned(), Json::Arr(required));
        let params = Json::Obj(schema);
        proof {
            assert(params@->Obj_0 =~= web_schema()->Obj_0);
        }
        FunctionDeclaration {
            name: self.name(),
            description: "Fetch a web page and return its content (HTML or JSON).".to_owned(),
            parameters: Some(params),
        }
    }
}

/// The address the web tool is asked to fetch.
pub open spec fn web_url_of(args: JsonV) -> Option<Seq<char>> {
    str_req(args, "url"@)
}

/// Reads the web tool's arguments.
pub fn parse_web_args(args: &Json) -> (r: Result<String, String>)
    ensures
        match (r, web_url_of(args@)) {
            (Result::Ok(u), Some(v)) => u@ == v,
            (Result::Err(m), None) => m@ == "Invalid arguments: 'url' must be a string"@,
            _ => false,
        },
{
    match args.field_str_req("url") {
        Some(u) => Ok(u),
        None => Err("Invalid arguments: 'url' must be a string".to_owned()),
    }
}

/// The web tool's result: the status and the body, an error exactly when the
/// status is outside the successful range.
pub fn web_fetch_result(status: u16, body: String) -> (r: ToolResult)
    ensures
        r@.output == JsonV::Obj(seq![
            ("status"@, JsonV::Num(dec_digits(status as nat))),
            ("body"@, JsonV::Str(body@)),
        ]),
        r@.is_error == !(200 <= status < 300),
{
    let is_error = !(200 <= status && status < 300);
    let mut ms: Vec<(String, Json)> = Vec::new();
    push_member(&mut ms, "status".to_owned(), Json::Num(u64_to_string(status as u64)));
    push_member(&mut ms, "body".to_owned(), Json::Str(body));
    let output = Json::Obj(ms);
    proof {
        assert(output@->Obj_0 =~= seq![
            ("status"@, JsonV::Num(dec_digits(status as nat))),
            ("body"@, output@->Obj_0[1].1),
        ]);
    }
    ToolResult { output, is_error }
}

} // verus!
