//! The dispatcher: from a request and the current catalog to a response.

use crate::config::Settings;
use crate::json::{items_view, lemma_member_of_push, members_view, Json, JsonV};
use crate::error::{Error, ErrorV};
use crate::loader::{catalog_of, scan_view, PatternLoader, PatternSource};
use crate::pattern::{patterns_view, Pattern, PatternV, TOOL_PREFIX};
use crate::protocol::{
    JsonRpcRequest, JsonRpcResponse, RequestV, ResponseV, INTERNAL_ERROR, METHOD_NOT_FOUND,
};
use crate::text::{has_prefix, str_eq, strip_prefix};
use vstd::prelude::*;
use vstd::string::StringExecFns;

verus! {

/// The protocol revision that `initialize` reports.
pub const PROTOCOL_VERSION: &'static str = "2024-11-05";

/// The first pattern of the catalog whose name is exactly `name`.
pub open spec fn find_pattern(catalog: Seq<PatternV>, name: Seq<char>) -> Option<PatternV>
    decreases catalog.len(),
{
    if catalog.len() == 0 {
        None
    } else if catalog[0].name == name {
        Some(catalog[0])
    } else {
        find_pattern(catalog.drop_first(), name)
    }
}

/// The text handed back by a tool call: the pattern's system prompt, its
/// user prompt template if it has one, and the caller's content, each under
/// its heading.
pub open spec fn prompt_text(pattern: PatternV, content: Seq<char>) -> Seq<char> {
    match pattern.user_prompt {
        Some(user) => "# System Prompt\n\n"@ + pattern.system_prompt
            + "\n\n# User Prompt Template\n\n"@ + user + "\n\n# Content to Process\n\n"@ + content,
        None => "# System Prompt\n\n"@ + pattern.system_prompt + "\n\n# Content to Process\n\n"@
            + content,
    }
}

/// The result of a tool call: one content item of type `text`.
pub open spec fn text_result(text: Seq<char>) -> JsonV {
    JsonV::Object(
        seq![
            (
                "content"@,
                JsonV::Array(
                    seq![
                        JsonV::Object(
                            seq![("type"@, JsonV::text("text"@)), ("text"@, JsonV::text(text))],
                        ),
                    ],
                ),
            ),
        ],
    )
}

/// The string `content` among the `arguments` of a tool call, if both are
/// there.
pub open spec fn call_content(params: JsonV) -> Option<Seq<char>> {
    match params.get("arguments"@) {
        Some(arguments) => arguments.str_member("content"@),
        None => None,
    }
}

/// The response to `tools/call`.
pub open spec fn tools_call_response(id: JsonV, params: JsonV, catalog: Seq<PatternV>) -> ResponseV {
    match params.str_member("name"@) {
        None => ResponseV::error(id, INTERNAL_ERROR as int, "Missing tool name"@),
        Some(tool) => if !has_prefix(tool, TOOL_PREFIX@) {
            ResponseV::error(id, INTERNAL_ERROR as int, "Invalid tool name: "@ + tool)
        } else {
            let name = tool.subrange(TOOL_PREFIX@.len() as int, tool.len() as int);
            match call_content(params) {
                None => ResponseV::error(id, INTERNAL_ERROR as int, "Missing content argument"@),
                Some(content) => match find_pattern(catalog, name) {
                    None => ResponseV::error(
                        id,
                        INTERNAL_ERROR as int,
                        "Pattern not found: "@ + name,
                    ),
                    Some(pattern) => ResponseV::success(
                        id,
                        text_result(prompt_text(pattern, content)),
                    ),
                },
            }
        },
    }
}

/// Finds the first pattern named `name`.
pub fn lookup_pattern<'a>(catalog: &'a Vec<Pattern>, name: &str) -> (r: Option<&'a Pattern>)
    ensures
        match r {
            Some(p) => find_pattern(patterns_view(catalog@), name@) == Some(p@),
            None => find_pattern(patterns_view(catalog@), name@) is None,
        },
{
    let wanted = name.to_owned();
    let ghost all = patterns_view(catalog@);
    assert(all.subrange(0, all.len() as int) =~= all);
    let mut i: usize = 0;
    while i < catalog.len()
        invariant
            i <= catalog.len(),
            wanted@ == name@,
            all == patterns_view(catalog@),
            find_pattern(all, name@) == find_pattern(all.subrange(i as int, all.len() as int), name@),
        decreases catalog.len() - i,
    {
        let ghost rest = all.subrange(i as int, all.len() as int);
        assert(rest[0] == catalog@[i as int]@);
        assert(rest.drop_first() =~= all.subrange(i + 1, all.len() as int));
        if catalog[i].name == wanted {
            return Some(&catalog[i]);
        }
        i += 1;
    }
    None
}

/// Puts together the text that a tool call hands back.
pub fn compose_prompt(pattern: &Pattern, content: &str) -> (r: String)
    ensures
        r@ == prompt_text(pattern@, content@),
{
    let mut text = String::from_str("# System Prompt\n\n");
    text.append(pattern.system_prompt.as_str());
    match &pattern.user_prompt {
        Some(user) => {
            text.append("\n\n# User Prompt Template\n\n");
            text.append(user.as_str());
        },
        None => {},
    }
    text.append("\n\n# Content to Process\n\n");
    text.append(content);
    text
}

/// Wraps a text into the result of a tool call.
pub fn make_text_result(text: String) -> (r: Json)
    ensures
        r@ == text_result(text@),
{
    let mut item: Vec<(String, Json)> = Vec::new();
    item.push((String::from_str("type"), Json::string("text")));
    item.push((String::from_str("text"), Json::String(text)));
    assert(members_view(item@) =~= seq![
        ("type"@, JsonV::text("text"@)),
        ("text"@, JsonV::text(text@)),
    ]);
    let mut items: Vec<Json> = Vec::new();
    items.push(Json::object(item));
    assert(items_view(items@) =~= seq![items@[0]@]);
    let mut members: Vec<(String, Json)> = Vec::new();
    members.push((String::from_str("content"), Json::array(items)));
    assert(members_view(members@) =~= seq![("content"@, members@[0].1@)]);
    Json::object(members)
}

/// Answers `tools/call`.
///
/// The call names a tool and carries the content to process. The answer is
/// the prompt text for the named pattern, or an error that says what is
/// missing or unknown.
pub fn handle_tools_call(catalog: &Vec<Pattern>, id: Json, params: &Json) -> (r: JsonRpcResponse)
    ensures
        r@ == tools_call_response(id@, params@, patterns_view(catalog@)),
{
    let tool_name = match params.get("name") {
        Some(v) => match v.as_str() {
            Some(name) => name,
            None => {
                return JsonRpcResponse::error(id, INTERNAL_ERROR, "Missing tool name");
            },
        },
        None => {
            return JsonRpcResponse::error(id, INTERNAL_ERROR, "Missing tool name");
        },
    };
    let pattern_name = match strip_prefix(tool_name, TOOL_PREFIX) {
        Some(name) => name,
        None => {
            let mut message = String::from_str("Invalid tool name: ");
            message.append(tool_name);
            return JsonRpcResponse::error(id, INTERNAL_ERROR, message.as_str());
        },
    };
    let content = match params.get("arguments") {
        Some(arguments) => match arguments.get("content") {
            Some(c) => match c.as_str() {
                Some(text) => Some(text),
                None => None,
            },
            None => None,
        },
        None => None,
    };
    let content = match content {
        Some(c) => c,
        None => {
            return JsonRpcResponse::error(id, INTERNAL_ERROR, "Missing content argument");
        },
    };
    match lookup_pattern(catalog, pattern_name) {
        Some(pattern) => {
            let text = compose_prompt(pattern, content);
            JsonRpcResponse::success(id, make_text_result(text))
        },
        None => {
            let mut message = String::from_str("Pattern not found: ");
            message.append(pattern_name);
            JsonRpcResponse::error(id, INTERNAL_ERROR, message.as_str())
        },
    }
}

/// The schema of every tool's input: an object that must have a string
/// member `content`.
pub open spec fn input_schema() -> JsonV {
    JsonV::Object(
        seq![
            ("type"@, JsonV::text("object"@)),
            (
                "properties"@,
                JsonV::Object(
                    seq![
                        (
                            "content"@,
                            JsonV::Object(
                                seq![
                                    ("type"@, JsonV::text("string"@)),
                                    (
                                        "description"@,
                                        JsonV::text("The content to process with this pattern"@),
                                    ),
                                ],
                            ),
                        ),
                    ],
                ),
            ),
            ("required"@, JsonV::Array(seq![JsonV::text("content"@)])),
        ],
    )
}

/// How a pattern is listed as a tool.
pub open spec fn tool_descriptor(pattern: PatternV) -> JsonV {
    JsonV::Object(
        seq![
            ("name"@, JsonV::text(pattern.tool_name())),
            ("description"@, JsonV::text(pattern.description)),
            ("inputSchema"@, input_schema()),
        ],
    )
}

/// The descriptors of all patterns of a catalog, in catalog order.
pub open spec fn tool_descriptors(catalog: Seq<PatternV>) -> Seq<JsonV> {
    Seq::new(catalog.len(), |i: int| tool_descriptor(catalog[i]))
}

/// The result of `tools/list`.
pub open spec fn tools_list_result(catalog: Seq<PatternV>) -> JsonV {
    JsonV::Object(seq![("tools"@, JsonV::Array(tool_descriptors(catalog)))])
}

/// The result of `initialize`: protocol revision, capabilities and the
/// server's name and version.
pub open spec fn initialize_result(name: Seq<char>, version: Seq<char>) -> JsonV {
    JsonV::Object(
        seq![
            ("protocolVersion"@, JsonV::text(PROTOCOL_VERSION@)),
            ("capabilities"@, JsonV::Object(seq![("tools"@, JsonV::empty_object())])),
            (
                "serverInfo"@,
                JsonV::Object(
                    seq![("name"@, JsonV::text(name)), ("version"@, JsonV::text(version))],
                ),
            ),
        ],
    )
}

/// The response to any method the server does not know.
pub open spec fn method_not_found_response(id: JsonV) -> ResponseV {
    ResponseV::error(id, METHOD_NOT_FOUND as int, "Method not found"@)
}

/// The response to a request, given the catalog and the server's name and
/// version.
pub open spec fn response_to(
    request: RequestV,
    catalog: Seq<PatternV>,
    name: Seq<char>,
    version: Seq<char>,
) -> ResponseV {
    if request.method == "initialize"@ {
        ResponseV::success(request.id, initialize_result(name, version))
    } else if request.method == "tools/list"@ {
        ResponseV::success(request.id, tools_list_result(catalog))
    } else if request.method == "tools/call"@ {
        tools_call_response(request.id, request.params, catalog)
    } else {
        method_not_found_response(request.id)
    }
}

/// Builds the fixed input schema.
fn make_input_schema() -> (r: Json)
    ensures
        r@ == input_schema(),
{
    let mut content: Vec<(String, Json)> = Vec::new();
    content.push((String::from_str("type"), Json::string("string")));
    content.push(
        (
            String::from_str("description"),
            Json::string("The content to process with this pattern"),
        ),
    );
    assert(members_view(content@) =~= seq![
        ("type"@, JsonV::text("string"@)),
        ("description"@, JsonV::text("The content to process with this pattern"@)),
    ]);
    let mut properties: Vec<(String, Json)> = Vec::new();
    properties.push((String::from_str("content"), Json::object(content)));
    assert(members_view(properties@) =~= seq![("content"@, properties@[0].1@)]);
    let mut required: Vec<Json> = Vec::new();
    required.push(Json::string("content"));
    assert(items_view(required@) =~= seq![JsonV::text("content"@)]);
    let mut schema: Vec<(String, Json)> = Vec::new();
    schema.push((String::from_str("type"), Json::string("object")));
    schema.push((String::from_str("properties"), Json::object(properties)));
    schema.push((String::from_str("required"), Json::array(required)));
    assert(members_view(schema@) =~= seq![
        ("type"@, JsonV::text("object"@)),
        ("properties"@, schema@[1].1@),
        ("required"@, schema@[2].1@),
    ]);
    Json::object(schema)
}

/// Builds the listing of one pattern.
fn make_tool_descriptor(pattern: &Pattern) -> (r: Json)
    ensures
        r@ == tool_descriptor(pattern@),
{
    let mut tool: Vec<(String, Json)> = Vec::new();
    tool.push((String::from_str("name"), Json::String(pattern.tool_name())));
    tool.push((String::from_str("description"), Json::String(pattern.description.clone())));
    tool.push((String::from_str("inputSchema"), make_input_schema()));
    assert(members_view(tool@) =~= seq![
        ("name"@, JsonV::text(pattern@.tool_name())),
        ("description"@, JsonV::text(pattern@.description)),
        ("inputSchema"@, input_schema()),
    ]);
    Json::object(tool)
}

/// Answers `initialize`. The catalog plays no part in it.
pub fn handle_initialize(config: &Settings, id: Json) -> (r: JsonRpcResponse)
    ensures
        r@ == ResponseV::success(
            id@,
            initialize_result(config.server.name@, config.server.version@),
        ),
{
    let mut tools: Vec<(String, Json)> = Vec::new();
    tools.push((String::from_str("tools"), Json::empty_object()));
    assert(members_view(tools@) =~= seq![("tools"@, JsonV::empty_object())]);
    let mut info: Vec<(String, Json)> = Vec::new();
    info.push((String::from_str("name"), Json::String(config.server.name.clone())));
    info.push((String::from_str("version"), Json::String(config.server.version.clone())));
    assert(members_view(info@) =~= seq![
        ("name"@, JsonV::text(config.server.name@)),
        ("version"@, JsonV::text(config.server.version@)),
    ]);
    let mut result: Vec<(String, Json)> = Vec::new();
    result.push((String::from_str("protocolVersion"), Json::string(PROTOCOL_VERSION)));
    result.push((String::from_str("capabilities"), Json::object(tools)));
    result.push((String::from_str("serverInfo"), Json::object(info)));
    assert(members_view(result@) =~= seq![
        ("protocolVersion"@, JsonV::text(PROTOCOL_VERSION@)),
        ("capabilities"@, result@[1].1@),
        ("serverInfo"@, result@[2].1@),
    ]);
    JsonRpcResponse::success(id, Json::object(result))
}

/// Answers `tools/list`: one descriptor for each pattern of the catalog, in
/// catalog order. An empty catalog gives an empty list.
pub fn handle_tools_list(catalog: &Vec<Pattern>, id: Json) -> (r: JsonRpcResponse)
    ensures
        r@ == ResponseV::success(id@, tools_list_result(patterns_view(catalog@))),
{
    let mut tools: Vec<Json> = Vec::new();
    let mut i: usize = 0;
    while i < catalog.len()
        invariant
            i <= catalog.len(),
            tools@.len() == i,
            forall|k: int| 0 <= k < i ==> (#[trigger] tools@[k])@ == tool_descriptor(catalog@[k]@),
        decreases catalog.len() - i,
    {
        tools.push(make_tool_descriptor(&catalog[i]));
        i += 1;
    }
    assert(items_view(tools@) =~= tool_descriptors(patterns_view(catalog@)));
    let mut result: Vec<(String, Json)> = Vec::new();
    result.push((String::from_str("tools"), Json::array(tools)));
    assert(members_view(result@) =~= seq![("tools"@, result@[0].1@)]);
    JsonRpcResponse::success(id, Json::object(result))
}

/// Answers a method the server does not know.
pub fn method_not_found(id: Json) -> (r: JsonRpcResponse)
    ensures
        r@ == method_not_found_response(id@),
{
    JsonRpcResponse::error(id, METHOD_NOT_FOUND, "Method not found")
}

/// The server: its settings and the catalog it currently serves.
///
/// The catalog is only ever replaced as a whole, so every request is
/// answered from one complete catalog.
pub struct McpServer {
    pattern_loader: PatternLoader,
    patterns: Vec<Pattern>,
    config: Settings,
}

impl McpServer {
    /// The catalog that requests are answered from.
    pub closed spec fn catalog(&self) -> Seq<PatternV> {
        patterns_view(self.patterns@)
    }

    /// The settings the server was made with.
    pub closed spec fn settings(&self) -> Settings {
        self.config
    }

    /// The name the server reports.
    pub open spec fn server_name(&self) -> Seq<char> {
        self.settings().server.name@
    }

    /// The version the server reports.
    pub open spec fn server_version(&self) -> Seq<char> {
        self.settings().server.version@
    }

    /// The loader that the server's patterns come from.
    pub closed spec fn loader(&self) -> PatternLoader {
        self.pattern_loader
    }

    /// A server with the given settings that serves the given patterns.
    pub fn with_patterns(
        config: Settings,
        pattern_loader: PatternLoader,
        patterns: Vec<Pattern>,
    ) -> (r: McpServer)
        ensures
            r.catalog() == patterns_view(patterns@),
            r.settings() == config,
            r.loader() == pattern_loader,
    {
        McpServer { pattern_loader, patterns, config }
    }

    /// Makes the server from the outcome of the search for the pattern
    /// directory and from what the first scan of that directory gave.
    ///
    /// There is no server without a pattern directory, nor with one that
    /// could not be read. Subdirectories that yield no pattern are left
    /// out of the catalog.
    pub fn new(
        config: Settings,
        located: Result<PatternLoader, Error>,
        scanned: Result<Vec<PatternSource>, String>,
    ) -> (r: Result<McpServer, Error>)
        ensures
            match located {
                Err(e) => r matches Err(x) && x == e,
                Ok(loader) => match r {
                    Ok(server) => {
                        &&& catalog_of(scan_view(scanned)) == Ok::<Seq<PatternV>, ErrorV>(
                            server.catalog(),
                        )
                        &&& server.loader() == loader
                        &&& server.settings() == config
                    },
                    Err(e) => catalog_of(scan_view(scanned)) == Err::<Seq<PatternV>, ErrorV>(e@),
                },
            },
    {
        let pattern_loader = match located {
            Ok(loader) => loader,
            Err(e) => {
                return Err(e);
            },
        };
        match pattern_loader.load_all(scanned) {
            Ok(patterns) => Ok(McpServer::with_patterns(config, pattern_loader, patterns)),
            Err(e) => Err(e),
        }
    }

    /// The loader that the server's patterns come from.
    pub fn pattern_loader(&self) -> (r: &PatternLoader)
        ensures
            *r == self.loader(),
    {
        &self.pattern_loader
    }

    /// The patterns currently served, in catalog order.
    pub fn patterns(&self) -> (r: &Vec<Pattern>)
        ensures
            patterns_view(r@) == self.catalog(),
    {
        &self.patterns
    }

    /// The settings the server was made with.
    pub fn config(&self) -> (r: &Settings)
        ensures
            *r == self.settings(),
    {
        &self.config
    }

    /// Answers one request from the current catalog.
    ///
    /// Every request gets a response that carries the request's identifier:
    /// a result, or an error for an unknown method or a bad tool call.
    pub fn handle_request(&self, request: JsonRpcRequest) -> (r: JsonRpcResponse)
        ensures
            r@ == response_to(request@, self.catalog(), self.server_name(), self.server_version()),
    {
        if str_eq(request.method.as_str(), "initialize") {
            handle_initialize(&self.config, request.id)
        } else if str_eq(request.method.as_str(), "tools/list") {
            handle_tools_list(&self.patterns, request.id)
        } else if str_eq(request.method.as_str(), "tools/call") {
            handle_tools_call(&self.patterns, request.id, &request.params)
        } else {
            method_not_found(request.id)
        }
    }

    /// Replaces the whole catalog by `patterns`. Nothing of the old catalog
    /// stays, and the settings are untouched.
    pub fn replace_patterns(&mut self, patterns: Vec<Pattern>)
        ensures
            final(self).catalog() == patterns_view(patterns@),
            final(self).settings() == old(self).settings(),
            final(self).loader() == old(self).loader(),
    {
        self.patterns = patterns;
    }

    /// Reloads the catalog from what a new scan of the pattern directory
    /// gave.
    ///
    /// The catalog is replaced as a whole by what the scan yields. Where
    /// the directory could not be read the reload fails and the server
    /// keeps the catalog it had, all of it.
    pub fn reload_patterns(&mut self, scanned: Result<Vec<PatternSource>, String>) -> (r: Result<
        (),
        Error,
    >)
        ensures
            match r {
                Ok(_) => catalog_of(scan_view(scanned)) == Ok::<Seq<PatternV>, ErrorV>(
                    final(self).catalog(),
                ),
                Err(e) => catalog_of(scan_view(scanned)) == Err::<Seq<PatternV>, ErrorV>(e@)
                    && final(self).catalog() == old(self).catalog(),
            },
            final(self).catalog() == catalog_after_reload(old(self).catalog(), scan_view(scanned)),
            final(self).settings() == old(self).settings(),
            final(self).loader() == old(self).loader(),
    {
        match self.pattern_loader.load_all(scanned) {
            Ok(patterns) => {
                self.replace_patterns(patterns);
                Ok(())
            },
            Err(e) => Err(e),
        }
    }
}

/// Every response carries the identifier of its request and holds either a
/// result or an error, never both and never neither.
pub proof fn lemma_response_echoes_id(
    request: RequestV,
    catalog: Seq<PatternV>,
    name: Seq<char>,
    version: Seq<char>,
)
    ensures
        response_to(request, catalog, name, version).id == request.id,
        response_to(request, catalog, name, version).well_formed(),
{
}

/// `initialize` always succeeds: whatever the identifier, the parameters
/// and the catalog are, the response holds a result, no error, and the
/// identifier of the request.
pub proof fn lemma_initialize_succeeds(
    request: RequestV,
    catalog: Seq<PatternV>,
    name: Seq<char>,
    version: Seq<char>,
)
    requires
        request.method == "initialize"@,
    ensures
        response_to(request, catalog, name, version).result == Some(
            initialize_result(name, version),
        ),
        response_to(request, catalog, name, version).error is None,
        response_to(request, catalog, name, version).id == request.id,
{
}

/// `tools/list` lists the whole catalog: as many tools as there are
/// patterns, in catalog order, each named `fabric_` and the pattern's name
/// and described as the pattern is.
pub proof fn lemma_tools_list_mirrors_catalog(catalog: Seq<PatternV>)
    ensures
        tools_list_result(catalog).get("tools"@) == Some(JsonV::Array(tool_descriptors(catalog))),
        tool_descriptors(catalog).len() == catalog.len(),
        forall|i: int|
            0 <= i < catalog.len() ==> (#[trigger] tool_descriptors(catalog)[i]).str_member(
                "name"@,
            ) == Some(TOOL_PREFIX@ + catalog[i].name),
        forall|i: int|
            0 <= i < catalog.len() ==> (#[trigger] tool_descriptors(catalog)[i]).str_member(
                "description"@,
            ) == Some(catalog[i].description),
{
    reveal_strlit("name");
    reveal_strlit("description");
    reveal_strlit("inputSchema");
    let empty = Seq::<(Seq<char>, JsonV)>::empty();
    lemma_member_of_push(empty, "tools"@, JsonV::Array(tool_descriptors(catalog)), "tools"@);
    assert forall|i: int| 0 <= i < catalog.len() implies (#[trigger] tool_descriptors(
        catalog,
    )[i]).str_member("name"@) == Some(TOOL_PREFIX@ + catalog[i].name) && tool_descriptors(
        catalog,
    )[i].str_member("description"@) == Some(catalog[i].description) by {
        let p = catalog[i];
        let m1 = empty.push(("name"@, JsonV::text(p.tool_name())));
        let m2 = m1.push(("description"@, JsonV::text(p.description)));
        lemma_member_of_push(empty, "name"@, JsonV::text(p.tool_name()), "name"@);
        lemma_member_of_push(empty, "name"@, JsonV::text(p.tool_name()), "description"@);
        lemma_member_of_push(m1, "description"@, JsonV::text(p.description), "name"@);
        lemma_member_of_push(m1, "description"@, JsonV::text(p.description), "description"@);
        lemma_member_of_push(m2, "inputSchema"@, input_schema(), "name"@);
        lemma_member_of_push(m2, "inputSchema"@, input_schema(), "description"@);
        assert("inputSchema"@[0] != "description"@[0]);
        assert("name"@.len() != "description"@.len());
        assert("name"@.len() != "inputSchema"@.len());
        assert(tool_descriptor(p)->Object_0 =~= m2.push(("inputSchema"@, input_schema())));
    }
}

/// Whatever goes wrong in a tool call is reported with the code for
/// internal errors, and a failed call has no result.
pub proof fn lemma_tool_call_failures_share_code(
    id: JsonV,
    params: JsonV,
    catalog: Seq<PatternV>,
)
    ensures
        tools_call_response(id, params, catalog).error matches Some(e) ==> e.code
            == INTERNAL_ERROR as int && e.data is None && tools_call_response(
            id,
            params,
            catalog,
        ).result is None,
{
}

/// A tool name without the prefix `fabric_` is rejected, whatever else the
/// call holds.
pub proof fn lemma_unprefixed_tool_rejected(
    id: JsonV,
    params: JsonV,
    catalog: Seq<PatternV>,
    tool: Seq<char>,
)
    requires
        params.str_member("name"@) == Some(tool),
        !has_prefix(tool, TOOL_PREFIX@),
    ensures
        tools_call_response(id, params, catalog) == ResponseV::error(
            id,
            -32603,
            "Invalid tool name: "@ + tool,
        ),
{
}

/// A call of a prefixed tool without a string `content` among its
/// arguments is rejected, whether or not the pattern exists.
pub proof fn lemma_missing_content_rejected(
    id: JsonV,
    params: JsonV,
    catalog: Seq<PatternV>,
    tool: Seq<char>,
)
    requires
        params.str_member("name"@) == Some(tool),
        has_prefix(tool, TOOL_PREFIX@),
        call_content(params) is None,
    ensures
        tools_call_response(id, params, catalog) == ResponseV::error(
            id,
            -32603,
            "Missing content argument"@,
        ),
{
}

/// The number of tools that `tools/list` reports for a catalog.
pub open spec fn listed_count(catalog: Seq<PatternV>) -> nat {
    tool_descriptors(catalog).len()
}

/// The catalog that a server serves after a reload: what the scan yields,
/// or the catalog as it was where the scan failed.
pub open spec fn catalog_after_reload(
    current: Seq<PatternV>,
    scan: Result<Seq<crate::loader::SourceV>, Seq<char>>,
) -> Seq<PatternV> {
    match catalog_of(scan) {
        Ok(catalog) => catalog,
        Err(_) => current,
    }
}

/// A reload is all or nothing: after it the server serves either the whole
/// catalog it had or the whole catalog that the scan yields. So a listing
/// that is made from the catalog before the reload or from the one after
/// it reports the size of one of the two and nothing in between. That a
/// listing is made from one of the two is taken for granted here: it is
/// the caller who keeps listings and reloads apart.
pub proof fn lemma_reload_is_all_or_nothing(
    current: Seq<PatternV>,
    scan: Result<Seq<crate::loader::SourceV>, Seq<char>>,
    seen: Seq<PatternV>,
)
    requires
        seen == current || seen == catalog_after_reload(current, scan),
    ensures
        catalog_after_reload(current, scan) == current || catalog_of(scan) == Ok::<
            Seq<PatternV>,
            ErrorV,
        >(catalog_after_reload(current, scan)),
        listed_count(seen) == current.len() || listed_count(seen) == catalog_after_reload(
            current,
            scan,
        ).len(),
{
}

} // verus!
