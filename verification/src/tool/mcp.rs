//! Tools of Model Context Protocol servers.
//!
//! An [`McpToolBox`] stands in front of several server sessions, reached over
//! `stdio` or over `http`. Two servers may have a tool of the same name, so
//! each tool is shown to the model under a name of three parts: the
//! transport, the session's number among the sessions of that transport, and
//! the name that the server gave, joined by `_` (`stdio_0_convert_time`). A
//! call is taken apart again at the first two `_` and goes to the session so
//! named.
//!
//! The sessions themselves are not held here: talking to a server is the
//! caller's work. This module keeps the books: which names are shown, and
//! where a name leads.

use crate::json::{is_object, json_is_object};
use crate::text::{
    decimal_text, find, is_digit, lemma_decimal_round_trip, lemma_position_is, numeral_value,
    parse_index, position, same_text, to_decimal,
};
use crate::tool::{clone_tools, result_view, tool_views, Tool, ToolError, ToolErrorView, ToolView};
use vstd::prelude::*;

verus! {

/// A server that is started as a child process and spoken to over its
/// standard input and output.
pub struct StdIoMcp {
    pub command: String,
    pub args: Vec<String>,
}

/// A server that is reached over HTTP.
pub struct StreamableHttpMcp {
    pub url: String,
}

/// How to reach a server.
pub enum McpServer {
    StdIo(StdIoMcp),
    StreamableHttp(StreamableHttpMcp),
}

/// The way a session is carried.
#[derive(Clone, Copy, Debug, PartialEq, Eq, Structural)]
pub enum Transport {
    StdIo,
    StreamableHttp,
}

impl McpServer {
    /// A server started by `command` with the arguments `args`.
    pub fn new_std_io(command: String, args: Vec<String>) -> (server: McpServer)
        ensures
            server == McpServer::StdIo(StdIoMcp { command, args }),
    {
        McpServer::StdIo(StdIoMcp { command, args })
    }

    /// A server reached at `url`.
    pub fn new_streamable_http(url: String) -> (server: McpServer)
        ensures
            server == McpServer::StreamableHttp(StreamableHttpMcp { url }),
    {
        McpServer::StreamableHttp(StreamableHttpMcp { url })
    }

    /// The way sessions with this server are carried.
    pub open spec fn spec_transport(&self) -> Transport {
        match self {
            McpServer::StdIo(_) => Transport::StdIo,
            McpServer::StreamableHttp(_) => Transport::StreamableHttp,
        }
    }

    /// The way sessions with this server are carried.
    #[verifier::when_used_as_spec(spec_transport)]
    pub fn transport(&self) -> (transport: Transport)
        ensures
            transport == self.spec_transport(),
    {
        match self {
            McpServer::StdIo(_) => Transport::StdIo,
            McpServer::StreamableHttp(_) => Transport::StreamableHttp,
        }
    }
}

impl Transport {
    /// The first part of the names of the tools reached this way.
    pub open spec fn prefix(self) -> Seq<char> {
        match self {
            Transport::StdIo => "stdio"@,
            Transport::StreamableHttp => "http"@,
        }
    }

    /// The transport whose tools' names begin with `prefix`.
    pub open spec fn of_prefix(prefix: Seq<char>) -> Option<Transport> {
        if prefix == "stdio"@ {
            Some(Transport::StdIo)
        } else if prefix == "http"@ {
            Some(Transport::StreamableHttp)
        } else {
            None
        }
    }

    /// The first part of the names of the tools reached this way.
    pub fn prefix_str(self) -> (text: &'static str)
        ensures
            text@ == self.prefix(),
    {
        match self {
            Transport::StdIo => "stdio",
            Transport::StreamableHttp => "http",
        }
    }
}

/// The name under which the tool `native` of session `index` of `transport`
/// is shown.
pub open spec fn synthetic_name(transport: Transport, index: nat, native: Seq<char>) -> Seq<char> {
    transport.prefix() + seq!['_'] + decimal_text(index) + seq!['_'] + native
}

/// The three parts of `name`: what stands before the first `_`, between the
/// first and the second, and behind the second. `None` where `name` holds
/// fewer than two `_`.
pub open spec fn split_name(name: Seq<char>) -> Option<(Seq<char>, Seq<char>, Seq<char>)> {
    let first = position(name, '_');
    if first >= name.len() {
        None
    } else {
        let rest = name.skip(first as int + 1);
        let second = position(rest, '_');
        if second >= rest.len() {
            None
        } else {
            Some((name.take(first as int), rest.take(second as int), rest.skip(second as int + 1)))
        }
    }
}

/// Where a call leads: a session, and the name of the tool at its server.
pub struct Route {
    pub transport: Transport,
    pub index: usize,
    pub name: String,
}

/// The mathematical value of a [`Route`].
pub struct RouteView {
    pub transport: Transport,
    pub index: nat,
    pub name: Seq<char>,
}

impl View for Route {
    type V = RouteView;

    open spec fn view(&self) -> RouteView {
        RouteView { transport: self.transport, index: self.index as nat, name: self.name@ }
    }
}

/// Where the name `name` leads among `stdio` sessions over `stdio` and `http`
/// sessions over `http`. `None` where the name has not the three parts,
/// where its first part is no transport, where its second part is no number,
/// and where there is no session of that number.
pub open spec fn routed(stdio: nat, http: nat, name: Seq<char>) -> Option<RouteView> {
    match split_name(name) {
        None => None,
        Some((prefix, number, native)) => match (
            Transport::of_prefix(prefix),
            numeral_value(number),
        ) {
            (Some(transport), Some(index)) => {
                let sessions = match transport {
                    Transport::StdIo => stdio,
                    Transport::StreamableHttp => http,
                };
                if index < sessions {
                    Some(RouteView { transport, index, name: native })
                } else {
                    None
                }
            },
            _ => None,
        },
    }
}

/// Takes `name` apart at its first two `_`.
pub fn split(name: &str) -> (parts: Option<(String, String, String)>)
    ensures
        match split_name(name@) {
            Some((prefix, number, native)) => parts matches Some((p, i, n)) && p@ == prefix && i@
                == number && n@ == native,
            None => parts is None,
        },
{
    let n: usize = name.unicode_len();
    let first: usize = find(name, '_', 0);
    assert(name@.skip(0) =~= name@);
    if first >= n {
        return None;
    }
    let second: usize = find(name, '_', first + 1);
    if second >= n {
        return None;
    }
    let ghost rest = name@.skip(first + 1);
    assert(name@.subrange(0, first as int) =~= name@.take(first as int));
    assert(name@.subrange(first + 1, second as int) =~= rest.take(second - first - 1));
    assert(name@.subrange(second + 1, n as int) =~= rest.skip(second - first));
    Some(
        (
            String::from_str(name.substring_char(0, first)),
            String::from_str(name.substring_char(first + 1, second)),
            String::from_str(name.substring_char(second + 1, n)),
        ),
    )
}

/// Reads the first part of a name.
pub fn transport_of(prefix: &str) -> (transport: Option<Transport>)
    ensures
        transport == Transport::of_prefix(prefix@),
{
    if same_text(prefix, "stdio") {
        Some(Transport::StdIo)
    } else if same_text(prefix, "http") {
        Some(Transport::StreamableHttp)
    } else {
        None
    }
}

/// The transports have different prefixes, and no prefix holds a `_`.
pub proof fn lemma_prefixes(transport: Transport)
    ensures
        Transport::of_prefix(transport.prefix()) == Some(transport),
        forall|i: int| 0 <= i < transport.prefix().len() ==> #[trigger] transport.prefix()[i] != '_',
{
    reveal_strlit("stdio");
    reveal_strlit("http");
    assert("stdio"@.len() != "http"@.len());
}

/// A name that was put together comes apart into the parts it was made of,
/// whatever the tool's own name holds.
pub proof fn lemma_split_synthetic(transport: Transport, index: nat, native: Seq<char>)
    ensures
        split_name(synthetic_name(transport, index, native)) == Some(
            (transport.prefix(), decimal_text(index), native),
        ),
{
    let prefix = transport.prefix();
    let number = decimal_text(index);
    let name = synthetic_name(transport, index, native);
    lemma_prefixes(transport);
    lemma_decimal_round_trip(index);
    assert forall|i: int| 0 <= i < prefix.len() implies #[trigger] name[i] != '_' by {
        assert(name[i] == prefix[i]);
    }
    assert(name[prefix.len() as int] == '_');
    lemma_position_is(name, '_', prefix.len());
    let rest = name.skip(prefix.len() as int + 1);
    assert(rest =~= number + seq!['_'] + native);
    assert forall|i: int| 0 <= i < number.len() implies #[trigger] rest[i] != '_' by {
        assert(rest[i] == number[i]);
        assert(is_digit(number[i]));
    }
    assert(rest[number.len() as int] == '_');
    lemma_position_is(rest, '_', number.len());
    assert(name.take(prefix.len() as int) =~= prefix);
    assert(rest.take(number.len() as int) =~= number);
    assert(rest.skip(number.len() as int + 1) =~= native);
}

/// A name that was put together for a session leads back to that session
/// and to the tool's own name, if the session is there, and nowhere if it is
/// not.
pub proof fn lemma_route_of_synthetic(
    stdio: nat,
    http: nat,
    transport: Transport,
    index: nat,
    native: Seq<char>,
)
    ensures
        routed(stdio, http, synthetic_name(transport, index, native)) == if index < (
        match transport {
            Transport::StdIo => stdio,
            Transport::StreamableHttp => http,
        }) {
            Some(RouteView { transport, index, name: native })
        } else {
            None
        },
{
    lemma_split_synthetic(transport, index, native);
    lemma_prefixes(transport);
    lemma_decimal_round_trip(index);
}

/// Tools of different sessions, and different tools of one session, are
/// shown under different names: two names are the same only where
/// transport, session and the tool's own name are.
pub proof fn lemma_synthetic_names_distinct(
    transport: Transport,
    index: nat,
    native: Seq<char>,
    other_transport: Transport,
    other_index: nat,
    other_native: Seq<char>,
)
    requires
        synthetic_name(transport, index, native) == synthetic_name(
            other_transport,
            other_index,
            other_native,
        ),
    ensures
        transport == other_transport,
        index == other_index,
        native == other_native,
{
    lemma_split_synthetic(transport, index, native);
    lemma_split_synthetic(other_transport, other_index, other_native);
    lemma_prefixes(transport);
    lemma_prefixes(other_transport);
    lemma_decimal_round_trip(index);
    lemma_decimal_round_trip(other_index);
}

/// Puts together the name under which the tool `native` of session `index`
/// of `transport` is shown.
pub fn synthetic(transport: Transport, index: usize, native: &str) -> (name: String)
    ensures
        name@ == synthetic_name(transport, index as nat, native@),
{
    proof {
        reveal_strlit("_");
    }
    let mut name = String::from_str(transport.prefix_str());
    name.append("_");
    name.append(to_decimal(index).as_str());
    name.append("_");
    name.append(native);
    assert(name@ =~= synthetic_name(transport, index as nat, native@));
    name
}

/// A session that was opened, with the tools that its server listed under
/// their own names.
pub struct McpSession {
    pub server: McpServer,
    pub tools: Vec<Tool>,
}

/// How many of `sessions` are carried by `transport`.
pub open spec fn sessions_over(sessions: Seq<McpSession>, transport: Transport) -> nat
    decreases sessions.len(),
{
    if sessions.len() == 0 {
        0
    } else {
        sessions_over(sessions.drop_last(), transport) + if sessions.last().server.transport()
            == transport {
            1nat
        } else {
            0nat
        }
    }
}

/// The tools `tools` of session `index` of `transport`, each under the name
/// it is shown by. Description and schema stay as the server gave them.
pub open spec fn renamed(transport: Transport, index: nat, tools: Seq<ToolView>) -> Seq<ToolView> {
    tools.map_values(
        |tool: ToolView| ToolView { name: synthetic_name(transport, index, tool.name), ..tool },
    )
}

/// The tools that a toolbox in front of `sessions` shows: those of the first
/// session first, each session's in the order in which its server listed
/// them. A session is numbered by how many sessions of its transport stand
/// before it.
pub open spec fn bridged(sessions: Seq<McpSession>) -> Seq<ToolView>
    decreases sessions.len(),
{
    if sessions.len() == 0 {
        Seq::empty()
    } else {
        let last = sessions.last();
        let before = sessions.drop_last();
        bridged(before) + renamed(
            last.server.transport(),
            sessions_over(before, last.server.transport()),
            tool_views(last.tools@),
        )
    }
}

/// There are no more sessions of one transport than sessions.
pub proof fn lemma_sessions_over_bounded(sessions: Seq<McpSession>, transport: Transport)
    ensures
        sessions_over(sessions, transport) <= sessions.len(),
    decreases sessions.len(),
{
    if sessions.len() > 0 {
        lemma_sessions_over_bounded(sessions.drop_last(), transport);
    }
}

/// The books of a toolbox in front of several server sessions: how many
/// sessions there are of each transport, and the tools that are shown.
pub struct McpToolBox {
    stdio: usize,
    http: usize,
    tools: Vec<Tool>,
}

impl McpToolBox {
    /// The number of sessions over `stdio`.
    pub closed spec fn stdio_sessions(&self) -> nat {
        self.stdio as nat
    }

    /// The number of sessions over `http`.
    pub closed spec fn http_sessions(&self) -> nat {
        self.http as nat
    }

    /// The tools that are shown, in order.
    pub closed spec fn tools(&self) -> Seq<ToolView> {
        tool_views(self.tools@)
    }

    /// The toolbox in front of `sessions`.
    pub fn new(sessions: Vec<McpSession>) -> (toolbox: McpToolBox)
        ensures
            toolbox.stdio_sessions() == sessions_over(sessions@, Transport::StdIo),
            toolbox.http_sessions() == sessions_over(sessions@, Transport::StreamableHttp),
            toolbox.tools() == bridged(sessions@),
    {
        let mut stdio: usize = 0;
        let mut http: usize = 0;
        let mut tools: Vec<Tool> = Vec::new();
        let mut i: usize = 0;
        assert(sessions@.take(0) =~= Seq::<McpSession>::empty());
        assert(tool_views(tools@) =~= Seq::<ToolView>::empty());
        while i < sessions.len()
            invariant
                i <= sessions@.len(),
                stdio == sessions_over(sessions@.take(i as int), Transport::StdIo),
                http == sessions_over(sessions@.take(i as int), Transport::StreamableHttp),
                tool_views(tools@) == bridged(sessions@.take(i as int)),
            decreases sessions@.len() - i,
        {
            let session = &sessions[i];
            let transport = session.server.transport();
            let index: usize = match transport {
                Transport::StdIo => stdio,
                Transport::StreamableHttp => http,
            };
            let ghost before = sessions@.take(i as int);
            let ghost shown = tool_views(tools@);
            let ghost native = tool_views(session.tools@);
            proof {
                assert(sessions@.take(i + 1).drop_last() =~= before);
                assert(sessions@.take(i + 1).last() == *session);
                lemma_sessions_over_bounded(before, Transport::StdIo);
                lemma_sessions_over_bounded(before, Transport::StreamableHttp);
                assert(renamed(transport, index as nat, native.take(0)) =~= Seq::<
                    ToolView,
                >::empty());
                assert(shown + Seq::<ToolView>::empty() =~= shown);
            }
            let mut j: usize = 0;
            while j < session.tools.len()
                invariant
                    j <= session.tools@.len(),
                    native == tool_views(session.tools@),
                    tool_views(tools@) == shown + renamed(
                        transport,
                        index as nat,
                        native.take(j as int),
                    ),
                decreases session.tools@.len() - j,
            {
                let tool = &session.tools[j];
                let ghost so_far = tool_views(tools@);
                let shown_tool = Tool {
                    name: synthetic(transport, index, tool.name.as_str()),
                    description: match &tool.description {
                        Some(text) => Some(text.clone()),
                        None => None,
                    },
                    schema: match &tool.schema {
                        Some(schema) => Some(schema.clone()),
                        None => None,
                    },
                };
                assert(shown_tool@ == renamed(transport, index as nat, native)[j as int]);
                tools.push(shown_tool);
                assert(tool_views(tools@) =~= so_far.push(shown_tool@));
                assert(renamed(transport, index as nat, native.take(j + 1)) =~= renamed(
                    transport,
                    index as nat,
                    native.take(j as int),
                ).push(shown_tool@));
                j = j + 1;
            }
            assert(native.take(j as int) =~= native);
            match transport {
                Transport::StdIo => {
                    stdio = stdio + 1;
                },
                Transport::StreamableHttp => {
                    http = http + 1;
                },
            }
            i = i + 1;
        }
        assert(sessions@.take(i as int) =~= sessions@);
        McpToolBox { stdio, http, tools }
    }

    /// The tools that are shown. This never fails: the servers were asked
    /// when their sessions were opened.
    pub fn tools_definitions(&self) -> (result: Result<Vec<Tool>, ToolError>)
        ensures
            result matches Ok(tools) && tool_views(tools@) == self.tools(),
    {
        Ok(clone_tools(&self.tools))
    }

    /// Finds where a call of `tool_name` leads: the session, and the name of
    /// the tool at its server. Fails with `NoToolFound` and the name as it
    /// was given where the name leads nowhere.
    pub fn route(&self, tool_name: &str) -> (result: Result<Route, ToolError>)
        ensures
            match routed(self.stdio_sessions(), self.http_sessions(), tool_name@) {
                Some(route) => result matches Ok(found) && found@ == route,
                None => result matches Err(ToolError::NoToolFound(name)) && name@ == tool_name@,
            },
    {
        let parts = split(tool_name);
        let (prefix, number, native) = match parts {
            Some(parts) => parts,
            None => {
                return Err(ToolError::NoToolFound(String::from_str(tool_name)));
            },
        };
        let transport = match transport_of(prefix.as_str()) {
            Some(transport) => transport,
            None => {
                return Err(ToolError::NoToolFound(String::from_str(tool_name)));
            },
        };
        let sessions: usize = match transport {
            Transport::StdIo => self.stdio,
            Transport::StreamableHttp => self.http,
        };
        match parse_index(number.as_str()) {
            Some(index) => {
                if index < sessions {
                    Ok(Route { transport, index, name: native })
                } else {
                    Err(ToolError::NoToolFound(String::from_str(tool_name)))
                }
            },
            None => Err(ToolError::NoToolFound(String::from_str(tool_name))),
        }
    }
}

/// What a call through the toolbox comes to once the server was asked.
/// `reply` is the caller's account of the exchange: the server's answer
/// written as JSON, or the error that writing it gave, or the text of the
/// failure where the exchange itself failed.
pub open spec fn call_text(reply: Result<Result<String, serde_json::Error>, String>) -> Result<
    Seq<char>,
    ToolErrorView,
> {
    match reply {
        Err(failure) => Err(ToolErrorView::Other(failure@)),
        Ok(Ok(answer)) => Ok(answer@),
        Ok(Err(_)) => Ok("Unable to serialize response"@),
    }
}

impl McpToolBox {
    /// Makes the answer to a call out of the exchange with the server: the
    /// server's answer as JSON text, a fixed text where the answer could not
    /// be written as JSON, and `Other` with its text where the exchange
    /// failed.
    pub fn call_tool(reply: Result<Result<String, serde_json::Error>, String>) -> (result: Result<
        String,
        ToolError,
    >)
        ensures
            result_view(result) == call_text(reply),
    {
        match reply {
            Err(failure) => Err(ToolError::Other(failure)),
            Ok(Ok(answer)) => Ok(answer),
            Ok(Err(_)) => Ok(String::from_str("Unable to serialize response")),
        }
    }
}

/// A call that is ready to go to a server: where it leads, and its
/// arguments, a JSON object.
pub struct McpCall {
    pub route: Route,
    pub arguments: serde_json::Value,
}

/// What a call is answered with where its arguments are no JSON object. The
/// model can mend that, so it is told.
pub open spec fn not_an_object() -> ToolErrorView {
    ToolErrorView::LLMError("The arguments of a tool must be a JSON object"@)
}

impl McpToolBox {
    /// Makes a call of `tool_name` with `arguments` ready for its server,
    /// before the server is asked.
    ///
    /// Fails with `NoToolFound` and the name as it was given where the name
    /// leads nowhere; then with `LLMError` where the arguments are no JSON
    /// object, which is all that a server takes.
    pub fn prepare(&self, tool_name: &str, arguments: serde_json::Value) -> (result: Result<
        McpCall,
        ToolError,
    >)
        ensures
            match routed(self.stdio_sessions(), self.http_sessions(), tool_name@) {
                None => result matches Err(ToolError::NoToolFound(name)) && name@ == tool_name@,
                Some(route) => if json_is_object(arguments) {
                    result matches Ok(call) && call.route@ == route && call.arguments == arguments
                } else {
                    result matches Err(error) && error@ == not_an_object()
                },
            },
    {
        let route = match self.route(tool_name) {
            Ok(route) => route,
            Err(error) => {
                return Err(error);
            },
        };
        if is_object(&arguments) {
            Ok(McpCall { route, arguments })
        } else {
            Err(ToolError::LLMError(String::from_str("The arguments of a tool must be a JSON object")))
        }
    }
}

} // verus!
