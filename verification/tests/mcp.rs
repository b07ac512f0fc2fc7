use agentai::tool::mcp::{
    split, synthetic, transport_of, McpCall, McpServer, McpSession, McpToolBox, Route, Transport,
};
use agentai::tool::{Tool, ToolError};
use serde_json::Value;

fn stdio_server() -> McpServer {
    McpServer::new_std_io(
        "uvx".to_string(),
        vec![
            "mcp-server-time".to_string(),
            "--local-timezone".to_string(),
            "UTC".to_string(),
        ],
    )
}

fn http_server() -> McpServer {
    McpServer::new_streamable_http("http://localhost:8000/mcp".to_string())
}

fn tool(name: &str) -> Tool {
    Tool::new(name.to_string())
        .with_description(format!("The tool {}", name))
        .with_schema(Value::from(name))
}

fn session(server: McpServer, names: &[&str]) -> McpSession {
    McpSession { server, tools: names.iter().map(|name| tool(name)).collect() }
}

fn names(toolbox: &McpToolBox) -> Vec<String> {
    toolbox.tools_definitions().unwrap().into_iter().map(|tool| tool.name).collect()
}

fn route(toolbox: &McpToolBox, name: &str) -> Result<(Transport, usize, String), ToolError> {
    toolbox.route(name).map(|Route { transport, index, name }| (transport, index, name))
}

fn not_found(name: &str) -> Result<(Transport, usize, String), ToolError> {
    Err(ToolError::NoToolFound(name.to_string()))
}

#[test]
fn servers_are_described_by_how_they_are_reached() {
    match stdio_server() {
        McpServer::StdIo(server) => {
            assert_eq!(server.command, "uvx");
            assert_eq!(server.args, vec!["mcp-server-time", "--local-timezone", "UTC"]);
        }
        McpServer::StreamableHttp(_) => panic!("a stdio server was asked for"),
    }
    match http_server() {
        McpServer::StreamableHttp(server) => assert_eq!(server.url, "http://localhost:8000/mcp"),
        McpServer::StdIo(_) => panic!("an http server was asked for"),
    }
    assert_eq!(stdio_server().transport(), Transport::StdIo);
    assert_eq!(http_server().transport(), Transport::StreamableHttp);
    assert_eq!(Transport::StdIo.prefix_str(), "stdio");
    assert_eq!(Transport::StreamableHttp.prefix_str(), "http");
}

#[test]
fn tools_of_the_first_stdio_session_are_prefixed_stdio_0() {
    let toolbox = McpToolBox::new(vec![session(
        stdio_server(),
        &["get_current_time", "convert_time"],
    )]);
    let tool_defs = toolbox.tools_definitions().unwrap();
    assert!(tool_defs.len() >= 1);
    assert!(tool_defs.iter().all(|tool| tool.name.starts_with("stdio_0_")));
    assert_eq!(names(&toolbox), vec!["stdio_0_get_current_time", "stdio_0_convert_time"]);
    assert_eq!(tool_defs[1].description, Some("The tool convert_time".to_string()));
    assert_eq!(tool_defs[1].schema, Some(Value::from("convert_time")));
}

#[test]
fn two_sessions_with_the_same_tool_show_it_under_two_names() {
    let toolbox = McpToolBox::new(vec![
        session(stdio_server(), &["time"]),
        session(stdio_server(), &["time"]),
    ]);
    assert_eq!(names(&toolbox), vec!["stdio_0_time", "stdio_1_time"]);
    assert_eq!(route(&toolbox, "stdio_0_time"), Ok((Transport::StdIo, 0, "time".to_string())));
    assert_eq!(route(&toolbox, "stdio_1_time"), Ok((Transport::StdIo, 1, "time".to_string())));
    assert_eq!(route(&toolbox, "stdio_2_time"), not_found("stdio_2_time"));
}

#[test]
fn sessions_are_numbered_within_their_transport() {
    let toolbox = McpToolBox::new(vec![
        session(http_server(), &["a"]),
        session(stdio_server(), &["a", "b"]),
        session(http_server(), &[]),
        session(http_server(), &["a"]),
        session(stdio_server(), &["c"]),
    ]);
    assert_eq!(
        names(&toolbox),
        vec!["http_0_a", "stdio_0_a", "stdio_0_b", "http_2_a", "stdio_1_c"]
    );
    assert_eq!(route(&toolbox, "http_2_a"), Ok((Transport::StreamableHttp, 2, "a".to_string())));
    assert_eq!(route(&toolbox, "http_1_anything"), Ok((
        Transport::StreamableHttp,
        1,
        "anything".to_string()
    )));
    assert_eq!(route(&toolbox, "http_3_a"), not_found("http_3_a"));
    assert_eq!(route(&toolbox, "stdio_2_c"), not_found("stdio_2_c"));
}

#[test]
fn every_shown_name_leads_back_to_its_session_and_tool() {
    let sessions = vec![
        session(stdio_server(), &["time", "convert_time", "", "_", "a_b_c"]),
        session(http_server(), &["time", "stdio_0_time"]),
        session(stdio_server(), &["time"]),
    ];
    let expected = vec![
        (Transport::StdIo, 0, "time"),
        (Transport::StdIo, 0, "convert_time"),
        (Transport::StdIo, 0, ""),
        (Transport::StdIo, 0, "_"),
        (Transport::StdIo, 0, "a_b_c"),
        (Transport::StreamableHttp, 0, "time"),
        (Transport::StreamableHttp, 0, "stdio_0_time"),
        (Transport::StdIo, 1, "time"),
    ];
    let toolbox = McpToolBox::new(sessions);
    let shown = names(&toolbox);
    assert_eq!(shown.len(), expected.len());
    for (name, (transport, index, native)) in shown.iter().zip(expected) {
        assert_eq!(route(&toolbox, name), Ok((transport, index, native.to_string())));
    }
    let mut distinct = shown.clone();
    distinct.sort();
    distinct.dedup();
    assert_eq!(distinct.len(), shown.len());
}

#[test]
fn names_that_lead_nowhere_are_not_found() {
    let toolbox = McpToolBox::new(vec![session(stdio_server(), &["time"])]);
    for name in [
        "non_existent_tool",
        "",
        "time",
        "stdio",
        "stdio_0",
        "stdio_",
        "_0_time",
        "stdio__time",
        "stdio_x_time",
        "stdio_-1_time",
        "stdio_1_time",
        "stdio_18446744073709551616_time",
        "STDIO_0_time",
        "sse_0_time",
        "http_0_time",
        " stdio_0_time",
    ] {
        assert_eq!(route(&toolbox, name), not_found(name), "{:?}", name);
    }
    let empty = McpToolBox::new(vec![]);
    assert_eq!(names(&empty), Vec::<String>::new());
    assert_eq!(route(&empty, "stdio_0_time"), not_found("stdio_0_time"));
}

#[test]
fn a_session_number_may_carry_a_plus_or_leading_zeros() {
    let toolbox = McpToolBox::new(vec![session(stdio_server(), &["time"])]);
    assert_eq!(route(&toolbox, "stdio_+0_time"), Ok((Transport::StdIo, 0, "time".to_string())));
    assert_eq!(route(&toolbox, "stdio_000_time"), Ok((Transport::StdIo, 0, "time".to_string())));
}

#[test]
fn a_tool_that_is_not_listed_is_still_routed_to_its_session() {
    let toolbox = McpToolBox::new(vec![session(stdio_server(), &["time"])]);
    assert_eq!(
        route(&toolbox, "stdio_0_non_existent_tool"),
        Ok((Transport::StdIo, 0, "non_existent_tool".to_string()))
    );
}

#[test]
fn names_are_put_together_and_taken_apart_at_the_first_two_underscores() {
    assert_eq!(synthetic(Transport::StdIo, 0, "time"), "stdio_0_time");
    assert_eq!(synthetic(Transport::StreamableHttp, 12, "a_b"), "http_12_a_b");
    assert_eq!(synthetic(Transport::StdIo, 7, ""), "stdio_7_");
    assert_eq!(
        split("http_12_a_b"),
        Some(("http".to_string(), "12".to_string(), "a_b".to_string()))
    );
    assert_eq!(split("__"), Some((String::new(), String::new(), String::new())));
    assert_eq!(split("a_b"), None);
    assert_eq!(split("ab"), None);
    assert_eq!(split(""), None);
    assert_eq!(transport_of("stdio"), Some(Transport::StdIo));
    assert_eq!(transport_of("http"), Some(Transport::StreamableHttp));
    assert_eq!(transport_of("https"), None);
    assert_eq!(transport_of(""), None);
}

#[test]
fn the_answer_of_a_server_goes_back_as_json_text() {
    assert_eq!(
        McpToolBox::call_tool(Ok(Ok("[{\"type\":\"text\",\"text\":\"12:00\"}]".to_string()))),
        Ok("[{\"type\":\"text\",\"text\":\"12:00\"}]".to_string())
    );
    let failure = serde_json::from_str::<String>("not json").unwrap_err();
    assert_eq!(
        McpToolBox::call_tool(Ok(Err(failure))),
        Ok("Unable to serialize response".to_string())
    );
    assert_eq!(
        McpToolBox::call_tool(Err("connection closed".to_string())),
        Err(ToolError::Other("connection closed".to_string()))
    );
}

fn arguments_object() -> Value {
    let mut members = serde_json::Map::new();
    members.insert("timezone".to_string(), Value::from("Europe/Warsaw"));
    Value::Object(members)
}

#[test]
fn a_call_with_a_json_object_is_ready_for_its_server() {
    let toolbox = McpToolBox::new(vec![session(stdio_server(), &["time"])]);
    let McpCall { route, arguments } =
        toolbox.prepare("stdio_0_get_current_time", arguments_object()).unwrap();
    assert_eq!(
        (route.transport, route.index, route.name),
        (Transport::StdIo, 0, "get_current_time".to_string())
    );
    assert_eq!(arguments, arguments_object());
    let empty = toolbox.prepare("stdio_0_time", Value::Object(serde_json::Map::new())).unwrap();
    assert_eq!(empty.arguments, Value::Object(serde_json::Map::new()));
}

#[test]
fn arguments_that_are_no_json_object_are_told_to_the_model() {
    let toolbox = McpToolBox::new(vec![session(stdio_server(), &["time"])]);
    for arguments in [
        Value::Null,
        Value::from(5),
        Value::from("x"),
        Value::Bool(true),
        Value::Array(vec![Value::from(1)]),
    ] {
        match toolbox.prepare("stdio_0_time", arguments) {
            Err(error) => assert_eq!(
                error,
                ToolError::LLMError("The arguments of a tool must be a JSON object".to_string())
            ),
            Ok(_) => panic!("the call should have been refused"),
        }
    }
}

#[test]
fn a_name_that_leads_nowhere_is_not_found_whatever_the_arguments() {
    let toolbox = McpToolBox::new(vec![session(stdio_server(), &["time"])]);
    for arguments in [Value::Null, arguments_object()] {
        match toolbox.prepare("stdio_1_time", arguments) {
            Err(error) => assert_eq!(error, ToolError::NoToolFound("stdio_1_time".to_string())),
            Ok(_) => panic!("the call should have been refused"),
        }
    }
}
