use agentai::tool::{
    is_claim, next_to_ask, next_to_list, Provider, Tool, ToolBox, ToolBoxSet, ToolError,
    ToolResult,
};
use serde_json::Value;
use std::sync::atomic::{AtomicUsize, Ordering};
use std::sync::Arc;

/// A toolbox with one tool, which answers with a fixed text and counts how
/// often it was asked.
struct Fixed {
    tool: &'static str,
    answer: Result<&'static str, ToolError>,
    asked: Arc<AtomicUsize>,
}

impl Fixed {
    fn new(tool: &'static str, answer: Result<&'static str, ToolError>) -> (Fixed, Arc<AtomicUsize>) {
        let asked = Arc::new(AtomicUsize::new(0));
        (Fixed { tool, answer, asked: asked.clone() }, asked)
    }
}

impl ToolBox for Fixed {
    fn tools_definitions(&self) -> Result<Vec<Tool>, ToolError> {
        Ok(vec![Tool::new(self.tool.to_string())])
    }

    fn call_tool(&self, tool_name: String, _arguments: Value) -> ToolResult {
        self.asked.fetch_add(1, Ordering::SeqCst);
        if tool_name == self.tool {
            self.answer.clone().map(str::to_string)
        } else {
            Err(ToolError::NoToolFound(tool_name))
        }
    }
}

/// A toolbox that cannot list its tools and has none.
struct NotReady;

impl ToolBox for NotReady {
    fn tools_definitions(&self) -> Result<Vec<Tool>, ToolError> {
        Err(ToolError::ToolsDefinitionNotReady)
    }

    fn call_tool(&self, tool_name: String, _arguments: Value) -> ToolResult {
        Err(ToolError::NoToolFound(tool_name))
    }
}

/// A toolbox that answers with its arguments.
struct Echo;

impl ToolBox for Echo {
    fn tools_definitions(&self) -> Result<Vec<Tool>, ToolError> {
        Ok(vec![Tool::new("echo".to_string())])
    }

    fn call_tool(&self, tool_name: String, arguments: Value) -> ToolResult {
        if tool_name == "echo" {
            Ok(arguments.to_string())
        } else {
            Err(ToolError::NoToolFound(tool_name))
        }
    }
}

fn names(tools: &[Tool]) -> Vec<&str> {
    tools.iter().map(|tool| tool.name.as_str()).collect()
}

#[test]
fn an_empty_set_lists_nothing_and_finds_nothing() {
    let set = ToolBoxSet::new();
    assert_eq!(set.len(), 0);
    assert_eq!(set.tools_definitions(), Ok(vec![]));
    assert_eq!(
        set.call_tool("ghost".to_string(), Value::Null),
        Err(ToolError::NoToolFound("ghost".to_string()))
    );
}

#[test]
fn the_first_toolbox_that_claims_a_name_wins() {
    let (first, first_asked) = Fixed::new("x", Ok("first"));
    let (second, second_asked) = Fixed::new("x", Ok("second"));
    let mut set = ToolBoxSet::new();
    set.add_tool(first);
    set.add_tool(second);
    for arguments in [Value::Null, Value::from(7), Value::from("text"), Value::Array(vec![])] {
        assert_eq!(set.call_tool("x".to_string(), arguments), Ok("first".to_string()));
    }
    assert_eq!(first_asked.load(Ordering::SeqCst), 4);
    assert_eq!(second_asked.load(Ordering::SeqCst), 0);
}

#[test]
fn the_order_of_registration_decides_not_the_name() {
    let (a, _) = Fixed::new("x", Ok("from a"));
    let (b, _) = Fixed::new("x", Ok("from b"));
    let mut set = ToolBoxSet::new();
    set.add_tool(b);
    set.add_tool(a);
    assert_eq!(set.call_tool("x".to_string(), Value::Null), Ok("from b".to_string()));
}

#[test]
fn a_toolbox_without_the_tool_is_passed_over() {
    let (other, other_asked) = Fixed::new("y", Ok("y"));
    let (wanted, wanted_asked) = Fixed::new("x", Ok("x"));
    let (never, never_asked) = Fixed::new("z", Ok("z"));
    let mut set = ToolBoxSet::new();
    set.add_tool(other);
    set.add_tool(wanted);
    set.add_tool(never);
    assert_eq!(set.len(), 3);
    assert_eq!(set.call_tool("x".to_string(), Value::Null), Ok("x".to_string()));
    assert_eq!(other_asked.load(Ordering::SeqCst), 1);
    assert_eq!(wanted_asked.load(Ordering::SeqCst), 1);
    assert_eq!(never_asked.load(Ordering::SeqCst), 0);
}

#[test]
fn an_error_other_than_not_found_ends_the_search() {
    let (failing, _) = Fixed::new("x", Err(ToolError::ExecutionError));
    let (working, working_asked) = Fixed::new("x", Ok("fine"));
    let mut set = ToolBoxSet::new();
    set.add_tool(failing);
    set.add_tool(working);
    assert_eq!(set.call_tool("x".to_string(), Value::Null), Err(ToolError::ExecutionError));
    assert_eq!(working_asked.load(Ordering::SeqCst), 0);
}

#[test]
fn a_name_that_nobody_claims_is_not_found_under_that_name() {
    let (a, a_asked) = Fixed::new("x", Ok("x"));
    let (b, b_asked) = Fixed::new("y", Ok("y"));
    let mut set = ToolBoxSet::new();
    set.add_tool(a);
    set.add_tool(b);
    assert_eq!(
        set.call_tool("ghost".to_string(), Value::Null),
        Err(ToolError::NoToolFound("ghost".to_string()))
    );
    assert_eq!(a_asked.load(Ordering::SeqCst), 1);
    assert_eq!(b_asked.load(Ordering::SeqCst), 1);
}

#[test]
fn arguments_reach_the_toolbox_as_they_were_given() {
    let mut set = ToolBoxSet::new();
    set.add_tool(NotReady);
    set.add_tool(Echo);
    let mut members = serde_json::Map::new();
    members.insert("a".to_string(), Value::from(2));
    let arguments = Value::Object(members);
    assert_eq!(set.call_tool("echo".to_string(), arguments), Ok("{\"a\":2}".to_string()));
}

#[test]
fn tools_are_listed_in_the_order_of_the_toolboxes_and_not_deduplicated() {
    let (a, _) = Fixed::new("x", Ok("a"));
    let (b, _) = Fixed::new("y", Ok("b"));
    let (c, _) = Fixed::new("x", Ok("c"));
    let mut set = ToolBoxSet::new();
    set.add_tool(a);
    set.add_tool(b);
    set.add_tool(Echo);
    set.add_tool(c);
    let tools = set.tools_definitions().unwrap();
    assert_eq!(names(&tools), vec!["x", "y", "echo", "x"]);
}

#[test]
fn a_toolbox_that_cannot_list_its_tools_fails_the_listing() {
    let (a, _) = Fixed::new("x", Ok("a"));
    let mut set = ToolBoxSet::new();
    set.add_tool(a);
    set.add_tool(NotReady);
    assert_eq!(set.tools_definitions(), Err(ToolError::ToolsDefinitionNotReady));
}

#[test]
fn a_set_is_a_toolbox_and_can_stand_in_a_set() {
    let (a, _) = Fixed::new("x", Ok("inner"));
    let mut inner = ToolBoxSet::new();
    inner.add_tool(a);
    let (b, _) = Fixed::new("x", Ok("outer"));
    let mut outer = ToolBoxSet::new();
    outer.add_provider(Provider::new(inner));
    outer.add_tool(b);
    assert_eq!(outer.call_tool("x".to_string(), Value::Null), Ok("inner".to_string()));
    assert_eq!(names(&outer.tools_definitions().unwrap()), vec!["x", "x"]);
}

#[test]
fn resolve_takes_the_first_outcome_that_is_not_not_found() {
    let not_found = |name: &str| Err(ToolError::NoToolFound(name.to_string()));
    assert_eq!(
        ToolBoxSet::resolve(vec![], "t".to_string()),
        Err(ToolError::NoToolFound("t".to_string()))
    );
    assert_eq!(
        ToolBoxSet::resolve(vec![not_found("a"), not_found("b")], "t".to_string()),
        Err(ToolError::NoToolFound("t".to_string()))
    );
    assert_eq!(
        ToolBoxSet::resolve(
            vec![not_found("a"), Ok("one".to_string()), Ok("two".to_string())],
            "t".to_string()
        ),
        Ok("one".to_string())
    );
    assert_eq!(
        ToolBoxSet::resolve(
            vec![Err(ToolError::LLMError("bad".to_string())), Ok("two".to_string())],
            "t".to_string()
        ),
        Err(ToolError::LLMError("bad".to_string()))
    );
    assert_eq!(
        ToolBoxSet::resolve(
            vec![not_found("a"), Err(ToolError::ToolsDefinitionNotReady)],
            "t".to_string()
        ),
        Err(ToolError::ToolsDefinitionNotReady)
    );
}

#[test]
fn merge_joins_the_listings_or_fails_with_the_first_failure() {
    let tool = |name: &str| Tool::new(name.to_string());
    assert_eq!(ToolBoxSet::merge(vec![]), Ok(vec![]));
    assert_eq!(
        ToolBoxSet::merge(vec![Ok(vec![tool("a"), tool("b")]), Ok(vec![]), Ok(vec![tool("a")])]),
        Ok(vec![tool("a"), tool("b"), tool("a")])
    );
    assert_eq!(
        ToolBoxSet::merge(vec![
            Ok(vec![tool("a")]),
            Err(ToolError::ToolsDefinitionNotReady),
            Err(ToolError::ExecutionError),
        ]),
        Err(ToolError::ToolsDefinitionNotReady)
    );
}

#[test]
fn every_outcome_but_not_found_is_a_claim() {
    assert!(is_claim(&Ok("text".to_string())));
    assert!(is_claim(&Err(ToolError::ToolsDefinitionNotReady)));
    assert!(is_claim(&Err(ToolError::LLMError("x".to_string()))));
    assert!(is_claim(&Err(ToolError::ExecutionError)));
    assert!(is_claim(&Err(ToolError::Other("x".to_string()))));
    assert!(!is_claim(&Err(ToolError::NoToolFound("x".to_string()))));
}

#[test]
fn errors_are_reported_in_these_words() {
    assert_eq!(ToolError::ToolsDefinitionNotReady.message(), "Tool definitions are not ready");
    assert_eq!(
        ToolError::NoToolFound("ghost".to_string()).message(),
        "Tool named 'ghost' not found"
    );
    assert_eq!(ToolError::NoToolFound(String::new()).message(), "Tool named '' not found");
    assert_eq!(ToolError::LLMError("missing parameter".to_string()).message(), "missing parameter");
    assert_eq!(ToolError::ExecutionError.message(), "Tool execution failed");
    assert_eq!(ToolError::Other("disk full".to_string()).message(), "disk full");
}

#[test]
fn a_tool_is_described_by_name_description_and_schema() {
    let schema = Value::from("schema");
    let tool = Tool::new("add".to_string())
        .with_description("Adds".to_string())
        .with_schema(schema.clone());
    assert_eq!(tool.name, "add");
    assert_eq!(tool.description, Some("Adds".to_string()));
    assert_eq!(tool.schema, Some(schema));
    assert_eq!(tool.clone(), tool);
    let bare = Tool::new("bare".to_string());
    assert_eq!(bare.description, None);
    assert_eq!(bare.schema, None);
}

#[test]
fn a_tool_that_failed_is_an_execution_error_unless_it_speaks_to_the_model() {
    assert_eq!(agentai::tool::executed(Ok("out".to_string())), Ok("out".to_string()));
    for error in [
        ToolError::Other("Unknown timezone: X".to_string()),
        ToolError::NoToolFound("x".to_string()),
        ToolError::ToolsDefinitionNotReady,
        ToolError::ExecutionError,
    ] {
        assert_eq!(agentai::tool::executed(Err(error)), Err(ToolError::ExecutionError));
    }
    assert_eq!(
        agentai::tool::executed(Err(ToolError::LLMError("Request to u failed".to_string()))),
        Err(ToolError::LLMError("Request to u failed".to_string()))
    );
    assert_eq!(
        agentai::tool::misfit("missing field `date`".to_string()),
        ToolError::LLMError("missing field `date`".to_string())
    );
}

#[test]
fn toolboxes_are_asked_in_turn_until_one_claims_the_call() {
    let not_found = || Err(ToolError::NoToolFound("x".to_string()));
    assert_eq!(next_to_ask(0, &vec![]), None);
    assert_eq!(next_to_ask(3, &vec![]), Some(0));
    assert_eq!(next_to_ask(3, &vec![not_found()]), Some(1));
    assert_eq!(next_to_ask(3, &vec![not_found(), not_found()]), Some(2));
    assert_eq!(next_to_ask(3, &vec![not_found(), not_found(), not_found()]), None);
    assert_eq!(next_to_ask(3, &vec![Ok("done".to_string())]), None);
    assert_eq!(next_to_ask(3, &vec![not_found(), Err(ToolError::ExecutionError)]), None);
    assert_eq!(next_to_ask(1, &vec![not_found(), not_found()]), None);
}

#[test]
fn toolboxes_are_listed_in_turn_until_one_fails() {
    assert_eq!(next_to_list(0, &vec![]), None);
    assert_eq!(next_to_list(2, &vec![]), Some(0));
    assert_eq!(next_to_list(2, &vec![Ok(vec![])]), Some(1));
    assert_eq!(next_to_list(2, &vec![Ok(vec![]), Ok(vec![])]), None);
    assert_eq!(next_to_list(2, &vec![Err(ToolError::ToolsDefinitionNotReady)]), None);
    assert_eq!(next_to_list(3, &vec![Ok(vec![]), Err(ToolError::NoToolFound("x".to_string()))]), None);
}
