use agentai::agent::{assemble, conclude, strip_schema, Agent, AgentError, AnswerShape, Step};
use agentai::chat::{ChatMessage, ChatResponse};
use agentai::tool::{Provider, Tool, ToolBox, ToolError, ToolResult};
use serde::Deserialize;
use serde_json::Value;
use std::collections::BTreeMap;

/// An answer with one required field.
#[derive(Debug, PartialEq)]
struct Answer {
    answer: String,
}

impl<'de> Deserialize<'de> for Answer {
    fn deserialize<D: serde::Deserializer<'de>>(deserializer: D) -> Result<Answer, D::Error> {
        let mut members = BTreeMap::<String, String>::deserialize(deserializer)?;
        match members.remove("answer") {
            Some(answer) => Ok(Answer { answer }),
            None => Err(serde::de::Error::missing_field("answer")),
        }
    }
}

fn object(members: &[(&str, Value)]) -> Value {
    let mut map = serde_json::Map::new();
    for (key, value) in members {
        map.insert(key.to_string(), value.clone());
    }
    Value::Object(map)
}

fn answer_schema() -> Value {
    object(&[
        ("$schema", Value::from("https://json-schema.org/draft/2020-12/schema")),
        ("title", Value::from("Answer")),
        ("type", Value::from("object")),
        ("properties", object(&[("answer", object(&[("type", Value::from("string"))]))])),
        ("required", Value::Array(vec![Value::from("answer")])),
    ])
}

fn sent_schema() -> Value {
    object(&[
        ("type", Value::from("object")),
        ("properties", object(&[("answer", object(&[("type", Value::from("string"))]))])),
        ("required", Value::Array(vec![Value::from("answer")])),
    ])
}

struct Named(&'static str);

impl ToolBox for Named {
    fn tools_definitions(&self) -> Result<Vec<Tool>, ToolError> {
        Ok(vec![Tool::new(self.0.to_string())])
    }

    fn call_tool(&self, tool_name: String, _arguments: Value) -> ToolResult {
        Err(ToolError::NoToolFound(tool_name))
    }
}

struct NotReady;

impl ToolBox for NotReady {
    fn tools_definitions(&self) -> Result<Vec<Tool>, ToolError> {
        Err(ToolError::ToolsDefinitionNotReady)
    }

    fn call_tool(&self, tool_name: String, _arguments: Value) -> ToolResult {
        Err(ToolError::NoToolFound(tool_name))
    }
}

#[test]
fn a_structured_answer_is_read_against_its_shape() {
    let mut agent = Agent::new("system");
    agent.start("What is the answer?", AnswerShape::Json(answer_schema()));
    let response = ChatResponse { text: Some("{\"answer\":\"42\"}".to_string()), tool_calls: None };
    let text = match agent.advance(response).unwrap() {
        Step::Answer(text) => text,
        Step::Continue => panic!("the conversation should have ended"),
    };
    assert_eq!(text, "{\"answer\":\"42\"}");
    let answer: Answer = conclude(serde_json::from_str(&text)).unwrap();
    assert_eq!(answer.answer, "42");
}

#[test]
fn a_malformed_answer_fails_the_conversation() {
    let mut agent = Agent::new("system");
    agent.start("What is the answer?", AnswerShape::Json(answer_schema()));
    let response = ChatResponse { text: Some("{\"answr\":\"42\"}".to_string()), tool_calls: None };
    let text = match agent.advance(response).unwrap() {
        Step::Answer(text) => text,
        Step::Continue => panic!("the conversation should have ended"),
    };
    let result: Result<Answer, AgentError> = conclude(serde_json::from_str(&text));
    assert!(matches!(result, Err(AgentError::MalformedFinalAnswer(_))));
    assert_eq!(
        agent.history()[2],
        ChatMessage::assistant("{\"answr\":\"42\"}".to_string())
    );
    let result: Result<Answer, AgentError> = conclude(serde_json::from_str("not json"));
    assert!(matches!(result, Err(AgentError::MalformedFinalAnswer(_))));
}

#[test]
fn schema_identifier_and_title_are_not_sent() {
    assert_eq!(strip_schema(answer_schema()), sent_schema());
    assert_eq!(strip_schema(sent_schema()), sent_schema());
    let only_title = object(&[("title", Value::from("T"))]);
    assert_eq!(strip_schema(only_title), object(&[]));
    let nested = object(&[("properties", object(&[("title", Value::from("kept"))]))]);
    assert_eq!(strip_schema(nested.clone()), nested);
}

#[test]
fn a_schema_that_is_no_object_is_sent_as_it_is() {
    for schema in [Value::Bool(true), Value::Null, Value::from("title"), Value::Array(vec![])] {
        assert_eq!(strip_schema(schema.clone()), schema);
    }
}

#[test]
fn the_schema_goes_with_every_request_of_the_conversation() {
    let mut agent = Agent::new("system");
    agent.start("go", AnswerShape::Json(answer_schema()));
    for _ in 0..2 {
        let request = agent.request().unwrap();
        let format = request.response_format.unwrap();
        assert_eq!(format.name, "ResponseFormat");
        assert_eq!(format.schema, sent_schema());
        assert!(agent.advance(ChatResponse { text: None, tool_calls: Some(vec![]) }).is_ok());
    }
    agent.start("again, in words", AnswerShape::Text);
    assert!(agent.request().unwrap().response_format.is_none());
}

#[test]
fn tools_are_left_out_of_the_request_where_there_are_none() {
    let mut agent = Agent::new("system");
    agent.start("go", AnswerShape::Text);
    let request = agent.request().unwrap();
    assert_eq!(request.tools, None);
    assert_eq!(&request.messages, agent.history());

    agent.add_tools(vec![Provider::new(Named("a")), Provider::new(Named("b"))]);
    agent.add_tool(Named("a"));
    let request = agent.request().unwrap();
    let names: Vec<String> = request.tools.unwrap().into_iter().map(|tool| tool.name).collect();
    assert_eq!(names, vec!["a", "b", "a"]);
}

#[test]
fn a_toolbox_that_cannot_list_its_tools_fails_the_request() {
    let mut agent = Agent::new("system");
    agent.add_tool(Named("a"));
    agent.add_tool(NotReady);
    agent.start("go", AnswerShape::Text);
    assert_eq!(agent.request(), Err(AgentError::Tools(ToolError::ToolsDefinitionNotReady)));
    assert_eq!(agent.history().len(), 2);
}

#[test]
fn a_request_is_put_together_from_its_parts() {
    let history = vec![ChatMessage::system("s".to_string()), ChatMessage::user("u".to_string())];
    let request = assemble(&history, Ok(vec![]), &None).unwrap();
    assert_eq!(request.messages, history);
    assert_eq!(request.tools, None);
    assert!(request.response_format.is_none());

    let schema = Some(Value::from(1));
    let request = assemble(&history, Ok(vec![Tool::new("t".to_string())]), &schema).unwrap();
    assert_eq!(request.tools, Some(vec![Tool::new("t".to_string())]));
    assert_eq!(request.response_format.unwrap().schema, Value::from(1));

    assert_eq!(
        assemble(&history, Err(ToolError::ExecutionError), &schema),
        Err(AgentError::Tools(ToolError::ExecutionError))
    );
}

#[test]
fn errors_of_a_conversation_are_reported_in_these_words() {
    assert_eq!(
        AgentError::Tools(ToolError::ToolsDefinitionNotReady).message(),
        "Tool definitions are not ready"
    );
    assert_eq!(AgentError::MalformedFinalAnswer("expected value".to_string()).message(), "expected value");
    assert_eq!(
        AgentError::Upstream("Missing string in response".to_string()).message(),
        "Missing string in response"
    );
    let result: Result<Answer, AgentError> = conclude(serde_json::from_str("{\"answr\":\"42\"}"));
    let text = result.unwrap_err().message();
    assert!(text.contains("missing field `answer`"), "{}", text);
}

#[test]
fn a_request_can_be_made_with_the_tools_that_the_caller_listed() {
    let mut agent = Agent::new("system");
    agent.start("go", AnswerShape::Json(answer_schema()));
    let request = agent.request_with(Ok(vec![Tool::new("t".to_string())])).unwrap();
    assert_eq!(&request.messages, agent.history());
    assert_eq!(request.tools, Some(vec![Tool::new("t".to_string())]));
    assert_eq!(request.response_format.unwrap().schema, sent_schema());
    assert_eq!(agent.request_with(Ok(vec![])).unwrap().tools, None);
    assert_eq!(
        agent.request_with(Err(ToolError::ToolsDefinitionNotReady)),
        Err(AgentError::Tools(ToolError::ToolsDefinitionNotReady))
    );
}
