//! The agent: a conversation with a model that may ask for tools to be run
//! and ends in an answer.
//!
//! An [`Agent`] owns the history of the conversation and the toolboxes. It
//! does not talk to the model itself. The caller runs the loop:
//!
//! 1. [`Agent::start`] takes the user's prompt;
//! 2. [`Agent::request`] says what to send to the chat client;
//! 3. [`Agent::advance`] takes what came back. Where the model asked for
//!    tools, they are run, their answers go into the history, and the loop
//!    goes back to 2. Where the model answered in text, the loop ends with
//!    that text, ready to be read as JSON.
//!
//! The history only grows. It is kept when the conversation ends, and also
//! when it fails, so that the caller can look at it and go on.

use crate::chat::{
    assistant_message, call_views, clone_messages, message_views, system_message,
    tool_calls_message, tool_response_message, user_message, ChatMessage, ChatMessageView,
    ChatRequest, ChatResponse, ChatRole, JsonSpec, ToolCall, ToolCallView, ToolResponse,
};
use crate::json::{
    json_is_object, json_members, json_quoted, json_string_value, quote, read_string,
    remove_member,
};
use crate::text::{trim, trimmed};
use crate::tool::{
    dispatched, listed_in_turn, listing_view, merged, result_view, tool_views, Listing,
    ListingView, Provider, ToolBox, ToolBoxSet, ToolError, ToolResult, ToolResultView,
};
use vstd::prelude::*;

verus! {

/// Why a conversation could not go on.
#[derive(Debug, PartialEq)]
pub enum AgentError {
    /// A toolbox could not list its tools.
    Tools(ToolError),
    /// The model's last word could not be read as the answer that was asked
    /// for. The text is the reader's account.
    MalformedFinalAnswer(String),
    /// The chat client failed, or answered with neither text nor tool calls.
    Upstream(String),
}

impl AgentError {
    /// The text by which the error is reported.
    pub open spec fn spec_message(self) -> Seq<char> {
        match self {
            AgentError::Tools(error) => error@.message(),
            AgentError::MalformedFinalAnswer(text) => text@,
            AgentError::Upstream(text) => text@,
        }
    }

    /// The text by which the error is reported.
    pub fn message(&self) -> (text: String)
        ensures
            text@ == self.spec_message(),
    {
        match self {
            AgentError::Tools(error) => error.message(),
            AgentError::MalformedFinalAnswer(text) => text.clone(),
            AgentError::Upstream(text) => text.clone(),
        }
    }
}

/// The form of the answer that the caller asks for.
#[derive(Debug, PartialEq)]
pub enum AnswerShape {
    /// Text, as the model gives it.
    Text,
    /// A JSON document that meets this schema.
    Json(serde_json::Value),
}

/// Where the conversation stands after the model has spoken.
#[derive(Debug, PartialEq)]
pub enum Step {
    /// Tools were run. The model is to be asked again.
    Continue,
    /// The model has answered. This is its answer as JSON text: as the model
    /// gave it where a JSON document was asked for, and as a JSON string
    /// where text was.
    Answer(String),
}

/// What goes into the history for a tool call that came to `outcome`: the
/// tool's output, or the text of the error.
pub open spec fn payload(outcome: ToolResultView) -> Seq<char> {
    match outcome {
        Ok(output) => output,
        Err(error) => error.message(),
    }
}

/// The answers to `calls`, one message for each call and in the order of the
/// calls, where the calls came to `outcomes`.
pub open spec fn responses(calls: Seq<ToolCallView>, outcomes: Seq<ToolResultView>) -> Seq<
    ChatMessageView,
> {
    Seq::new(
        calls.len(),
        |i: int| tool_response_message(calls[i].call_id, payload(outcomes[i])),
    )
}

/// What one round of tool calls adds to the history: the model's message
/// with the calls, then the answers.
pub open spec fn turn(calls: Seq<ToolCallView>, outcomes: Seq<ToolResultView>) -> Seq<
    ChatMessageView,
> {
    seq![tool_calls_message(calls)] + responses(calls, outcomes)
}

/// A round of tool calls: each call with what it came to.
pub type Round = Vec<(ToolCall, ToolResult)>;

/// The calls of a round, in order.
pub open spec fn asked(round: Seq<(ToolCall, ToolResult)>) -> Seq<ToolCallView> {
    round.map_values(|pair: (ToolCall, ToolResult)| pair.0@)
}

/// The outcomes of a round, in the order of the calls.
pub open spec fn given(round: Seq<(ToolCall, ToolResult)>) -> Seq<ToolResultView> {
    round.map_values(|pair: (ToolCall, ToolResult)| result_view(pair.1))
}

/// Whether the message at `at + 1 + k` of `history` answers the `k`-th call
/// of the message at `at`.
pub open spec fn answers(history: Seq<ChatMessageView>, at: int, k: int) -> bool {
    let calls = history[at].content->ToolCalls_0;
    let answer = history[at + 1 + k];
    &&& answer.role == ChatRole::Tool
    &&& answer.content is ToolResponse
    &&& answer.content->ToolResponse_call_id == calls[k].call_id
}

/// Whether the calls of the message at `at` are answered: the messages
/// behind it are the answers, one for each call and in the order of the
/// calls.
pub open spec fn round_answered(history: Seq<ChatMessageView>, at: int) -> bool {
    let calls = history[at].content->ToolCalls_0;
    &&& at + calls.len() < history.len()
    &&& forall|k: int| 0 <= k < calls.len() ==> #[trigger] answers(history, at, k)
}

/// Whether every tool call in `history` is answered, so that the history can
/// be sent to the model.
pub open spec fn answered(history: Seq<ChatMessageView>) -> bool {
    forall|at: int|
        0 <= at < history.len() && (#[trigger] history[at]).content is ToolCalls
            ==> round_answered(history, at)
}

/// A history in which every call is answered stays so when a message
/// without calls is added.
pub proof fn lemma_answered_push(history: Seq<ChatMessageView>, message: ChatMessageView)
    requires
        answered(history),
        !(message.content is ToolCalls),
    ensures
        answered(history.push(message)),
{
    let longer = history.push(message);
    assert forall|at: int|
        0 <= at < longer.len() && (#[trigger] longer[at]).content is ToolCalls implies round_answered(
        longer,
        at,
    ) by {
        assert(longer[at] == history[at]);
        assert(round_answered(history, at));
        let calls = history[at].content->ToolCalls_0;
        assert forall|k: int| 0 <= k < calls.len() implies #[trigger] answers(longer, at, k) by {
            assert(answers(history, at, k));
            assert(longer[at + 1 + k] == history[at + 1 + k]);
        }
    }
}

/// A history in which every call is answered stays so when a round of tool
/// calls is added: the round brings one answer for each of its calls, in the
/// order of the calls, whatever the calls came to.
pub proof fn lemma_answered_turn(
    history: Seq<ChatMessageView>,
    calls: Seq<ToolCallView>,
    outcomes: Seq<ToolResultView>,
)
    requires
        answered(history),
    ensures
        answered(history + turn(calls, outcomes)),
        (history + turn(calls, outcomes)).len() == history.len() + 1 + calls.len(),
        round_answered(history + turn(calls, outcomes), history.len() as int),
{
    let longer = history + turn(calls, outcomes);
    let start = history.len() as int;
    assert(longer[start] == tool_calls_message(calls));
    assert forall|k: int| 0 <= k < calls.len() implies #[trigger] answers(longer, start, k) by {
        assert(longer[start + 1 + k] == responses(calls, outcomes)[k]);
    }
    assert forall|at: int|
        0 <= at < longer.len() && (#[trigger] longer[at]).content is ToolCalls implies round_answered(
        longer,
        at,
    ) by {
        if at < start {
            assert(longer[at] == history[at]);
            assert(round_answered(history, at));
            let held = history[at].content->ToolCalls_0;
            assert forall|k: int| 0 <= k < held.len() implies #[trigger] answers(longer, at, k) by {
                assert(answers(history, at, k));
                assert(longer[at + 1 + k] == history[at + 1 + k]);
            }
        } else if at > start {
            assert(longer[at] == responses(calls, outcomes)[at - start - 1]);
        }
    }
}

/// A schema without the two members that not every model takes: `$schema`
/// and `title`. The other members stay.
pub open spec fn stripped(members: Map<Seq<char>, Seq<char>>) -> Map<Seq<char>, Seq<char>> {
    members.remove("$schema"@).remove("title"@)
}

/// Whether `sent` is the schema `schema` as it is sent: without the members
/// `$schema` and `title`, an object where `schema` is one, and `schema`
/// itself where it has neither member.
pub open spec fn strips(schema: serde_json::Value, sent: serde_json::Value) -> bool {
    &&& json_is_object(sent) == json_is_object(schema)
    &&& json_members(sent) == stripped(json_members(schema))
    &&& !json_members(schema).dom().contains("$schema"@) && !json_members(schema).dom().contains(
        "title"@,
    ) ==> sent == schema
}

/// Takes `$schema` and `title` out of a schema. A schema that has neither,
/// and one that is no JSON object, is handed back as it is.
pub fn strip_schema(schema: serde_json::Value) -> (result: serde_json::Value)
    ensures
        strips(schema, result),
{
    let mut result = schema;
    remove_member(&mut result, "$schema");
    remove_member(&mut result, "title");
    result
}

/// Writes the answer to one tool call.
pub fn respond(call_id: String, outcome: &ToolResult) -> (message: ChatMessage)
    ensures
        message@ == tool_response_message(call_id@, payload(result_view(*outcome))),
{
    let content = match outcome {
        Ok(output) => output.clone(),
        Err(error) => error.message(),
    };
    ChatMessage::tool_response(ToolResponse { call_id, content })
}

/// Whether `result` is the failure `MalformedFinalAnswer` with what some
/// failure of the JSON parser displays.
pub open spec fn malformed<D>(result: Result<D, AgentError>) -> bool {
    &&& result matches Err(AgentError::MalformedFinalAnswer(account))
    &&& exists|error: serde_json::Error|
        vstd::string::to_string_from_display_ensures::<serde_json::Error>(&error, account)
}

/// Reads the outcome of parsing the model's answer: the value, or
/// `MalformedFinalAnswer` with the parser's account where the parser
/// refused the text.
pub fn conclude<D>(parsed: Result<D, serde_json::Error>) -> (result: Result<D, AgentError>)
    ensures
        match parsed {
            Ok(value) => result == Ok::<D, AgentError>(value),
            Err(error) => {
                &&& result matches Err(AgentError::MalformedFinalAnswer(account))
                &&& vstd::string::to_string_from_display_ensures::<serde_json::Error>(
                    &error,
                    account,
                )
            },
        },
        parsed is Err ==> malformed(result),
{
    match parsed {
        Ok(value) => Ok(value),
        Err(error) => Err(AgentError::MalformedFinalAnswer(error.to_string())),
    }
}

/// Reads an answer that was asked for as text: the contents of the JSON
/// string `answer`, or `MalformedFinalAnswer` with the parser's account
/// where `answer` is none.
pub fn text_answer(answer: &str) -> (result: Result<String, AgentError>)
    ensures
        match json_string_value(answer@) {
            Some(text) => result matches Ok(value) && value@ == text,
            None => malformed(result),
        },
{
    conclude(read_string(answer))
}

/// Puts a request together from the history, from what the toolboxes listed
/// and from the schema of the answer. Fails where the toolboxes failed, with
/// their error.
pub fn assemble(
    history: &Vec<ChatMessage>,
    listing: Listing,
    schema: &Option<serde_json::Value>,
) -> (result: Result<ChatRequest, AgentError>)
    ensures
        match listing {
            Err(error) => result matches Err(AgentError::Tools(e)) && e@ == error@,
            Ok(tools) => result matches Ok(request) && request@.messages == message_views(history@)
                && request@.tools == (if tools@.len() == 0 {
                None
            } else {
                Some(tool_views(tools@))
            }) && request@.response_format == match *schema {
                Some(schema) => Some(("ResponseFormat"@, schema)),
                None => None,
            },
        },
{
    match listing {
        Err(error) => Err(AgentError::Tools(error)),
        Ok(tools) => {
            let tools = if tools.len() == 0 {
                None
            } else {
                Some(tools)
            };
            let response_format = match schema {
                Some(schema) => Some(
                    JsonSpec { name: String::from_str("ResponseFormat"), schema: schema.clone() },
                ),
                None => None,
            };
            Ok(ChatRequest { messages: clone_messages(history), tools, response_format })
        },
    }
}

/// A conversation with a model, and the toolboxes that the model may use.
pub struct Agent {
    history: Vec<ChatMessage>,
    tools: ToolBoxSet,
    schema: Option<serde_json::Value>,
}

impl Agent {
    /// Every tool call in the history is answered.
    #[verifier::type_invariant]
    spec fn complete(self) -> bool {
        answered(message_views(self.history@))
    }

    /// The history of the conversation, oldest message first.
    pub closed spec fn messages(&self) -> Seq<ChatMessageView> {
        message_views(self.history@)
    }

    /// The toolboxes, in the order in which they were added.
    pub closed spec fn providers(&self) -> Seq<Provider> {
        self.tools.providers()
    }

    /// The schema that the model's answer is to meet, as it is sent. `None`
    /// where the answer is asked for as text.
    pub closed spec fn schema(&self) -> Option<serde_json::Value> {
        self.schema
    }

    /// An agent at the start of a conversation: the history holds the system
    /// message, `system` without the white space around it, and there are no
    /// toolboxes.
    pub fn new(system: &str) -> (agent: Agent)
        ensures
            agent.messages() == seq![system_message(trimmed(system@))],
            agent.providers() == Seq::<Provider>::empty(),
            agent.schema() is None,
    {
        let mut history: Vec<ChatMessage> = Vec::new();
        history.push(ChatMessage::system(trim(system)));
        assert(message_views(history@) =~= seq![system_message(trimmed(system@))]);
        Agent { history, tools: ToolBoxSet::new(), schema: None }
    }

    /// Adds a toolbox behind those that the agent has.
    pub fn add_tool<T: ToolBox + 'static>(&mut self, toolbox: T)
        ensures
            final(self).providers() == old(self).providers().push(Provider::of(toolbox)),
            final(self).messages() == old(self).messages(),
            final(self).schema() == old(self).schema(),
    {
        proof {
            use_type_invariant(&*self);
        }
        let mut tools = ToolBoxSet::new();
        std::mem::swap(&mut tools, &mut self.tools);
        tools.add_tool(toolbox);
        self.tools = tools;
    }

    /// Adds toolboxes behind those that the agent has, in the order given.
    pub fn add_tools(&mut self, toolboxes: Vec<Provider>)
        ensures
            final(self).providers() == old(self).providers() + toolboxes@,
            final(self).messages() == old(self).messages(),
            final(self).schema() == old(self).schema(),
    {
        let ghost all = toolboxes@;
        let mut waiting = toolboxes;
        proof {
            use_type_invariant(&*self);
        }
        let mut tools = ToolBoxSet::new();
        std::mem::swap(&mut tools, &mut self.tools);
        assert(tools.providers() + waiting@ =~= old(self).providers() + all);
        while waiting.len() > 0
            invariant
                tools.providers() + waiting@ == old(self).providers() + all,
            decreases waiting@.len(),
        {
            let ghost held = tools.providers();
            let ghost before = waiting@;
            let next = waiting.remove(0);
            tools.add_provider(next);
            assert(tools.providers() + waiting@ =~= held + before);
        }
        assert(tools.providers() + waiting@ =~= tools.providers());
        self.tools = tools;
    }

    /// The history of the conversation, oldest message first. Every tool call
    /// in it is answered.
    pub fn history(&self) -> (history: &Vec<ChatMessage>)
        ensures
            message_views(history@) == self.messages(),
            answered(self.messages()),
    {
        proof {
            use_type_invariant(self);
        }
        &self.history
    }

    /// Takes the user's prompt and the form of the answer that is asked for.
    /// The prompt goes into the history. A schema is kept as it will be
    /// sent: without `$schema` and `title`.
    pub fn start(&mut self, prompt: &str, shape: AnswerShape)
        ensures
            final(self).messages() == old(self).messages().push(user_message(prompt@)),
            final(self).providers() == old(self).providers(),
            match shape {
                AnswerShape::Text => final(self).schema() is None,
                AnswerShape::Json(schema) => final(self).schema() matches Some(sent) && strips(
                    schema,
                    sent,
                ),
            },
    {
        let ghost before = self.messages();
        proof {
            use_type_invariant(&*self);
            lemma_answered_push(before, user_message(prompt@));
        }
        let schema = match shape {
            AnswerShape::Text => None,
            AnswerShape::Json(schema) => Some(strip_schema(schema)),
        };
        let message = ChatMessage::user(String::from_str(prompt));
        let mut history: Vec<ChatMessage> = Vec::new();
        std::mem::swap(&mut history, &mut self.history);
        history.push(message);
        assert(message_views(history@) =~= before.push(user_message(prompt@)));
        self.history = history;
        self.schema = schema;
    }

    /// What to send to the chat client now, where the toolboxes are kept by
    /// the caller and listed `listing`: the whole history, the tools listed,
    /// and the schema of the answer. The tools are left out where there are
    /// none. Fails where the listing failed, with its error.
    pub fn request_with(&self, listing: Listing) -> (result: Result<ChatRequest, AgentError>)
        ensures
            answered(self.messages()),
            match listing {
                Err(error) => result matches Err(AgentError::Tools(e)) && e@ == error@,
                Ok(tools) => result matches Ok(request) && request@.messages == self.messages()
                    && request@.tools == (if tools@.len() == 0 {
                    None
                } else {
                    Some(tool_views(tools@))
                }) && request@.response_format == match self.schema() {
                    Some(schema) => Some(("ResponseFormat"@, schema)),
                    None => None,
                },
            },
    {
        proof {
            use_type_invariant(self);
        }
        assemble(&self.history, listing, &self.schema)
    }

    /// What to send to the chat client now: the whole history, the tools of
    /// the toolboxes, and the schema of the answer. The tools are left out
    /// where there are none. Fails where a toolbox cannot list its tools.
    pub fn request(&self) -> (result: Result<ChatRequest, AgentError>)
        ensures
            answered(self.messages()),
            exists|listings: Seq<ListingView>| #[trigger]
                listed_in_turn(self.providers().len(), listings) && match merged(listings) {
                    Err(error) => result matches Err(AgentError::Tools(e)) && e@ == error,
                    Ok(tools) => result matches Ok(request) && request@.messages
                        == self.messages() && request@.tools == (if tools.len() == 0 {
                        None
                    } else {
                        Some(tools)
                    }) && request@.response_format == match self.schema() {
                        Some(schema) => Some(("ResponseFormat"@, schema)),
                        None => None,
                    },
                },
    {
        proof {
            use_type_invariant(self);
        }
        let listing = self.tools.tools_definitions();
        let ghost listings = choose|listings: Seq<ListingView>| #[trigger]
            listed_in_turn(self.providers().len(), listings) && listing_view(listing) == merged(
                listings,
            );
        let result = assemble(&self.history, listing, &self.schema);
        assert(listed_in_turn(self.providers().len(), listings));
        result
    }

    /// Runs the tools that the model asked for, in the order of the calls,
    /// each through the toolboxes in the order in which they were added.
    /// There is one outcome for each call, whatever the tools did.
    pub fn dispatch(&self, calls: Vec<ToolCall>) -> (round: Round)
        ensures
            asked(round@) == call_views(calls@),
            forall|i: int|
                0 <= i < calls@.len() ==> dispatched(
                    self.providers().len(),
                    calls@[i].fn_name@,
                    #[trigger] given(round@)[i],
                ),
    {
        let ghost all = call_views(calls@);
        let mut rest = calls;
        let mut round: Round = Vec::new();
        assert(asked(round@) + call_views(rest@) =~= all);
        while rest.len() > 0
            invariant
                asked(round@) + call_views(rest@) == all,
                forall|i: int|
                    0 <= i < round@.len() ==> dispatched(
                        self.providers().len(),
                        all[i].fn_name,
                        #[trigger] given(round@)[i],
                    ),
            decreases rest@.len(),
        {
            let ghost done = round@;
            let ghost waiting = rest@;
            let call = rest.remove(0);
            let outcome = self.tools.call_tool(call.fn_name.clone(), call.fn_arguments.clone());
            round.push((call, outcome));
            proof {
                assert(asked(round@) =~= asked(done).push(call@));
                assert(asked(round@) + call_views(rest@) =~= asked(done) + call_views(waiting));
                assert(all[done.len() as int] == call@);
                assert forall|i: int| 0 <= i < round@.len() implies dispatched(
                    self.providers().len(),
                    all[i].fn_name,
                    #[trigger] given(round@)[i],
                ) by {
                    if i < done.len() {
                        assert(given(round@)[i] == given(done)[i]);
                    }
                }
            }
        }
        assert(asked(round@) + call_views(rest@) =~= asked(round@));
        round
    }

    /// Writes a round of tool calls into the history: the model's message
    /// with the calls, then one answer for each call, in the order of the
    /// calls. A call that failed is answered with the text of its error.
    pub fn record(&mut self, round: Round)
        ensures
            final(self).messages() == old(self).messages() + turn(asked(round@), given(round@)),
            final(self).providers() == old(self).providers(),
            final(self).schema() == old(self).schema(),
    {
        let ghost before = self.messages();
        let ghost calls_of = asked(round@);
        let ghost outcomes_of = given(round@);
        let mut calls: Vec<ToolCall> = Vec::new();
        let mut i: usize = 0;
        while i < round.len()
            invariant
                i <= round@.len(),
                calls@.len() == i,
                forall|j: int| 0 <= j < i ==> (#[trigger] calls@[j])@ == round@[j].0@,
            decreases round@.len() - i,
        {
            calls.push(round[i].0.clone());
            i = i + 1;
        }
        assert(call_views(calls@) =~= calls_of);
        let mut added: Vec<ChatMessage> = Vec::new();
        added.push(ChatMessage::tool_calls(calls));
        let mut k: usize = 0;
        while k < round.len()
            invariant
                k <= round@.len(),
                calls_of == asked(round@),
                outcomes_of == given(round@),
                added@.len() == k + 1,
                added@[0]@ == tool_calls_message(calls_of),
                forall|j: int|
                    0 <= j < k ==> (#[trigger] added@[j + 1])@ == responses(calls_of, outcomes_of)[j],
            decreases round@.len() - k,
        {
            let ghost held = added@;
            let answer = respond(round[k].0.call_id.clone(), &round[k].1);
            added.push(answer);
            assert forall|j: int| 0 <= j < k + 1 implies (#[trigger] added@[j + 1])@ == responses(
                calls_of,
                outcomes_of,
            )[j] by {
                if j < k {
                    assert(added@[j + 1] == held[j + 1]);
                }
            }
            k = k + 1;
        }
        proof {
            use_type_invariant(&*self);
            let written = turn(calls_of, outcomes_of);
            assert forall|i: int| 0 <= i < added@.len() implies message_views(added@)[i]
                == written[i] by {
                if i > 0 {
                    assert(added@[(i - 1) + 1]@ == responses(calls_of, outcomes_of)[i - 1]);
                }
            }
            assert(message_views(added@) =~= written);
            assert(message_views(self.history@ + added@) =~= before + turn(calls_of, outcomes_of));
            lemma_answered_turn(before, calls_of, outcomes_of);
        }
        let mut history: Vec<ChatMessage> = Vec::new();
        std::mem::swap(&mut history, &mut self.history);
        history.append(&mut added);
        self.history = history;
    }

    /// Takes what came back from the chat client.
    ///
    /// Where the model asked for tools, they are run and the round is written
    /// into the history: the conversation goes on, whatever the tools did.
    /// Where it answered in text, the text goes into the history and the
    /// conversation ends with it. Where it did neither, the history stays as
    /// it is and the call fails.
    pub fn advance(&mut self, response: ChatResponse) -> (result: Result<Step, AgentError>)
        ensures
            final(self).providers() == old(self).providers(),
            final(self).schema() == old(self).schema(),
            answered(final(self).messages()),
            match (response.tool_calls, response.text) {
                (Some(calls), _) => {
                    &&& result == Ok::<Step, AgentError>(Step::Continue)
                    &&& exists|outcomes: Seq<ToolResultView>|
                        #![trigger turn(call_views(calls@), outcomes)]
                        {
                            &&& outcomes.len() == calls@.len()
                            &&& forall|i: int|
                                0 <= i < calls@.len() ==> dispatched(
                                    old(self).providers().len(),
                                    calls@[i].fn_name@,
                                    #[trigger] outcomes[i],
                                )
                            &&& final(self).messages() == old(self).messages() + turn(
                                call_views(calls@),
                                outcomes,
                            )
                        }
                },
                (None, Some(text)) => {
                    &&& final(self).messages() == old(self).messages().push(
                        assistant_message(text@),
                    )
                    &&& result matches Ok(Step::Answer(answer))
                    &&& answer@ == (if old(self).schema() is None {
                        json_quoted(text@)
                    } else {
                        text@
                    })
                },
                (None, None) => {
                    &&& final(self).messages() == old(self).messages()
                    &&& result matches Err(AgentError::Upstream(text))
                    &&& text@ == "Missing string in response"@
                },
            },
    {
        proof {
            use_type_invariant(&*self);
        }
        let ChatResponse { text, tool_calls } = response;
        match tool_calls {
            Some(calls) => {
                let round = self.dispatch(calls);
                let ghost outcomes = given(round@);
                self.record(round);
                proof {
                    use_type_invariant(&*self);
                    assert(self.messages() == old(self).messages() + turn(
                        call_views(calls@),
                        outcomes,
                    ));
                }
                Ok(Step::Continue)
            },
            None => match text {
                Some(text) => {
                    let ghost before = self.messages();
                    let answer = if self.schema.is_none() {
                        quote(text.as_str())
                    } else {
                        text.clone()
                    };
                    let message = ChatMessage::assistant(text);
                    proof {
                        lemma_answered_push(before, assistant_message(text@));
                        assert(message_views(self.history@.push(message)) =~= before.push(
                            assistant_message(text@),
                        ));
                    }
                    let mut history: Vec<ChatMessage> = Vec::new();
                    std::mem::swap(&mut history, &mut self.history);
                    history.push(message);
                    self.history = history;
                    Ok(Step::Answer(answer))
                },
                None => Err(AgentError::Upstream(String::from_str("Missing string in response"))),
            },
        }
    }
}

} // verus!
