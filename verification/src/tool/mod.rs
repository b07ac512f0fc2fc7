//! Tools and toolboxes.
//!
//! A [`Tool`] describes one operation that a model may ask for. A [`ToolBox`]
//! offers a set of tools and runs them by name. A [`ToolBoxSet`] presents
//! several toolboxes as one: it lists their tools in the order in which the
//! toolboxes were added, and hands a call to the first toolbox that knows the
//! tool.

pub mod buildin;
pub mod mcp;
pub mod toolbox;
pub mod web;

use vstd::prelude::*;

verus! {

/// What a tool call comes to: the tool's output, or the reason it has none.
pub type ToolResult = Result<String, ToolError>;

/// The description of a tool, as it is shown to the model.
#[derive(Debug, PartialEq)]
pub struct Tool {
    /// The name by which the tool is called.
    pub name: String,
    /// What the tool is for.
    pub description: Option<String>,
    /// The JSON schema of the tool's arguments.
    pub schema: Option<serde_json::Value>,
}

/// The mathematical value of a [`Tool`].
pub struct ToolView {
    pub name: Seq<char>,
    pub description: Option<Seq<char>>,
    pub schema: Option<serde_json::Value>,
}

impl View for Tool {
    type V = ToolView;

    open spec fn view(&self) -> ToolView {
        ToolView {
            name: self.name@,
            description: match self.description {
                Some(text) => Some(text@),
                None => None,
            },
            schema: self.schema,
        }
    }
}

impl Tool {
    /// A tool with a name and nothing else.
    pub fn new(name: String) -> (tool: Tool)
        ensures
            tool@ == (ToolView { name: name@, description: None, schema: None }),
    {
        Tool { name, description: None, schema: None }
    }

    /// The same tool with `description` as its description.
    pub fn with_description(self, description: String) -> (tool: Tool)
        ensures
            tool@ == (ToolView { description: Some(description@), ..self@ }),
    {
        Tool { name: self.name, description: Some(description), schema: self.schema }
    }

    /// The same tool with `schema` as the schema of its arguments.
    pub fn with_schema(self, schema: serde_json::Value) -> (tool: Tool)
        ensures
            tool@ == (ToolView { schema: Some(schema), ..self@ }),
    {
        Tool { name: self.name, description: self.description, schema: Some(schema) }
    }
}

impl Clone for Tool {
    fn clone(&self) -> (copy: Tool)
        ensures
            copy@ == self@,
    {
        Tool {
            name: self.name.clone(),
            description: match &self.description {
                Some(text) => Some(text.clone()),
                None => None,
            },
            schema: match &self.schema {
                Some(schema) => Some(schema.clone()),
                None => None,
            },
        }
    }
}

/// The values of a list of tools, in order.
pub open spec fn tool_views(tools: Seq<Tool>) -> Seq<ToolView> {
    tools.map_values(|tool: Tool| tool@)
}

/// Copies a list of tools.
pub fn clone_tools(tools: &Vec<Tool>) -> (copy: Vec<Tool>)
    ensures
        tool_views(copy@) == tool_views(tools@),
{
    let mut copy: Vec<Tool> = Vec::new();
    let mut i: usize = 0;
    while i < tools.len()
        invariant
            i <= tools@.len(),
            copy@.len() == i,
            forall|j: int| 0 <= j < i ==> (#[trigger] copy@[j])@ == tools@[j]@,
        decreases tools@.len() - i,
    {
        copy.push(tools[i].clone());
        i = i + 1;
    }
    assert(tool_views(copy@) =~= tool_views(tools@));
    copy
}

/// Why a toolbox could not list its tools or run one.
#[derive(Debug, PartialEq)]
pub enum ToolError {
    /// The toolbox cannot say yet which tools it has.
    ToolsDefinitionNotReady,
    /// The toolbox has no tool of this name.
    NoToolFound(String),
    /// The call was at fault, in a way that the model can mend: the text
    /// tells it how.
    LLMError(String),
    /// The tool ran and failed.
    ExecutionError,
    /// Anything else, with an account of it.
    Other(String),
}

/// The mathematical value of a [`ToolError`].
pub enum ToolErrorView {
    ToolsDefinitionNotReady,
    NoToolFound(Seq<char>),
    LLMError(Seq<char>),
    ExecutionError,
    Other(Seq<char>),
}

impl View for ToolError {
    type V = ToolErrorView;

    open spec fn view(&self) -> ToolErrorView {
        match self {
            ToolError::ToolsDefinitionNotReady => ToolErrorView::ToolsDefinitionNotReady,
            ToolError::NoToolFound(name) => ToolErrorView::NoToolFound(name@),
            ToolError::LLMError(text) => ToolErrorView::LLMError(text@),
            ToolError::ExecutionError => ToolErrorView::ExecutionError,
            ToolError::Other(text) => ToolErrorView::Other(text@),
        }
    }
}

impl ToolErrorView {
    /// The text by which the error is reported, to a person or to the model.
    pub open spec fn message(self) -> Seq<char> {
        match self {
            ToolErrorView::ToolsDefinitionNotReady => "Tool definitions are not ready"@,
            ToolErrorView::NoToolFound(name) => "Tool named '"@ + name + "' not found"@,
            ToolErrorView::LLMError(text) => text,
            ToolErrorView::ExecutionError => "Tool execution failed"@,
            ToolErrorView::Other(text) => text,
        }
    }
}

impl ToolError {
    /// The text by which the error is reported, to a person or to the model.
    pub fn message(&self) -> (text: String)
        ensures
            text@ == self@.message(),
    {
        match self {
            ToolError::ToolsDefinitionNotReady => String::from_str(
                "Tool definitions are not ready",
            ),
            ToolError::NoToolFound(name) => {
                let mut text = String::from_str("Tool named '");
                text.append(name.as_str());
                text.append("' not found");
                text
            },
            ToolError::LLMError(text) => text.clone(),
            ToolError::ExecutionError => String::from_str("Tool execution failed"),
            ToolError::Other(text) => text.clone(),
        }
    }
}

impl Clone for ToolError {
    fn clone(&self) -> (copy: ToolError)
        ensures
            copy@ == self@,
    {
        match self {
            ToolError::ToolsDefinitionNotReady => ToolError::ToolsDefinitionNotReady,
            ToolError::NoToolFound(name) => ToolError::NoToolFound(name.clone()),
            ToolError::LLMError(text) => ToolError::LLMError(text.clone()),
            ToolError::ExecutionError => ToolError::ExecutionError,
            ToolError::Other(text) => ToolError::Other(text.clone()),
        }
    }
}

/// The mathematical value of a [`ToolResult`].
pub type ToolResultView = Result<Seq<char>, ToolErrorView>;

/// The value of a tool result.
pub open spec fn result_view(result: ToolResult) -> ToolResultView {
    match result {
        Ok(output) => Ok(output@),
        Err(error) => Err(error@),
    }
}

/// The values of a list of tool results, in order.
pub open spec fn result_views(results: Seq<ToolResult>) -> Seq<ToolResultView> {
    results.map_values(|result: ToolResult| result_view(result))
}

/// How a request over HTTP came out.
#[derive(Debug, PartialEq)]
pub enum Reply<T> {
    /// The request could not be sent, or no reply came. The text is the
    /// client's account.
    Unsent(String),
    /// The server replied with a status that is no success. The text is the
    /// status.
    Refused(String),
    /// The reply came and its body could not be read. The text is the
    /// reader's account.
    Unreadable(String),
    /// The body of the reply.
    Body(T),
}

/// What a toolbox had to say when it was asked for its tools.
pub type Listing = Result<Vec<Tool>, ToolError>;

/// The mathematical value of a [`Listing`].
pub type ListingView = Result<Seq<ToolView>, ToolErrorView>;

/// The value of a listing.
pub open spec fn listing_view(listing: Listing) -> ListingView {
    match listing {
        Ok(tools) => Ok(tool_views(tools@)),
        Err(error) => Err(error@),
    }
}

/// The values of a list of listings, in order.
pub open spec fn listing_views(listings: Seq<Listing>) -> Seq<ListingView> {
    listings.map_values(|listing: Listing| listing_view(listing))
}

/// A set of tools that can be called by name.
///
/// This is what a provider of tools implements. A toolbox answers for
/// itself: nothing is promised here of what an implementation returns. What
/// [`ToolBoxSet`] and the agent make of the answers is stated over the
/// answers, whatever they are.
pub trait ToolBox: Send + Sync {
    /// The tools of this toolbox, or `ToolsDefinitionNotReady` where it
    /// cannot say yet.
    fn tools_definitions(&self) -> Listing;

    /// Runs the tool named `tool_name` on `arguments` and returns its
    /// output.
    ///
    /// A toolbox that has no such tool answers `NoToolFound`: a set of
    /// toolboxes then asks the next. Arguments that do not fit the tool's
    /// schema are an error that the model can mend, `LLMError`, with a text
    /// that tells it how. A tool that ran and failed is an `ExecutionError`,
    /// or an `LLMError` where the toolbox wants the model to see why.
    fn call_tool(&self, tool_name: String, arguments: serde_json::Value) -> ToolResult;
}

/// A toolbox of any kind, as a [`ToolBoxSet`] holds it.
pub struct Provider {
    toolbox: Box<dyn ToolBox>,
}

impl Provider {
    /// The provider that holds `toolbox`.
    pub closed spec fn of<T: ToolBox + 'static>(toolbox: T) -> Provider {
        Provider { toolbox: Box::new(toolbox) }
    }

    /// Takes `toolbox` in.
    pub fn new<T: ToolBox + 'static>(toolbox: T) -> (provider: Provider)
        ensures
            provider == Provider::of(toolbox),
    {
        Provider { toolbox: Box::new(toolbox) }
    }
}

/// Whether a toolbox that gave `outcome` has taken the call for its own:
/// any outcome does that but `NoToolFound`.
pub open spec fn claims(outcome: ToolResultView) -> bool {
    !(outcome is Err && outcome->Err_0 is NoToolFound)
}

/// What a call of `tool_name` comes to when the toolboxes asked, in order,
/// gave `outcomes`: the first outcome that claims the call, or `NoToolFound`
/// with the name where none does.
pub open spec fn first_claim(outcomes: Seq<ToolResultView>, tool_name: Seq<char>) -> ToolResultView
    decreases outcomes.len(),
{
    if outcomes.len() == 0 {
        Err(ToolErrorView::NoToolFound(tool_name))
    } else if claims(outcomes[0]) {
        outcomes[0]
    } else {
        first_claim(outcomes.drop_first(), tool_name)
    }
}

/// What the listings of several toolboxes come to, taken in order: the first
/// failure, or all the tools, those of the first toolbox first.
pub open spec fn merged(listings: Seq<ListingView>) -> ListingView
    decreases listings.len(),
{
    if listings.len() == 0 {
        Ok(Seq::empty())
    } else {
        match listings[0] {
            Err(error) => Err(error),
            Ok(tools) => match merged(listings.drop_first()) {
                Ok(rest) => Ok(tools + rest),
                Err(error) => Err(error),
            },
        }
    }
}

/// Whether `outcomes` can be what a set of `count` toolboxes gave when they
/// were asked one after the other until one claimed the call: no more
/// outcomes than toolboxes, and only the last of them may claim.
pub open spec fn asked_in_turn(count: nat, outcomes: Seq<ToolResultView>) -> bool {
    &&& outcomes.len() <= count
    &&& outcomes.len() < count ==> outcomes.len() > 0 && claims(outcomes.last())
    &&& forall|i: int| 0 <= i < outcomes.len() - 1 ==> !claims(#[trigger] outcomes[i])
}

/// Whether `listings` can be what a set of `count` toolboxes gave when they
/// were asked one after the other until one failed: no more listings than
/// toolboxes, and only the last of them may be a failure.
pub open spec fn listed_in_turn(count: nat, listings: Seq<ListingView>) -> bool {
    &&& listings.len() <= count
    &&& listings.len() < count ==> listings.len() > 0 && listings.last() is Err
    &&& forall|i: int| 0 <= i < listings.len() - 1 ==> (#[trigger] listings[i]) is Ok
}

/// Whether `outcome` can be what a set of `count` toolboxes makes of a call
/// of `tool_name`: the toolboxes, asked in turn, gave some answers, and
/// `outcome` is the first of them that claims the call, or `NoToolFound` with
/// the name.
pub open spec fn dispatched(count: nat, tool_name: Seq<char>, outcome: ToolResultView) -> bool {
    exists|asked: Seq<ToolResultView>| #[trigger]
        asked_in_turn(count, asked) && outcome == first_claim(asked, tool_name)
}

/// Which of `count` toolboxes is to be asked next where those before it, in
/// order, gave `outcomes`: the next one, or none where the last outcome
/// claims the call and where all were asked.
pub open spec fn next_asked(count: nat, outcomes: Seq<ToolResultView>) -> Option<nat> {
    if outcomes.len() < count && (outcomes.len() == 0 || !claims(outcomes.last())) {
        Some(outcomes.len())
    } else {
        None
    }
}

/// Which of `count` toolboxes is to be asked for its tools next where those
/// before it, in order, gave `listings`: the next one, or none where the
/// last listing failed and where all were asked.
pub open spec fn next_listed(count: nat, listings: Seq<ListingView>) -> Option<nat> {
    if listings.len() < count && (listings.len() == 0 || listings.last() is Ok) {
        Some(listings.len())
    } else {
        None
    }
}

/// Tells which of `count` toolboxes is to be asked next, for a caller that
/// asks the toolboxes itself and hands the outcomes to
/// [`ToolBoxSet::resolve`].
pub fn next_to_ask(count: usize, outcomes: &Vec<ToolResult>) -> (next: Option<usize>)
    ensures
        match next_asked(count as nat, result_views(outcomes@)) {
            Some(at) => next == Some(at as usize),
            None => next is None,
        },
{
    let asked = outcomes.len();
    if asked < count && (asked == 0 || !is_claim(&outcomes[asked - 1])) {
        Some(asked)
    } else {
        None
    }
}

/// Tells which of `count` toolboxes is to be asked for its tools next, for
/// a caller that asks the toolboxes itself and hands the listings to
/// [`ToolBoxSet::merge`].
pub fn next_to_list(count: usize, listings: &Vec<Listing>) -> (next: Option<usize>)
    ensures
        match next_listed(count as nat, listing_views(listings@)) {
            Some(at) => next == Some(at as usize),
            None => next is None,
        },
{
    let listed = listings.len();
    if listed < count && (listed == 0 || listings[listed - 1].is_ok()) {
        Some(listed)
    } else {
        None
    }
}

/// Tells whether `outcome` claims the call.
pub fn is_claim(outcome: &ToolResult) -> (claimed: bool)
    ensures
        claimed == claims(result_view(*outcome)),
{
    match outcome {
        Err(ToolError::NoToolFound(_)) => false,
        _ => true,
    }
}

/// What a toolbox answers for a tool that ran: the tool's output; the
/// tool's own words where it failed with an `LLMError`, which is meant for
/// the model; and `ExecutionError` for any other failure, whatever its
/// account was.
pub open spec fn execution(outcome: ToolResultView) -> ToolResultView {
    match outcome {
        Ok(output) => Ok(output),
        Err(ToolErrorView::LLMError(text)) => Err(ToolErrorView::LLMError(text)),
        Err(_) => Err(ToolErrorView::ExecutionError),
    }
}

/// Makes the answer of a toolbox out of the outcome of a tool that ran.
pub fn executed(outcome: ToolResult) -> (result: ToolResult)
    ensures
        result_view(result) == execution(result_view(outcome)),
{
    match outcome {
        Ok(output) => Ok(output),
        Err(ToolError::LLMError(text)) => Err(ToolError::LLMError(text)),
        Err(_) => Err(ToolError::ExecutionError),
    }
}

/// What a toolbox answers where the arguments of a call do not fit the
/// tool: an error that the model can mend, with the reader's account of
/// what is wrong.
pub fn misfit(account: String) -> (error: ToolError)
    ensures
        error@ == ToolErrorView::LLMError(account@),
{
    ToolError::LLMError(account)
}

/// Several toolboxes as one.
///
/// The order in which the toolboxes were added is the only rule: tools are
/// listed in that order, and a call goes to the first toolbox that claims it.
/// Two toolboxes may have a tool of the same name; the second is then listed
/// and never called.
pub struct ToolBoxSet {
    toolboxes: Vec<Provider>,
}

impl ToolBoxSet {
    /// The toolboxes of the set, in the order in which they were added.
    pub closed spec fn providers(&self) -> Seq<Provider> {
        self.toolboxes@
    }

    /// A set without toolboxes.
    pub fn new() -> (set: ToolBoxSet)
        ensures
            set.providers() == Seq::<Provider>::empty(),
    {
        ToolBoxSet { toolboxes: Vec::new() }
    }

    /// The number of toolboxes in the set.
    pub fn len(&self) -> (count: usize)
        ensures
            count == self.providers().len(),
    {
        self.toolboxes.len()
    }

    /// Adds `toolbox` behind the toolboxes that the set has.
    pub fn add_tool<T: ToolBox + 'static>(&mut self, toolbox: T)
        ensures
            final(self).providers() == old(self).providers().push(Provider::of(toolbox)),
    {
        self.add_provider(Provider::new(toolbox));
    }

    /// Adds `provider` behind the toolboxes that the set has.
    pub fn add_provider(&mut self, provider: Provider)
        ensures
            final(self).providers() == old(self).providers().push(provider),
    {
        self.toolboxes.push(provider);
    }

    /// What a call of `tool_name` comes to when the toolboxes asked, in
    /// order, gave `outcomes`.
    pub fn resolve(outcomes: Vec<ToolResult>, tool_name: String) -> (result: ToolResult)
        ensures
            result_view(result) == first_claim(result_views(outcomes@), tool_name@),
    {
        let ghost all = result_views(outcomes@);
        let mut outcomes = outcomes;
        let mut result: ToolResult = Err(ToolError::NoToolFound(tool_name));
        assert(all.skip(all.len() as int) =~= Seq::<ToolResultView>::empty());
        while outcomes.len() > 0
            invariant
                outcomes@.len() <= all.len(),
                result_views(outcomes@) == all.take(outcomes@.len() as int),
                result_view(result) == first_claim(all.skip(outcomes@.len() as int), tool_name@),
            decreases outcomes@.len(),
        {
            let ghost before = outcomes@;
            let last = outcomes.pop().unwrap();
            proof {
                let k = outcomes@.len() as int;
                assert(result_views(before)[k] == result_view(last));
                assert(all[k] == result_view(last));
                assert(all.skip(k).drop_first() =~= all.skip(k + 1));
                assert(result_views(outcomes@) =~= all.take(k));
            }
            if is_claim(&last) {
                result = last;
            }
        }
        assert(all.skip(0) =~= all);
        result
    }

    /// What the listings of the toolboxes come to, taken in order.
    pub fn merge(listings: Vec<Listing>) -> (result: Listing)
        ensures
            listing_view(result) == merged(listing_views(listings@)),
    {
        let ghost all = listing_views(listings@);
        let mut listings = listings;
        let mut result: Listing = Ok(Vec::new());
        assert(all.skip(all.len() as int) =~= Seq::<ListingView>::empty());
        assert(tool_views(Seq::<Tool>::empty()) =~= Seq::<ToolView>::empty());
        while listings.len() > 0
            invariant
                listings@.len() <= all.len(),
                listing_views(listings@) == all.take(listings@.len() as int),
                listing_view(result) == merged(all.skip(listings@.len() as int)),
            decreases listings@.len(),
        {
            let ghost before = listings@;
            let last = listings.pop().unwrap();
            proof {
                let k = listings@.len() as int;
                assert(listing_views(before)[k] == listing_view(last));
                assert(all[k] == listing_view(last));
                assert(all.skip(k).drop_first() =~= all.skip(k + 1));
                assert(listing_views(listings@) =~= all.take(k));
            }
            result = match last {
                Err(error) => Err(error),
                Ok(mut tools) => match result {
                    Ok(mut rest) => {
                        let ghost front = tools@;
                        let ghost back = rest@;
                        tools.append(&mut rest);
                        assert(tool_views(tools@) =~= tool_views(front) + tool_views(back));
                        Ok(tools)
                    },
                    Err(error) => Err(error),
                },
            };
        }
        assert(all.skip(0) =~= all);
        result
    }
}

impl ToolBox for ToolBoxSet {
    /// Asks the toolboxes for their tools, one after the other, and stops at
    /// the first that fails. The result is what [`merged`] makes of the
    /// answers: that failure, or the tools of all, in the order of the set.
    fn tools_definitions(&self) -> (result: Listing)
        ensures
            exists|listings: Seq<ListingView>|
                #[trigger] listed_in_turn(self.providers().len(), listings) && listing_view(
                    result,
                ) == merged(listings),
    {
        let count: usize = self.toolboxes.len();
        let mut listings: Vec<Listing> = Vec::new();
        let mut next = next_to_list(count, &listings);
        while next.is_some()
            invariant
                count == self.toolboxes@.len(),
                listings@.len() <= count,
                forall|j: int|
                    0 <= j < listings@.len() - 1 ==> listing_view(#[trigger] listings@[j]) is Ok,
                match next_listed(count as nat, listing_views(listings@)) {
                    Some(at) => next == Some(at as usize),
                    None => next is None,
                },
            decreases count - listings@.len(),
        {
            let at: usize = next.unwrap();
            let listing = self.toolboxes[at].toolbox.tools_definitions();
            listings.push(listing);
            next = next_to_list(count, &listings);
        }
        let ghost asked = listing_views(listings@);
        let result = ToolBoxSet::merge(listings);
        assert(listed_in_turn(self.providers().len(), asked));
        result
    }

    /// Asks the toolboxes to run the tool, one after the other, and stops at
    /// the first that claims the call. The result is what [`first_claim`]
    /// makes of the answers: that toolbox's, or `NoToolFound` with
    /// `tool_name` where none claimed it.
    fn call_tool(&self, tool_name: String, arguments: serde_json::Value) -> (result: ToolResult)
        ensures
            dispatched(self.providers().len(), tool_name@, result_view(result)),
    {
        let count: usize = self.toolboxes.len();
        let mut outcomes: Vec<ToolResult> = Vec::new();
        let mut next = next_to_ask(count, &outcomes);
        while next.is_some()
            invariant
                count == self.toolboxes@.len(),
                outcomes@.len() <= count,
                forall|j: int|
                    0 <= j < outcomes@.len() - 1 ==> !claims(
                        result_view(#[trigger] outcomes@[j]),
                    ),
                match next_asked(count as nat, result_views(outcomes@)) {
                    Some(at) => next == Some(at as usize),
                    None => next is None,
                },
            decreases count - outcomes@.len(),
        {
            let at: usize = next.unwrap();
            let outcome = self.toolboxes[at].toolbox.call_tool(
                tool_name.clone(),
                arguments.clone(),
            );
            outcomes.push(outcome);
            next = next_to_ask(count, &outcomes);
        }
        let ghost asked = result_views(outcomes@);
        let result = ToolBoxSet::resolve(outcomes, tool_name);
        assert(asked_in_turn(self.providers().len(), asked));
        result
    }
}

/// A call goes to the first toolbox that claims it: where the toolbox at
/// `first` claims the call and none before it does, the result is that
/// toolbox's answer, whatever the toolboxes behind it hold or would answer.
pub proof fn lemma_first_registered_wins(
    outcomes: Seq<ToolResultView>,
    first: int,
    tool_name: Seq<char>,
)
    requires
        0 <= first < outcomes.len(),
        claims(outcomes[first]),
        forall|i: int| 0 <= i < first ==> !claims(#[trigger] outcomes[i]),
    ensures
        first_claim(outcomes, tool_name) == outcomes[first],
    decreases first,
{
    if first > 0 {
        let rest = outcomes.drop_first();
        assert forall|i: int| 0 <= i < first - 1 implies !claims(#[trigger] rest[i]) by {
            assert(rest[i] == outcomes[i + 1]);
        }
        assert(!claims(outcomes[0]));
        lemma_first_registered_wins(rest, first - 1, tool_name);
    }
}

/// A call that no toolbox claims fails with `NoToolFound` and the name that
/// was asked for; so does every call on a set without toolboxes.
pub proof fn lemma_unclaimed_is_not_found(outcomes: Seq<ToolResultView>, tool_name: Seq<char>)
    requires
        forall|i: int| 0 <= i < outcomes.len() ==> !claims(#[trigger] outcomes[i]),
    ensures
        first_claim(outcomes, tool_name) == Err::<Seq<char>, ToolErrorView>(
            ToolErrorView::NoToolFound(tool_name),
        ),
    decreases outcomes.len(),
{
    if outcomes.len() > 0 {
        let rest = outcomes.drop_first();
        assert forall|i: int| 0 <= i < rest.len() implies !claims(#[trigger] rest[i]) by {
            assert(rest[i] == outcomes[i + 1]);
        }
        assert(!claims(outcomes[0]));
        lemma_unclaimed_is_not_found(rest, tool_name);
    }
}

/// Whatever the toolboxes answer, a `NoToolFound` that the set hands back
/// names the tool that was asked for.
pub proof fn lemma_not_found_names_the_call(outcomes: Seq<ToolResultView>, tool_name: Seq<char>)
    ensures
        !claims(first_claim(outcomes, tool_name)) ==> first_claim(outcomes, tool_name) == Err::<
            Seq<char>,
            ToolErrorView,
        >(ToolErrorView::NoToolFound(tool_name)),
    decreases outcomes.len(),
{
    if outcomes.len() > 0 && !claims(outcomes[0]) {
        lemma_not_found_names_the_call(outcomes.drop_first(), tool_name);
    }
}

/// A set without toolboxes answers every call with `NoToolFound` and the
/// name that was asked for.
pub proof fn lemma_empty_set_finds_nothing(tool_name: Seq<char>, outcome: ToolResultView)
    requires
        dispatched(0, tool_name, outcome),
    ensures
        outcome == Err::<Seq<char>, ToolErrorView>(ToolErrorView::NoToolFound(tool_name)),
{
    let asked = choose|asked: Seq<ToolResultView>| #[trigger]
        asked_in_turn(0, asked) && outcome == first_claim(asked, tool_name);
    assert(asked.len() == 0);
}

} // verus!
