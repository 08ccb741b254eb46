//! The dispatch of one invocation to its response.
//!
//! An invocation names a command, carries the command's arguments as the
//! bytes of a JSON object, and bears a correlation id. Its response bears the
//! same id and holds either the command's reply, written as JSON, or the
//! reason why there is none. No invocation can fail in any other way: every
//! one is answered.

use crate::commands::{greeting_for, ping, GreetResponse};
use crate::json::{parse_document, parsed_text_members, quote, string_literal, text_member};
use crate::registry::{Command, Registry};
use vstd::prelude::*;
use vstd::seq_lib::{to_multiset_contains, to_multiset_len};
use vstd::string::StringExecFns;

verus! {

/// Why an invocation has no reply.
#[derive(Debug, Clone, PartialEq, Eq)]
pub enum InvokeError {
    /// No handler is registered under the invocation's name.
    UnknownCommand,
    /// The argument bytes do not hold what the handler takes.
    DeserializationError,
    /// The handler ran and failed, with this message.
    HandlerError(String),
}

/// What a response holds.
pub type Outcome = Result<String, InvokeError>;

/// The answer to one invocation.
#[derive(Debug, PartialEq, Eq)]
pub struct Response {
    /// The id of the invocation that this answers.
    pub correlation_id: u64,
    /// The reply as JSON text, or why there is none.
    pub outcome: Outcome,
}

/// One request of the user interface.
#[derive(Debug, Clone, PartialEq, Eq)]
pub struct Invocation {
    /// The name of the command.
    pub name: String,
    /// The command's arguments: the bytes of a JSON object.
    pub arguments: Vec<u8>,
    /// The id by which the caller will know the response.
    pub correlation_id: u64,
}

/// A command together with the arguments read for it.
#[derive(Debug, Clone, PartialEq, Eq)]
pub enum Call {
    Ping { name: String },
}

/// What a handler hands back.
#[derive(Debug, Clone, PartialEq, Eq)]
pub enum Reply {
    Greeting(GreetResponse),
}

/// An [`InvokeError`] as a mathematical value.
pub enum Fault {
    UnknownCommand,
    DeserializationError,
    HandlerError(Seq<char>),
}

/// A [`Response`] as a mathematical value.
pub struct Answer {
    pub correlation_id: u64,
    pub outcome: Result<Seq<char>, Fault>,
}

/// An [`Invocation`] as a mathematical value.
pub struct Request {
    pub name: Seq<char>,
    pub arguments: Seq<u8>,
    pub correlation_id: u64,
}

/// A [`Call`] as a mathematical value.
pub enum CallModel {
    Ping { name: Seq<char> },
}

/// A [`Reply`] as a mathematical value.
pub enum ReplyModel {
    Greeting { greeting: Seq<char>, name: Seq<char> },
}

impl View for InvokeError {
    type V = Fault;

    open spec fn view(&self) -> Fault {
        match self {
            InvokeError::UnknownCommand => Fault::UnknownCommand,
            InvokeError::DeserializationError => Fault::DeserializationError,
            InvokeError::HandlerError(message) => Fault::HandlerError(message@),
        }
    }
}

/// An outcome as a mathematical value.
pub open spec fn outcome_view(outcome: Outcome) -> Result<Seq<char>, Fault> {
    match outcome {
        Ok(text) => Ok(text@),
        Err(error) => Err(error@),
    }
}

impl View for Response {
    type V = Answer;

    open spec fn view(&self) -> Answer {
        Answer { correlation_id: self.correlation_id, outcome: outcome_view(self.outcome) }
    }
}

impl View for Invocation {
    type V = Request;

    open spec fn view(&self) -> Request {
        Request {
            name: self.name@,
            arguments: self.arguments@,
            correlation_id: self.correlation_id,
        }
    }
}

impl View for Call {
    type V = CallModel;

    open spec fn view(&self) -> CallModel {
        match self {
            Call::Ping { name } => CallModel::Ping { name: name@ },
        }
    }
}

impl View for Reply {
    type V = ReplyModel;

    open spec fn view(&self) -> ReplyModel {
        match self {
            Reply::Greeting(response) => ReplyModel::Greeting {
                greeting: response.greeting@,
                name: response.name@,
            },
        }
    }
}

/// The call that a command makes of the text members of its argument
/// object. The greeting takes the member `name`, which must be a text.
pub open spec fn call_of(command: Command, members: Option<Map<Seq<char>, Seq<char>>>) -> Option<
    CallModel,
> {
    match command {
        Command::Ping => match members {
            Some(m) => if m.contains_key("name"@) {
                Some(CallModel::Ping { name: m["name"@] })
            } else {
                None
            },
            None => None,
        },
    }
}

/// The call that a command makes of its argument bytes, or `None` where the
/// bytes do not hold what the command takes.
pub open spec fn decoded(command: Command, arguments: Seq<u8>) -> Option<CallModel> {
    call_of(command, parsed_text_members(arguments))
}

/// What the handler of a call hands back: its reply, or the message of its
/// failure.
pub open spec fn reply_of(call: CallModel) -> Result<ReplyModel, Seq<char>> {
    match call {
        CallModel::Ping { name } => Ok(ReplyModel::Greeting { greeting: greeting_for(name), name }),
    }
}

/// The JSON object of a greeting, given the literals of its two members.
pub open spec fn framed_greeting(greeting: Seq<char>, name: Seq<char>) -> Seq<char> {
    "{\"greeting\":"@ + greeting + ",\"name\":"@ + name + "}"@
}

/// A reply as JSON text.
pub open spec fn encoded(reply: ReplyModel) -> Seq<char> {
    match reply {
        ReplyModel::Greeting { greeting, name } => framed_greeting(
            string_literal(greeting),
            string_literal(name),
        ),
    }
}

/// What a response holds once the handler has finished.
pub open spec fn settled(result: Result<ReplyModel, Seq<char>>) -> Result<Seq<char>, Fault> {
    match result {
        Ok(reply) => Ok(encoded(reply)),
        Err(message) => Err(Fault::HandlerError(message)),
    }
}

/// What the response to an invocation holds: the name is looked up first,
/// then the arguments are read, then the handler runs.
pub open spec fn outcome_for(
    table: Map<Seq<char>, Command>,
    name: Seq<char>,
    arguments: Seq<u8>,
) -> Result<Seq<char>, Fault> {
    if !table.contains_key(name) {
        Err(Fault::UnknownCommand)
    } else {
        match decoded(table[name], arguments) {
            None => Err(Fault::DeserializationError),
            Some(call) => settled(reply_of(call)),
        }
    }
}

/// The response to an invocation.
pub open spec fn answer_for(table: Map<Seq<char>, Command>, request: Request) -> Answer {
    Answer {
        correlation_id: request.correlation_id,
        outcome: outcome_for(table, request.name, request.arguments),
    }
}

/// The result of a handler as a mathematical value.
pub open spec fn result_view(result: Result<Reply, String>) -> Result<ReplyModel, Seq<char>> {
    match result {
        Ok(reply) => Ok(reply@),
        Err(message) => Err(message@),
    }
}

/// The call of the greeting, given what the argument object holds under
/// `name`: the text there, or `None` where there is no such text.
pub fn ping_call(name: Option<String>) -> (call: Result<Call, InvokeError>)
    ensures
        match name {
            Some(text) => call matches Ok(c) && c@ == (CallModel::Ping { name: text@ }),
            None => call matches Err(e) && e@ == Fault::DeserializationError,
        },
{
    match name {
        Some(text) => Ok(Call::Ping { name: text }),
        None => Err(InvokeError::DeserializationError),
    }
}

/// Reads the arguments that `command` takes out of `arguments`.
pub fn decode_arguments(command: Command, arguments: &[u8]) -> (call: Result<Call, InvokeError>)
    ensures
        match decoded(command, arguments@) {
            Some(model) => call matches Ok(c) && c@ == model,
            None => call matches Err(e) && e@ == Fault::DeserializationError,
        },
{
    match command {
        Command::Ping => match parse_document(arguments) {
            Some(document) => ping_call(text_member(&document, "name")),
            None => Err(InvokeError::DeserializationError),
        },
    }
}

/// Runs the handler of a call.
pub fn run(call: Call) -> (result: Result<Reply, String>)
    ensures
        result_view(result) == reply_of(call@),
{
    match call {
        Call::Ping { name } => Ok(Reply::Greeting(ping(name))),
    }
}

/// Writes the JSON object of a greeting around the literals of its two
/// members.
pub fn frame_greeting(greeting: &str, name: &str) -> (text: String)
    ensures
        text@ == framed_greeting(greeting@, name@),
{
    String::from_str("{\"greeting\":").concat(greeting).concat(",\"name\":").concat(name).concat(
        "}",
    )
}

/// Writes a reply as JSON text.
pub fn encode(reply: &Reply) -> (text: String)
    ensures
        text@ == encoded(reply@),
{
    match reply {
        Reply::Greeting(response) => {
            let greeting = quote(response.greeting.as_str()).unwrap();
            let name = quote(response.name.as_str()).unwrap();
            frame_greeting(greeting.as_str(), name.as_str())
        },
    }
}

/// The response to the invocation `correlation_id` whose handler has handed
/// back `result`.
pub fn respond(correlation_id: u64, result: Result<Reply, String>) -> (response: Response)
    ensures
        response@ == (Answer { correlation_id, outcome: settled(result_view(result)) }),
{
    let outcome = match result {
        Ok(reply) => Ok(encode(&reply)),
        Err(message) => Err(InvokeError::HandlerError(message)),
    };
    Response { correlation_id, outcome }
}

/// Answers one invocation: looks `name` up in the registry, reads the
/// arguments that its handler takes, runs the handler, and writes the reply.
/// The response bears `correlation_id` whatever happens. A name that is not
/// registered is reported as such whatever the argument bytes hold; under a
/// registered name, bytes that do not hold the handler's arguments are
/// reported as malformed.
pub fn invoke(
    registry: &Registry,
    name: &str,
    argument_bytes: &[u8],
    correlation_id: u64,
) -> (response: Response)
    ensures
        response@ == answer_for(
            registry@,
            Request { name: name@, arguments: argument_bytes@, correlation_id },
        ),
        response.correlation_id == correlation_id,
        !registry@.contains_key(name@) ==> response@.outcome == Err::<Seq<char>, Fault>(
            Fault::UnknownCommand,
        ),
        registry@.contains_key(name@) && decoded(registry@[name@], argument_bytes@) is None
            ==> response@.outcome == Err::<Seq<char>, Fault>(Fault::DeserializationError),
{
    match registry.lookup(name) {
        None => Response { correlation_id, outcome: Err(InvokeError::UnknownCommand) },
        Some(command) => match decode_arguments(command, argument_bytes) {
            Err(error) => Response { correlation_id, outcome: Err(error) },
            Ok(call) => respond(correlation_id, run(call)),
        },
    }
}

impl Invocation {
    /// Answers this invocation, which is used up by it.
    pub fn dispatch(self, registry: &Registry) -> (response: Response)
        ensures
            response@ == answer_for(registry@, self@),
    {
        invoke(registry, self.name.as_str(), self.arguments.as_slice(), self.correlation_id)
    }
}

/// The responses owed to a list of invocations, in the order of the list.
pub open spec fn answers_for(table: Map<Seq<char>, Command>, requests: Seq<Request>) -> Seq<
    Answer,
> {
    Seq::new(requests.len(), |i: int| answer_for(table, requests[i]))
}

/// No two invocations of the list bear the same correlation id.
pub open spec fn distinct_ids(requests: Seq<Request>) -> bool {
    forall|i: int, j: int|
        0 <= i < j < requests.len() ==> (#[trigger] requests[i]).correlation_id != (
        #[trigger] requests[j]).correlation_id
}

/// Invocations that are in flight together, with distinct correlation ids,
/// can be answered in any order: when `responses` holds the responses owed
/// to `requests`, in whatever order they were finished, there are as many
/// responses as invocations, each invocation has its response among them,
/// a response that bears the id of an invocation is the one owed to it, and
/// no two responses bear the same id.
pub proof fn lemma_responses_match_by_id(
    table: Map<Seq<char>, Command>,
    requests: Seq<Request>,
    responses: Seq<Answer>,
)
    requires
        distinct_ids(requests),
        responses.to_multiset() == answers_for(table, requests).to_multiset(),
    ensures
        responses.len() == requests.len(),
        forall|i: int|
            0 <= i < requests.len() ==> responses.contains(
                answer_for(table, #[trigger] requests[i]),
            ),
        forall|i: int, j: int|
            0 <= i < requests.len() && 0 <= j < responses.len() && (
            #[trigger] responses[j]).correlation_id == (#[trigger] requests[i]).correlation_id
                ==> responses[j] == answer_for(table, requests[i]),
        forall|j: int, k: int|
            0 <= j < k < responses.len() ==> (#[trigger] responses[j]).correlation_id != (
            #[trigger] responses[k]).correlation_id,
{
    let owed = answers_for(table, requests);
    to_multiset_len(responses);
    to_multiset_len(owed);
    assert forall|i: int| 0 <= i < requests.len() implies responses.contains(
        answer_for(table, #[trigger] requests[i]),
    ) by {
        assert(owed[i] == answer_for(table, requests[i]));
        assert(owed.contains(owed[i]));
        to_multiset_contains(owed, owed[i]);
        to_multiset_contains(responses, owed[i]);
    }
    assert forall|j: int| 0 <= j < responses.len() implies owed.contains(
        #[trigger] responses[j],
    ) by {
        assert(responses.contains(responses[j]));
        to_multiset_contains(responses, responses[j]);
        to_multiset_contains(owed, responses[j]);
    }
    assert forall|i: int, j: int|
        0 <= i < requests.len() && 0 <= j < responses.len() && (
        #[trigger] responses[j]).correlation_id == (
        #[trigger] requests[i]).correlation_id implies responses[j] == answer_for(
        table,
        requests[i],
    ) by {
        let a = choose|a: int| 0 <= a < owed.len() && owed[a] == responses[j];
        assert(requests[a].correlation_id == requests[i].correlation_id);
    }
    assert(owed.no_duplicates()) by {
        assert forall|a: int, b: int| 0 <= a < owed.len() && 0 <= b < owed.len() && a
            != b implies owed[a] != owed[b] by {
            assert(requests[a].correlation_id != requests[b].correlation_id);
        }
    }
    owed.lemma_multiset_has_no_duplicates();
    responses.lemma_multiset_has_no_duplicates_conv();
    assert forall|j: int, k: int| 0 <= j < k < responses.len() implies (
    #[trigger] responses[j]).correlation_id != (#[trigger] responses[k]).correlation_id by {
        let a = choose|a: int| 0 <= a < owed.len() && owed[a] == responses[j];
        let b = choose|b: int| 0 <= b < owed.len() && owed[b] == responses[k];
        assert(responses[j] != responses[k]);
        assert(a != b);
        assert(requests[a].correlation_id != requests[b].correlation_id);
    }
}

} // verus!
