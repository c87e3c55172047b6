//! One coaching turn: the request that opens it and the reply that ends it.

use vstd::prelude::*;
use vstd::string::*;
use crate::json::{json_reading, read_json, Json};
use crate::prompt::{instruction, system_instruction};
use crate::text::{
    append_decimal, contains_text, decimal, is_blank, is_blank_text, lemma_trimmed_empty_iff_blank,
    occurs_at, trim, trimmed,
};

verus! {

/// What the front end sends for one turn.
#[derive(Debug, Clone, PartialEq, Eq)]
pub struct RoleplayTurnInput {
    /// The key for the remote service; it must not be blank.
    pub api_key: String,
    /// The model to ask, if not the default one.
    pub model: Option<String>,
    /// How hard the simulated client is, if not the default.
    pub difficulty: Option<u8>,
    /// The conversation so far.
    pub transcript: String,
}

/// What the front end gets back: the model's answer as it came.
#[derive(Debug, Clone, PartialEq, Eq)]
pub struct RoleplayTurnOutput {
    pub raw_text: String,
}

/// The status of an HTTP response: its code and, where the code is a
/// registered one, the reason phrase that goes with it.
#[derive(Debug, Clone, PartialEq, Eq)]
pub struct HttpStatus {
    pub code: u16,
    pub reason: Option<String>,
}

/// Why a turn failed.
#[derive(Debug, Clone, PartialEq, Eq)]
pub enum ErrorKind {
    /// The key is absent or blank.
    MissingCredential,
    /// The remote service could not be reached.
    RequestFailed { detail: String },
    /// The response could not be read as JSON.
    InvalidResponseFormat { status: HttpStatus, detail: String },
    /// The response held no text.
    EmptyResponse { status: HttpStatus },
}

/// One message of a chat.
#[derive(Debug, Clone, PartialEq, Eq)]
pub struct ChatMessage {
    pub role: String,
    pub content: String,
}

/// The request that a turn sends: where to, under which bearer token, and the
/// fields of its JSON body.
#[derive(Debug, Clone, PartialEq, Eq)]
pub struct ChatRequest {
    pub endpoint: String,
    pub bearer_token: String,
    pub model: String,
    pub messages: Vec<ChatMessage>,
    /// The sampling temperature, in tenths.
    pub temperature_tenths: u8,
}

/// How a request to the remote service ended.
#[derive(Debug, Clone, PartialEq, Eq)]
pub enum Reply {
    /// No response arrived.
    Unreachable { detail: String },
    /// A response arrived, but its body could not be read.
    Unreadable { status: HttpStatus, detail: String },
    /// A response arrived, with this body.
    Received { status: HttpStatus, body: Vec<u8> },
}

/// The model that is asked where the input names none.
pub open spec fn default_model() -> Seq<char> {
    "gpt-5-mini"@
}

/// The address of the chat-completion service.
pub open spec fn chat_endpoint() -> Seq<char> {
    "https://api.openai.com/v1/chat/completions"@
}

impl RoleplayTurnInput {
    /// The key is not blank.
    pub open spec fn has_credential(self) -> bool {
        trimmed(self.api_key@).len() > 0
    }

    /// The model that the turn asks.
    pub open spec fn effective_model(self) -> Seq<char> {
        match self.model {
            Some(m) => m@,
            None => default_model(),
        }
    }

    /// The difficulty that the turn plays at.
    pub open spec fn effective_difficulty(self) -> u8 {
        match self.difficulty {
            Some(d) => d,
            None => 2,
        }
    }
}

impl ChatRequest {
    /// This is the request that `input` asks for.
    pub open spec fn is_request_for(self, input: RoleplayTurnInput) -> bool {
        &&& self.endpoint@ == chat_endpoint()
        &&& self.bearer_token@ == trimmed(input.api_key@)
        &&& self.model@ == input.effective_model()
        &&& self.messages@.len() == 1
        &&& self.messages@[0].role@ == "system"@
        &&& self.messages@[0].content@ == instruction(
            input.effective_difficulty(),
            input.transcript@,
        )
        &&& self.temperature_tenths == 7
    }
}

impl HttpStatus {
    /// The status as it is written in a message: the code, a space, and the
    /// reason phrase or a stand-in for it.
    pub open spec fn rendered(self) -> Seq<char> {
        decimal(self.code as nat) + " "@ + match self.reason {
            Some(phrase) => phrase@,
            None => "<unknown status code>"@,
        }
    }

    /// Writes the status as a message shows it.
    pub fn render(&self) -> (r: String)
        ensures
            r@ == self.rendered(),
    {
        let mut out = String::new();
        append_decimal(&mut out, self.code as u64);
        out.append(" ");
        match &self.reason {
            Some(phrase) => out.append(phrase.as_str()),
            None => out.append("<unknown status code>"),
        }
        assert(out@ =~= self.rendered());
        out
    }
}

impl ErrorKind {
    /// The message that the front end shows for this failure.
    pub open spec fn message_text(self) -> Seq<char> {
        match self {
            ErrorKind::MissingCredential => {
                "Missing API key. Paste your OpenAI API key in Roleplay settings."@
            },
            ErrorKind::RequestFailed { detail } => "AI request failed: "@ + detail@,
            ErrorKind::InvalidResponseFormat { status, detail } => {
                "AI response not JSON: "@ + detail@ + " (status "@ + status.rendered() + ")"@
            },
            ErrorKind::EmptyResponse { status } => {
                "AI returned empty content (status "@ + status.rendered() + ")"@
            },
        }
    }

    /// Writes the message for this failure.
    pub fn message(&self) -> (r: String)
        ensures
            r@ == self.message_text(),
    {
        match self {
            ErrorKind::MissingCredential => String::from_str(
                "Missing API key. Paste your OpenAI API key in Roleplay settings.",
            ),
            ErrorKind::RequestFailed { detail } => {
                let mut out = String::from_str("AI request failed: ");
                out.append(detail.as_str());
                out
            },
            ErrorKind::InvalidResponseFormat { status, detail } => {
                let mut out = String::from_str("AI response not JSON: ");
                out.append(detail.as_str());
                out.append(" (status ");
                let shown = status.render();
                out.append(shown.as_str());
                out.append(")");
                out
            },
            ErrorKind::EmptyResponse { status } => {
                let mut out = String::from_str("AI returned empty content (status ");
                let shown = status.render();
                out.append(shown.as_str());
                out.append(")");
                out
            },
        }
    }
}

/// The message of a failure that came with a response names the code of that
/// response's status.
pub proof fn lemma_message_names_status(error: ErrorKind)
    ensures
        error matches ErrorKind::InvalidResponseFormat { status, .. } ==> contains_text(
            error.message_text(),
            decimal(status.code as nat),
        ),
        error matches ErrorKind::EmptyResponse { status } ==> contains_text(
            error.message_text(),
            decimal(status.code as nat),
        ),
{
    let whole = error.message_text();
    match error {
        ErrorKind::InvalidResponseFormat { status, detail } => {
            let numeral = decimal(status.code as nat);
            let before = ("AI response not JSON: "@ + detail@ + " (status "@).len() as int;
            assert(whole.subrange(before, before + numeral.len()) =~= numeral);
            assert(occurs_at(whole, numeral, before));
        },
        ErrorKind::EmptyResponse { status } => {
            let numeral = decimal(status.code as nat);
            let before = "AI returned empty content (status "@.len() as int;
            assert(whole.subrange(before, before + numeral.len()) =~= numeral);
            assert(occurs_at(whole, numeral, before));
        },
        _ => {},
    }
}

/// The model to ask: the one given, or the default.
pub fn resolve_model(model: Option<String>) -> (r: String)
    ensures
        r@ == match model {
            Some(m) => m@,
            None => default_model(),
        },
        model is None ==> r@ == "gpt-5-mini"@,
{
    match model {
        Some(m) => m,
        None => String::from_str("gpt-5-mini"),
    }
}

/// The difficulty to play at: the one given, or 2.
pub fn resolve_difficulty(difficulty: Option<u8>) -> (r: u8)
    ensures
        r == match difficulty {
            Some(d) => d,
            None => 2,
        },
        difficulty is None ==> r == 2,
{
    match difficulty {
        Some(d) => d,
        None => 2,
    }
}

/// Prepares the request of a turn. A blank key is refused, and then nothing
/// is to be sent; otherwise the request carries the trimmed key, the model
/// and one system message with the instruction.
pub fn prepare_turn(input: RoleplayTurnInput) -> (r: Result<ChatRequest, ErrorKind>)
    ensures
        r is Ok <==> input.has_credential(),
        is_blank(input.api_key@) ==> r is Err,
        r matches Err(e) ==> e is MissingCredential,
        r matches Ok(request) ==> request.is_request_for(input),
        r matches Ok(request) ==> (input.model is None ==> request.model@ == "gpt-5-mini"@),
        r matches Ok(request) ==> (input.difficulty is None ==> request.messages@[0].content@
            == instruction(2, input.transcript@)),
{
    proof {
        lemma_trimmed_empty_iff_blank(input.api_key@);
    }
    let key: &str = trim(input.api_key.as_str());
    if key.is_empty() {
        return Err(ErrorKind::MissingCredential);
    }
    let bearer_token = String::from_str(key);
    let content = system_instruction(resolve_difficulty(input.difficulty), input.transcript.as_str());
    let model = resolve_model(input.model);
    let mut messages: Vec<ChatMessage> = Vec::new();
    messages.push(ChatMessage { role: String::from_str("system"), content });
    Ok(
        ChatRequest {
            endpoint: String::from_str("https://api.openai.com/v1/chat/completions"),
            bearer_token,
            model,
            messages,
            temperature_tenths: 7,
        },
    )
}

/// The value at `choices[0].message.content` of a reply, if there is one.
pub open spec fn first_choice_content(doc: Json) -> Option<Json> {
    match doc.member("choices"@) {
        Some(choices) => match choices.element(0) {
            Some(first) => match first.member("message"@) {
                Some(message) => message.member("content"@),
                None => None,
            },
            None => None,
        },
        None => None,
    }
}

/// The text of the first choice of a reply; empty where the reply has no
/// such value or the value is not a text.
pub open spec fn reply_text(doc: Json) -> Seq<char> {
    match first_choice_content(doc) {
        Some(content) => match content.text() {
            Some(s) => s,
            None => Seq::empty(),
        },
        None => Seq::empty(),
    }
}

/// Takes the text of the first choice out of a reply.
pub fn first_choice_text(doc: &Json) -> (r: String)
    ensures
        r@ == reply_text(*doc),
{
    let found: Option<&Json> = match doc.get("choices") {
        Some(choices) => match choices.at(0) {
            Some(first) => match first.get("message") {
                Some(message) => message.get("content"),
                None => None,
            },
            None => None,
        },
        None => None,
    };
    assert(match found {
        Some(content) => first_choice_content(*doc) == Some(*content),
        None => first_choice_content(*doc) is None,
    });
    match found {
        Some(content) => match content.as_text() {
            Some(s) => String::from_str(s),
            None => String::new(),
        },
        None => String::new(),
    }
}

/// `r` is how a turn ends when a response with `status` arrived and its body
/// was read as `parsed`.
pub open spec fn is_verdict_on(
    r: Result<RoleplayTurnOutput, ErrorKind>,
    status: HttpStatus,
    parsed: Result<Json, Seq<char>>,
) -> bool {
    match parsed {
        Err(fault) => r matches Err(ErrorKind::InvalidResponseFormat { status: s, detail: d })
            && s == status && d@ == fault,
        Ok(doc) => if trimmed(reply_text(doc)).len() == 0 {
            r matches Err(ErrorKind::EmptyResponse { status: s }) && s == status
        } else {
            r matches Ok(out) && out.raw_text@ == reply_text(doc)
        },
    }
}

/// A reply whose `choices` holds no first item has no content.
pub proof fn lemma_no_first_choice_no_content(doc: Json)
    requires
        doc.member("choices"@) matches Some(choices) ==> choices.element(0) is None,
    ensures
        first_choice_content(doc) is None,
        reply_text(doc) == Seq::<char>::empty(),
{
}

/// A response whose reply has no content, or content that is not a text,
/// ends the turn as an empty response with the status of that response.
pub proof fn lemma_reply_without_text_is_empty(
    r: Result<RoleplayTurnOutput, ErrorKind>,
    status: HttpStatus,
    doc: Json,
)
    requires
        is_verdict_on(r, status, Ok(doc)),
        first_choice_content(doc) matches Some(content) ==> content.text() is None,
    ensures
        r matches Err(ErrorKind::EmptyResponse { status: s }) && s == status,
{
    assert(reply_text(doc) =~= Seq::<char>::empty());
}

/// A response whose body the parser refuses ends the turn as an invalid
/// format, and the message of that failure names the code of the status.
pub proof fn lemma_unparsable_body_is_invalid_format(
    r: Result<RoleplayTurnOutput, ErrorKind>,
    status: HttpStatus,
    fault: Seq<char>,
)
    requires
        is_verdict_on(r, status, Err(fault)),
    ensures
        r matches Err(e) && e is InvalidResponseFormat && contains_text(
            e.message_text(),
            decimal(status.code as nat),
        ),
{
    lemma_message_names_status(r->Err_0);
}

/// A parse result with the fault taken as its characters.
pub open spec fn parsed_view(parsed: Result<Json, String>) -> Result<Json, Seq<char>> {
    match parsed {
        Ok(doc) => Ok(doc),
        Err(fault) => Err(fault@),
    }
}

/// Ends a turn whose response has been parsed: a fault of the parser is an
/// invalid format, a reply without text is an empty response, and any other
/// reply gives its text unchanged.
pub fn conclude_parsed(status: HttpStatus, parsed: Result<Json, String>) -> (r: Result<
    RoleplayTurnOutput,
    ErrorKind,
>)
    ensures
        is_verdict_on(r, status, parsed_view(parsed)),
        r is Ok <==> (parsed matches Ok(doc) && !is_blank(reply_text(doc))),
{
    match parsed {
        Err(detail) => Err(ErrorKind::InvalidResponseFormat { status, detail }),
        Ok(doc) => {
            let raw_text = first_choice_text(&doc);
            if is_blank_text(raw_text.as_str()) {
                Err(ErrorKind::EmptyResponse { status })
            } else {
                Ok(RoleplayTurnOutput { raw_text })
            }
        },
    }
}

/// Ends a turn, given how its request went.
pub fn conclude_turn(reply: Reply) -> (r: Result<RoleplayTurnOutput, ErrorKind>)
    ensures
        match reply {
            Reply::Unreachable { detail } => r matches Err(ErrorKind::RequestFailed { detail: d })
                && d == detail,
            Reply::Unreadable { status, detail } => r matches Err(
                ErrorKind::InvalidResponseFormat { status: s, detail: d },
            ) && s == status && d == detail,
            Reply::Received { status, body } => is_verdict_on(r, status, json_reading(body@)),
        },
{
    match reply {
        Reply::Unreachable { detail } => Err(ErrorKind::RequestFailed { detail }),
        Reply::Unreadable { status, detail } => Err(
            ErrorKind::InvalidResponseFormat { status, detail },
        ),
        Reply::Received { status, body } => {
            let parsed = read_json(body.as_slice());
            conclude_parsed(status, parsed)
        },
    }
}

} // verus!
