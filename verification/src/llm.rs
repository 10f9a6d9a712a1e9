//! Talking to a language-model provider: what to send, and what the reply
//! amounts to. Sending is left to the caller.

use crate::error::{Error, ErrorV};
use crate::json::{items_view, members_view, Json, JsonNumber, JsonV, NumberV};
use crate::text::str_eq;
use vstd::prelude::*;
use vstd::string::StringExecFns;

verus! {

/// The providers that the client can talk to.
#[derive(Debug, Clone, Copy, PartialEq, Eq)]
pub enum Provider {
    OpenAi,
    Anthropic,
    Ollama,
}

/// Where Ollama is reached when no other host is given.
pub const DEFAULT_OLLAMA_HOST: &'static str = "http://localhost:11434";

/// The sampling temperature sent to OpenAI, 0.7, as the bits of a double.
pub const TEMPERATURE_BITS: u64 = 0x3FE6_6666_6666_6666;

/// The most tokens asked of Anthropic.
pub const MAX_TOKENS: i64 = 4096;

/// The provider of a given name.
pub open spec fn provider_named(name: Seq<char>) -> Option<Provider> {
    if name == "openai"@ {
        Some(Provider::OpenAi)
    } else if name == "anthropic"@ {
        Some(Provider::Anthropic)
    } else if name == "ollama"@ {
        Some(Provider::Ollama)
    } else {
        None
    }
}

/// How a provider is called in messages.
pub open spec fn provider_label(provider: Provider) -> Seq<char> {
    match provider {
        Provider::OpenAi => "OpenAI"@,
        Provider::Anthropic => "Anthropic"@,
        Provider::Ollama => "Ollama"@,
    }
}

/// The failure for a provider that the client does not know.
pub open spec fn unsupported_provider(name: Seq<char>) -> ErrorV {
    ErrorV::ConfigError("Unsupported LLM provider: "@ + name)
}

/// A message of a chat: who speaks, and what.
pub open spec fn chat_message(role: Seq<char>, content: Seq<char>) -> JsonV {
    JsonV::Object(seq![("role"@, JsonV::text(role)), ("content"@, JsonV::text(content))])
}

/// The body of the request to a provider.
pub open spec fn request_body(
    provider: Provider,
    model: Seq<char>,
    system: Seq<char>,
    user: Seq<char>,
) -> JsonV {
    match provider {
        Provider::OpenAi => JsonV::Object(
            seq![
                ("model"@, JsonV::text(model)),
                (
                    "messages"@,
                    JsonV::Array(
                        seq![chat_message("system"@, system), chat_message("user"@, user)],
                    ),
                ),
                ("temperature"@, JsonV::Number(NumberV::Float(TEMPERATURE_BITS))),
            ],
        ),
        Provider::Anthropic => JsonV::Object(
            seq![
                ("model"@, JsonV::text(model)),
                ("max_tokens"@, JsonV::integer(MAX_TOKENS as int)),
                ("system"@, JsonV::text(system)),
                ("messages"@, JsonV::Array(seq![chat_message("user"@, user)])),
            ],
        ),
        Provider::Ollama => JsonV::Object(
            seq![
                ("model"@, JsonV::text(model)),
                (
                    "messages"@,
                    JsonV::Array(
                        seq![chat_message("system"@, system), chat_message("user"@, user)],
                    ),
                ),
                ("stream"@, JsonV::Bool(false)),
            ],
        ),
    }
}

/// The address that the request goes to.
pub open spec fn request_url(provider: Provider, ollama_host: Option<Seq<char>>) -> Seq<char> {
    match provider {
        Provider::OpenAi => "https://api.openai.com/v1/chat/completions"@,
        Provider::Anthropic => "https://api.anthropic.com/v1/messages"@,
        Provider::Ollama => match ollama_host {
            Some(host) => host + "/api/chat"@,
            None => DEFAULT_OLLAMA_HOST@ + "/api/chat"@,
        },
    }
}

/// The headers of the request, in the order in which they are set.
pub open spec fn request_headers(provider: Provider, api_key: Seq<char>) -> Seq<
    (Seq<char>, Seq<char>),
> {
    match provider {
        Provider::OpenAi => seq![
            ("Authorization"@, "Bearer "@ + api_key),
            ("Content-Type"@, "application/json"@),
        ],
        Provider::Anthropic => seq![
            ("x-api-key"@, api_key),
            ("anthropic-version"@, "2023-06-01"@),
            ("Content-Type"@, "application/json"@),
        ],
        Provider::Ollama => seq![("Content-Type"@, "application/json"@)],
    }
}

/// A request to be sent by HTTP POST.
#[derive(Debug, Clone)]
pub struct HttpRequest {
    pub url: String,
    pub headers: Vec<(String, String)>,
    pub body: Json,
}

/// The mathematical model of an [`HttpRequest`].
pub struct HttpRequestV {
    pub url: Seq<char>,
    pub headers: Seq<(Seq<char>, Seq<char>)>,
    pub body: JsonV,
}

impl View for HttpRequest {
    type V = HttpRequestV;

    open spec fn view(&self) -> HttpRequestV {
        HttpRequestV {
            url: self.url@,
            headers: Seq::new(
                self.headers@.len(),
                |i: int| (self.headers@[i].0@, self.headers@[i].1@),
            ),
            body: self.body@,
        }
    }
}

/// What came back for a request.
#[derive(Debug)]
pub enum HttpReply {
    /// The request could not be sent.
    SendFailed(String),
    /// The provider answered with a status that is no success.
    Refused { status: String, body: String },
    /// The answer is not JSON.
    Unparseable(String),
    /// The answer.
    Body(Json),
}

/// The mathematical model of an [`HttpReply`].
pub enum HttpReplyV {
    SendFailed(Seq<char>),
    Refused { status: Seq<char>, body: Seq<char> },
    Unparseable(Seq<char>),
    Body(JsonV),
}

impl View for HttpReply {
    type V = HttpReplyV;

    open spec fn view(&self) -> HttpReplyV {
        match self {
            HttpReply::SendFailed(e) => HttpReplyV::SendFailed(e@),
            HttpReply::Refused { status, body } => HttpReplyV::Refused {
                status: status@,
                body: body@,
            },
            HttpReply::Unparseable(e) => HttpReplyV::Unparseable(e@),
            HttpReply::Body(json) => HttpReplyV::Body(json@),
        }
    }
}

/// The text of one choice of an OpenAI answer, if the choice has one.
pub open spec fn choice_text(choice: JsonV) -> Option<Seq<char>> {
    match choice.get("message"@) {
        Some(message) => message.str_member("content"@),
        None => None,
    }
}

/// Whether the first `n` choices all have a text.
pub open spec fn choices_well_formed(choices: Seq<JsonV>, n: int) -> bool {
    forall|i: int| 0 <= i < n && i < choices.len() ==> (#[trigger] choice_text(choices[i])) is Some
}

/// What is wrong with an answer that holds no generated text in the place
/// where the provider puts it.
pub enum Missing {
    /// The answer does not have the provider's shape.
    Malformed,
    /// The answer has the shape but no text.
    Empty,
}

/// The generated text in an answer, or what is missing.
pub open spec fn generated_text(provider: Provider, body: JsonV) -> Result<Seq<char>, Missing> {
    match provider {
        Provider::OpenAi => match body.get("choices"@) {
            Some(JsonV::Array(choices)) => if !choices_well_formed(choices, choices.len() as int) {
                Err(Missing::Malformed)
            } else if choices.len() == 0 {
                Err(Missing::Empty)
            } else {
                Ok(choice_text(choices[0])->0)
            },
            _ => Err(Missing::Malformed),
        },
        Provider::Anthropic => match body.get("content"@) {
            Some(content) => match content.at(0) {
                Some(first) => match first.str_member("text"@) {
                    Some(text) => Ok(text),
                    None => Err(Missing::Empty),
                },
                None => Err(Missing::Empty),
            },
            None => Err(Missing::Empty),
        },
        Provider::Ollama => match body.get("message"@) {
            Some(message) => match message.str_member("content"@) {
                Some(text) => Ok(text),
                None => Err(Missing::Empty),
            },
            None => Err(Missing::Empty),
        },
    }
}

/// What a reply amounts to: the generated text, or the failure. Every
/// failure is a configuration error whose text names the provider.
pub open spec fn reply_result(provider: Provider, reply: HttpReplyV) -> Result<Seq<char>, ErrorV> {
    let label = provider_label(provider);
    match reply {
        HttpReplyV::SendFailed(e) => Err(
            ErrorV::ConfigError(label + " API request failed: "@ + e),
        ),
        HttpReplyV::Refused { status, body } => Err(
            ErrorV::ConfigError(label + " API error "@ + status + ": "@ + body),
        ),
        HttpReplyV::Unparseable(e) => Err(
            ErrorV::ConfigError("Failed to parse "@ + label + " response: "@ + e),
        ),
        HttpReplyV::Body(json) => match generated_text(provider, json) {
            Ok(text) => Ok(text),
            Err(Missing::Malformed) => Err(
                ErrorV::ConfigError(
                    "Failed to parse "@ + label + " response: "@ + "unexpected structure"@,
                ),
            ),
            Err(Missing::Empty) => Err(ErrorV::ConfigError("No response from "@ + label)),
        },
    }
}

impl Provider {
    /// The provider of the given name.
    pub fn named(name: &str) -> (r: Option<Provider>)
        ensures
            r == provider_named(name@),
    {
        if str_eq(name, "openai") {
            Some(Provider::OpenAi)
        } else if str_eq(name, "anthropic") {
            Some(Provider::Anthropic)
        } else if str_eq(name, "ollama") {
            Some(Provider::Ollama)
        } else {
            None
        }
    }

    /// How the provider is called in messages.
    pub fn label(&self) -> (r: &'static str)
        ensures
            r@ == provider_label(*self),
    {
        match self {
            Provider::OpenAi => "OpenAI",
            Provider::Anthropic => "Anthropic",
            Provider::Ollama => "Ollama",
        }
    }
}

/// Builds one message of a chat.
fn make_chat_message(role: &str, content: &str) -> (r: Json)
    ensures
        r@ == chat_message(role@, content@),
{
    let mut members: Vec<(String, Json)> = Vec::new();
    members.push((String::from_str("role"), Json::string(role)));
    members.push((String::from_str("content"), Json::string(content)));
    assert(members_view(members@) =~= seq![
        ("role"@, JsonV::text(role@)),
        ("content"@, JsonV::text(content@)),
    ]);
    Json::object(members)
}

/// Builds the body of the request to a provider.
pub fn make_request_body(provider: Provider, model: &str, system: &str, user: &str) -> (r: Json)
    ensures
        r@ == request_body(provider, model@, system@, user@),
{
    let mut messages: Vec<Json> = Vec::new();
    let mut members: Vec<(String, Json)> = Vec::new();
    members.push((String::from_str("model"), Json::string(model)));
    match provider {
        Provider::OpenAi => {
            messages.push(make_chat_message("system", system));
            messages.push(make_chat_message("user", user));
            assert(items_view(messages@) =~= seq![
                chat_message("system"@, system@),
                chat_message("user"@, user@),
            ]);
            members.push((String::from_str("messages"), Json::array(messages)));
            members.push(
                (
                    String::from_str("temperature"),
                    Json::Number(JsonNumber::Float(TEMPERATURE_BITS)),
                ),
            );
            assert(members_view(members@) =~= seq![
                ("model"@, JsonV::text(model@)),
                ("messages"@, members@[1].1@),
                ("temperature"@, JsonV::Number(NumberV::Float(TEMPERATURE_BITS))),
            ]);
        },
        Provider::Anthropic => {
            messages.push(make_chat_message("user", user));
            assert(items_view(messages@) =~= seq![chat_message("user"@, user@)]);
            members.push((String::from_str("max_tokens"), Json::integer(MAX_TOKENS)));
            members.push((String::from_str("system"), Json::string(system)));
            members.push((String::from_str("messages"), Json::array(messages)));
            assert(members_view(members@) =~= seq![
                ("model"@, JsonV::text(model@)),
                ("max_tokens"@, JsonV::integer(MAX_TOKENS as int)),
                ("system"@, JsonV::text(system@)),
                ("messages"@, members@[3].1@),
            ]);
        },
        Provider::Ollama => {
            messages.push(make_chat_message("system", system));
            messages.push(make_chat_message("user", user));
            assert(items_view(messages@) =~= seq![
                chat_message("system"@, system@),
                chat_message("user"@, user@),
            ]);
            members.push((String::from_str("messages"), Json::array(messages)));
            members.push((String::from_str("stream"), Json::Bool(false)));
            assert(members_view(members@) =~= seq![
                ("model"@, JsonV::text(model@)),
                ("messages"@, members@[1].1@),
                ("stream"@, JsonV::Bool(false)),
            ]);
        },
    }
    Json::object(members)
}

/// Reads the text of one choice of an OpenAI answer.
fn read_choice(choice: &Json) -> (r: Option<&str>)
    ensures
        match r {
            Some(text) => choice_text(choice@) == Some(text@),
            None => choice_text(choice@) is None,
        },
{
    match choice.get("message") {
        Some(message) => match message.get("content") {
            Some(content) => content.as_str(),
            None => None,
        },
        None => None,
    }
}

/// Finds the generated text in an answer.
pub fn find_generated_text(provider: Provider, body: &Json) -> (r: Result<String, Missing>)
    ensures
        match r {
            Ok(text) => generated_text(provider, body@) == Ok::<Seq<char>, Missing>(text@),
            Err(m) => generated_text(provider, body@) == Err::<Seq<char>, Missing>(m),
        },
{
    match provider {
        Provider::OpenAi => {
            let choices = match body.get("choices") {
                Some(Json::Array(choices)) => choices,
                _ => {
                    return Err(Missing::Malformed);
                },
            };
            proof {
                crate::json::lemma_array_view(*choices);
            }
            let ghost all = items_view(choices@);
            assert(body@.get("choices"@) == Some(JsonV::Array(all)));
            let mut i: usize = 0;
            while i < choices.len()
                invariant
                    i <= choices.len(),
                    all == items_view(choices@),
                    provider == Provider::OpenAi,
                    body@.get("choices"@) == Some(JsonV::Array(all)),
                    choices_well_formed(all, i as int),
                decreases choices.len() - i,
            {
                if read_choice(&choices[i]).is_none() {
                    assert(choice_text(all[i as int]) is None);
                    return Err(Missing::Malformed);
                }
                i += 1;
            }
            if choices.len() == 0 {
                return Err(Missing::Empty);
            }
            match read_choice(&choices[0]) {
                Some(text) => Ok(String::from_str(text)),
                None => Err(Missing::Malformed),
            }
        },
        Provider::Anthropic => {
            let text = match body.get("content") {
                Some(content) => match content.at(0) {
                    Some(first) => match first.get("text") {
                        Some(t) => t.as_str(),
                        None => None,
                    },
                    None => None,
                },
                None => None,
            };
            match text {
                Some(t) => Ok(String::from_str(t)),
                None => Err(Missing::Empty),
            }
        },
        Provider::Ollama => {
            let text = match body.get("message") {
                Some(message) => match message.get("content") {
                    Some(c) => c.as_str(),
                    None => None,
                },
                None => None,
            };
            match text {
                Some(t) => Ok(String::from_str(t)),
                None => Err(Missing::Empty),
            }
        },
    }
}

/// A client of a language-model provider.
pub struct LlmClient {
    provider: String,
    api_key: String,
    model: String,
}

impl LlmClient {
    /// The name of the provider.
    pub closed spec fn provider_name(&self) -> Seq<char> {
        self.provider@
    }

    /// The key that is sent with each request.
    pub closed spec fn key(&self) -> Seq<char> {
        self.api_key@
    }

    /// The name of the model.
    pub closed spec fn model_name(&self) -> Seq<char> {
        self.model@
    }

    /// A client for the named provider. The name is not examined before a
    /// request is made.
    pub fn new(provider: String, api_key: String, model: String) -> (r: LlmClient)
        ensures
            r.provider_name() == provider@,
            r.key() == api_key@,
            r.model_name() == model@,
    {
        LlmClient { provider, api_key, model }
    }

    /// The name of the provider.
    pub fn provider(&self) -> (r: &str)
        ensures
            r@ == self.provider_name(),
    {
        self.provider.as_str()
    }

    /// The name of the model.
    pub fn model(&self) -> (r: &str)
        ensures
            r@ == self.model_name(),
    {
        self.model.as_str()
    }

    /// The provider that the client talks to, if it is one that the client
    /// knows.
    pub fn resolve_provider(&self) -> (r: Result<Provider, Error>)
        ensures
            match r {
                Ok(p) => provider_named(self.provider_name()) == Some(p),
                Err(e) => provider_named(self.provider_name()) is None && e@
                    == unsupported_provider(self.provider_name()),
            },
    {
        match Provider::named(self.provider.as_str()) {
            Some(p) => Ok(p),
            None => {
                let mut message = String::from_str("Unsupported LLM provider: ");
                message.append(self.provider.as_str());
                Err(Error::ConfigError(message))
            },
        }
    }

    /// The request that asks the provider to answer `user_content` under
    /// `system_prompt`. `ollama_host` is where Ollama is reached, if
    /// another place than the usual one.
    pub fn request(
        &self,
        system_prompt: &str,
        user_content: &str,
        ollama_host: Option<String>,
    ) -> (r: Result<HttpRequest, Error>)
        ensures
            match r {
                Ok(request) => provider_named(self.provider_name()) matches Some(p) && request@
                    == (HttpRequestV {
                    url: request_url(
                        p,
                        match ollama_host {
                            Some(h) => Some(h@),
                            None => None,
                        },
                    ),
                    headers: request_headers(p, self.key()),
                    body: request_body(p, self.model_name(), system_prompt@, user_content@),
                }),
                Err(e) => provider_named(self.provider_name()) is None && e@
                    == unsupported_provider(self.provider_name()),
            },
    {
        let provider = match self.resolve_provider() {
            Ok(p) => p,
            Err(e) => {
                return Err(e);
            },
        };
        let body = make_request_body(provider, self.model.as_str(), system_prompt, user_content);
        let mut headers: Vec<(String, String)> = Vec::new();
        let url = match provider {
            Provider::OpenAi => {
                let mut bearer = String::from_str("Bearer ");
                bearer.append(self.api_key.as_str());
                headers.push((String::from_str("Authorization"), bearer));
                String::from_str("https://api.openai.com/v1/chat/completions")
            },
            Provider::Anthropic => {
                headers.push((String::from_str("x-api-key"), self.api_key.clone()));
                headers.push(
                    (String::from_str("anthropic-version"), String::from_str("2023-06-01")),
                );
                String::from_str("https://api.anthropic.com/v1/messages")
            },
            Provider::Ollama => {
                let mut url = match ollama_host {
                    Some(host) => host,
                    None => String::from_str(DEFAULT_OLLAMA_HOST),
                };
                url.append("/api/chat");
                url
            },
        };
        headers.push((String::from_str("Content-Type"), String::from_str("application/json")));
        let request = HttpRequest { url, headers, body };
        assert(request@.headers =~= request_headers(provider, self.key()));
        Ok(request)
    }

    /// Says what a reply amounts to: the generated text, or the failure.
    pub fn process(&self, reply: HttpReply) -> (r: Result<String, Error>)
        ensures
            match provider_named(self.provider_name()) {
                None => r matches Err(e) && e@ == unsupported_provider(self.provider_name()),
                Some(p) => match r {
                    Ok(text) => reply_result(p, reply@) == Ok::<Seq<char>, ErrorV>(text@),
                    Err(e) => reply_result(p, reply@) == Err::<Seq<char>, ErrorV>(e@),
                },
            },
    {
        let provider = match self.resolve_provider() {
            Ok(p) => p,
            Err(e) => {
                return Err(e);
            },
        };
        let label = provider.label();
        let message = match reply {
            HttpReply::SendFailed(e) => {
                let mut m = String::from_str(label);
                m.append(" API request failed: ");
                m.append(e.as_str());
                m
            },
            HttpReply::Refused { status, body } => {
                let mut m = String::from_str(label);
                m.append(" API error ");
                m.append(status.as_str());
                m.append(": ");
                m.append(body.as_str());
                m
            },
            HttpReply::Unparseable(e) => {
                let mut m = String::from_str("Failed to parse ");
                m.append(label);
                m.append(" response: ");
                m.append(e.as_str());
                m
            },
            HttpReply::Body(json) => match find_generated_text(provider, &json) {
                Ok(text) => {
                    return Ok(text);
                },
                Err(Missing::Malformed) => {
                    let mut m = String::from_str("Failed to parse ");
                    m.append(label);
                    m.append(" response: ");
                    m.append("unexpected structure");
                    m
                },
                Err(Missing::Empty) => {
                    let mut m = String::from_str("No response from ");
                    m.append(label);
                    m
                },
            },
        };
        Err(Error::ConfigError(message))
    }
}

} // verus!
