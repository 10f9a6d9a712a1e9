use fabric_atelier::error::Error;
use fabric_atelier::json::{Json, JsonNumber};
use fabric_atelier::llm::{
    find_generated_text, make_request_body, HttpReply, LlmClient, Missing, Provider,
};

fn object(members: Vec<(&str, Json)>) -> Json {
    Json::Object(members.into_iter().map(|(k, v)| (k.to_string(), v)).collect())
}

fn message(role: &str, content: &str) -> Json {
    object(vec![("role", Json::string(role)), ("content", Json::string(content))])
}

fn client(provider: &str) -> LlmClient {
    LlmClient::new(provider.to_string(), "test-key".to_string(), "gpt-4".to_string())
}

fn config_error(r: Result<String, Error>) -> String {
    match r {
        Err(Error::ConfigError(m)) => m,
        _ => panic!("expected a configuration error"),
    }
}

#[test]
fn test_client_creation() {
    let client = LlmClient::new("openai".to_string(), "test-key".to_string(), "gpt-4".to_string());
    assert_eq!(client.provider(), "openai");
    assert_eq!(client.model(), "gpt-4");
}

#[test]
fn test_ollama_client() {
    let client = LlmClient::new("ollama".to_string(), "".to_string(), "llama2".to_string());
    assert_eq!(client.provider(), "ollama");
}

#[test]
fn providers_by_name() {
    assert_eq!(Provider::named("openai"), Some(Provider::OpenAi));
    assert_eq!(Provider::named("anthropic"), Some(Provider::Anthropic));
    assert_eq!(Provider::named("ollama"), Some(Provider::Ollama));
    assert_eq!(Provider::named("OpenAI"), None);
    assert_eq!(Provider::named(""), None);
    assert_eq!(Provider::Anthropic.label(), "Anthropic");
}

#[test]
fn unsupported_provider_is_a_config_error() {
    let c = client("mistral");
    match c.request("s", "u", None) {
        Err(Error::ConfigError(m)) => assert_eq!(m, "Unsupported LLM provider: mistral"),
        _ => panic!("expected a configuration error"),
    }
    assert_eq!(
        config_error(c.process(HttpReply::Body(Json::Null))),
        "Unsupported LLM provider: mistral"
    );
}

#[test]
fn openai_request() {
    let request = client("openai").request("be brief", "hello", None).unwrap();
    assert_eq!(request.url, "https://api.openai.com/v1/chat/completions");
    assert_eq!(
        request.headers,
        vec![
            ("Authorization".to_string(), "Bearer test-key".to_string()),
            ("Content-Type".to_string(), "application/json".to_string()),
        ]
    );
    assert_eq!(
        request.body,
        object(vec![
            ("model", Json::string("gpt-4")),
            ("messages", Json::Array(vec![message("system", "be brief"), message("user", "hello")])),
            ("temperature", Json::Number(JsonNumber::Float(0.7f64.to_bits()))),
        ])
    );
}

#[test]
fn anthropic_request() {
    let request = client("anthropic").request("be brief", "hello", None).unwrap();
    assert_eq!(request.url, "https://api.anthropic.com/v1/messages");
    assert_eq!(
        request.headers,
        vec![
            ("x-api-key".to_string(), "test-key".to_string()),
            ("anthropic-version".to_string(), "2023-06-01".to_string()),
            ("Content-Type".to_string(), "application/json".to_string()),
        ]
    );
    assert_eq!(
        request.body,
        object(vec![
            ("model", Json::string("gpt-4")),
            ("max_tokens", Json::integer(4096)),
            ("system", Json::string("be brief")),
            ("messages", Json::Array(vec![message("user", "hello")])),
        ])
    );
}

#[test]
fn ollama_request() {
    let request = client("ollama").request("be brief", "hello", None).unwrap();
    assert_eq!(request.url, "http://localhost:11434/api/chat");
    assert_eq!(
        request.headers,
        vec![("Content-Type".to_string(), "application/json".to_string())]
    );
    assert_eq!(
        request.body,
        make_request_body(Provider::Ollama, "gpt-4", "be brief", "hello")
    );
    assert_eq!(request.body.get("stream"), Some(&Json::Bool(false)));
    let elsewhere =
        client("ollama").request("s", "u", Some("http://box:1234".to_string())).unwrap();
    assert_eq!(elsewhere.url, "http://box:1234/api/chat");
}

#[test]
fn replies_that_are_failures() {
    assert_eq!(
        config_error(client("openai").process(HttpReply::SendFailed("no route".to_string()))),
        "OpenAI API request failed: no route"
    );
    assert_eq!(
        config_error(client("anthropic").process(HttpReply::Refused {
            status: "401 Unauthorized".to_string(),
            body: "bad key".to_string(),
        })),
        "Anthropic API error 401 Unauthorized: bad key"
    );
    assert_eq!(
        config_error(client("ollama").process(HttpReply::Unparseable("eof".to_string()))),
        "Failed to parse Ollama response: eof"
    );
}

#[test]
fn openai_reply() {
    let choice = |text: &str| object(vec![("message", object(vec![("content", Json::string(text))]))]);
    let body = object(vec![("choices", Json::Array(vec![choice("first"), choice("second")]))]);
    assert_eq!(client("openai").process(HttpReply::Body(body)).unwrap(), "first");
    let empty = object(vec![("choices", Json::Array(vec![]))]);
    assert_eq!(
        config_error(client("openai").process(HttpReply::Body(empty))),
        "No response from OpenAI"
    );
    let malformed = object(vec![("choices", Json::Array(vec![choice("ok"), Json::Null]))]);
    assert_eq!(
        config_error(client("openai").process(HttpReply::Body(malformed))),
        "Failed to parse OpenAI response: unexpected structure"
    );
    assert_eq!(find_generated_text(Provider::OpenAi, &Json::Null).err().is_some(), true);
    assert!(matches!(find_generated_text(Provider::OpenAi, &Json::Null), Err(Missing::Malformed)));
}

#[test]
fn anthropic_reply() {
    let body = object(vec![(
        "content",
        Json::Array(vec![object(vec![("type", Json::string("text")), ("text", Json::string("hi"))])]),
    )]);
    assert_eq!(client("anthropic").process(HttpReply::Body(body)).unwrap(), "hi");
    let empty = object(vec![("content", Json::Array(vec![]))]);
    assert_eq!(
        config_error(client("anthropic").process(HttpReply::Body(empty))),
        "No response from Anthropic"
    );
}

#[test]
fn ollama_reply() {
    let body = object(vec![("message", object(vec![("content", Json::string("yo"))]))]);
    assert_eq!(client("ollama").process(HttpReply::Body(body)).unwrap(), "yo");
    assert_eq!(
        config_error(client("ollama").process(HttpReply::Body(object(vec![])))),
        "No response from Ollama"
    );
}

#[test]
fn array_items_by_position() {
    let a = Json::Array(vec![Json::integer(1), Json::integer(2)]);
    assert_eq!(a.at(0), Some(&Json::integer(1)));
    assert_eq!(a.at(1), Some(&Json::integer(2)));
    assert_eq!(a.at(2), None);
    assert_eq!(Json::Null.at(0), None);
}
