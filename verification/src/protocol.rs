//! JSON-RPC 2.0 envelopes.

use crate::json::{lemma_member_of_push, member_of, members_view, Json, JsonV};
use vstd::prelude::*;
use vstd::string::StringExecFns;

verus! {

/// Malformed JSON, or JSON that is not a request.
pub const PARSE_ERROR: i32 = -32700;

/// The JSON is not a valid request object.
pub const INVALID_REQUEST: i32 = -32600;

/// The method does not exist.
pub const METHOD_NOT_FOUND: i32 = -32601;

/// Invalid method parameters.
pub const INVALID_PARAMS: i32 = -32602;

/// Used for every failure of a tool call.
pub const INTERNAL_ERROR: i32 = -32603;

/// The protocol version that every envelope declares.
pub const JSONRPC_VERSION: &'static str = "2.0";

/// A request.
#[derive(Debug, Clone)]
pub struct JsonRpcRequest {
    /// Protocol version, `"2.0"` by convention.
    pub jsonrpc: String,
    /// Identifier, echoed in the response.
    pub id: Json,
    /// Name of the method to invoke.
    pub method: String,
    /// Parameters; the empty object where the request gave none.
    pub params: Json,
}

/// The error object of a response.
#[derive(Debug, Clone)]
pub struct JsonRpcError {
    pub code: i32,
    pub message: String,
    pub data: Option<Json>,
}

/// A response: the identifier of the request and either a result or an
/// error.
#[derive(Debug, Clone)]
pub struct JsonRpcResponse {
    pub jsonrpc: String,
    pub id: Json,
    pub result: Option<Json>,
    pub error: Option<JsonRpcError>,
}

/// The mathematical model of a [`JsonRpcRequest`].
pub struct RequestV {
    pub jsonrpc: Seq<char>,
    pub id: JsonV,
    pub method: Seq<char>,
    pub params: JsonV,
}

/// The mathematical model of a [`JsonRpcError`].
pub struct RpcErrorV {
    pub code: int,
    pub message: Seq<char>,
    pub data: Option<JsonV>,
}

/// The mathematical model of a [`JsonRpcResponse`].
pub struct ResponseV {
    pub jsonrpc: Seq<char>,
    pub id: JsonV,
    pub result: Option<JsonV>,
    pub error: Option<RpcErrorV>,
}

/// The model of an optional value.
pub open spec fn opt_json(j: Option<Json>) -> Option<JsonV> {
    match j {
        Some(v) => Some(v@),
        None => None,
    }
}

impl View for JsonRpcRequest {
    type V = RequestV;

    open spec fn view(&self) -> RequestV {
        RequestV { jsonrpc: self.jsonrpc@, id: self.id@, method: self.method@, params: self.params@ }
    }
}

impl View for JsonRpcError {
    type V = RpcErrorV;

    open spec fn view(&self) -> RpcErrorV {
        RpcErrorV { code: self.code as int, message: self.message@, data: opt_json(self.data) }
    }
}

impl View for JsonRpcResponse {
    type V = ResponseV;

    open spec fn view(&self) -> ResponseV {
        ResponseV {
            jsonrpc: self.jsonrpc@,
            id: self.id@,
            result: opt_json(self.result),
            error: match self.error {
                Some(e) => Some(e@),
                None => None,
            },
        }
    }
}

impl ResponseV {
    /// The response that carries `result` for the request `id`.
    pub open spec fn success(id: JsonV, result: JsonV) -> ResponseV {
        ResponseV { jsonrpc: JSONRPC_VERSION@, id, result: Some(result), error: None }
    }

    /// The response that reports an error without auxiliary data.
    pub open spec fn error(id: JsonV, code: int, message: Seq<char>) -> ResponseV {
        ResponseV {
            jsonrpc: JSONRPC_VERSION@,
            id,
            result: None,
            error: Some(RpcErrorV { code, message, data: None }),
        }
    }

    /// The response that reports an error with auxiliary data.
    pub open spec fn error_with_data(
        id: JsonV,
        code: int,
        message: Seq<char>,
        data: JsonV,
    ) -> ResponseV {
        ResponseV {
            jsonrpc: JSONRPC_VERSION@,
            id,
            result: None,
            error: Some(RpcErrorV { code, message, data: Some(data) }),
        }
    }

    /// Exactly one of result and error is present.
    pub open spec fn well_formed(self) -> bool {
        self.result.is_some() != self.error.is_some()
    }
}

impl JsonRpcResponse {
    /// A response that carries `result`; it has no error.
    pub fn success(id: Json, result: Json) -> (r: JsonRpcResponse)
        ensures
            r@ == ResponseV::success(id@, result@),
    {
        JsonRpcResponse {
            jsonrpc: String::from_str(JSONRPC_VERSION),
            id,
            result: Some(result),
            error: None,
        }
    }

    /// A response that reports an error; it has no result.
    pub fn error(id: Json, code: i32, message: &str) -> (r: JsonRpcResponse)
        ensures
            r@ == ResponseV::error(id@, code as int, message@),
    {
        JsonRpcResponse {
            jsonrpc: String::from_str(JSONRPC_VERSION),
            id,
            result: None,
            error: Some(JsonRpcError { code, message: String::from_str(message), data: None }),
        }
    }

    /// A response that reports an error and attaches `data` to it.
    pub fn error_with_data(id: Json, code: i32, message: &str, data: Json) -> (r: JsonRpcResponse)
        ensures
            r@ == ResponseV::error_with_data(id@, code as int, message@, data@),
    {
        JsonRpcResponse {
            jsonrpc: String::from_str(JSONRPC_VERSION),
            id,
            result: None,
            error: Some(
                JsonRpcError { code, message: String::from_str(message), data: Some(data) },
            ),
        }
    }
}

/// The members of an envelope.
#[derive(Debug, Clone, Copy, PartialEq, Eq)]
pub enum EnvelopeField {
    Jsonrpc,
    Id,
    Method,
    Error,
    Code,
    Message,
}

/// Why a JSON value is not an envelope.
#[derive(Debug, Clone, Copy, PartialEq, Eq)]
pub enum DecodeError {
    /// The value is not an object.
    NotAnObject,
    /// A required member is missing.
    MissingField(EnvelopeField),
    /// A member holds a value of the wrong kind.
    InvalidField(EnvelopeField),
}

/// The name of an envelope member.
pub open spec fn field_name(field: EnvelopeField) -> Seq<char> {
    match field {
        EnvelopeField::Jsonrpc => "jsonrpc"@,
        EnvelopeField::Id => "id"@,
        EnvelopeField::Method => "method"@,
        EnvelopeField::Error => "error"@,
        EnvelopeField::Code => "code"@,
        EnvelopeField::Message => "message"@,
    }
}

/// The text that describes a decoding failure.
pub open spec fn decode_error_text(e: DecodeError) -> Seq<char> {
    match e {
        DecodeError::NotAnObject => "expected a JSON object"@,
        DecodeError::MissingField(f) => "missing field `"@ + field_name(f) + "`"@,
        DecodeError::InvalidField(f) => "invalid value for field `"@ + field_name(f) + "`"@,
    }
}

/// The string member `field` of an envelope.
pub open spec fn required_text(v: JsonV, field: EnvelopeField) -> Result<Seq<char>, DecodeError> {
    match v.get(field_name(field)) {
        None => Err(DecodeError::MissingField(field)),
        Some(m) => match m.as_str() {
            None => Err(DecodeError::InvalidField(field)),
            Some(s) => Ok(s),
        },
    }
}

/// The request that a JSON value stands for.
///
/// The value must be an object with a string `jsonrpc`, an `id` of any
/// kind and a string `method`. Where it has no `params`, the request gets
/// the empty object. Other members are ignored.
pub open spec fn request_from(v: JsonV) -> Result<RequestV, DecodeError> {
    if !(v is Object) {
        Err(DecodeError::NotAnObject)
    } else {
        match required_text(v, EnvelopeField::Jsonrpc) {
            Err(e) => Err(e),
            Ok(jsonrpc) => match v.get("id"@) {
                None => Err(DecodeError::MissingField(EnvelopeField::Id)),
                Some(id) => match required_text(v, EnvelopeField::Method) {
                    Err(e) => Err(e),
                    Ok(method) => Ok(
                        RequestV {
                            jsonrpc,
                            id,
                            method,
                            params: match v.get("params"@) {
                                Some(p) => p,
                                None => JsonV::empty_object(),
                            },
                        },
                    ),
                },
            },
        }
    }
}

/// The JSON value that stands for a request.
pub open spec fn request_json(r: RequestV) -> JsonV {
    JsonV::Object(
        seq![
            ("jsonrpc"@, JsonV::text(r.jsonrpc)),
            ("id"@, r.id),
            ("method"@, JsonV::text(r.method)),
            ("params"@, r.params),
        ],
    )
}

/// The members of the JSON value that stands for an error object: code and
/// message, and the data if there is any.
pub open spec fn error_members(e: RpcErrorV) -> Seq<(Seq<char>, JsonV)> {
    let fixed = seq![("code"@, JsonV::integer(e.code)), ("message"@, JsonV::text(e.message))];
    match e.data {
        Some(d) => fixed.push(("data"@, d)),
        None => fixed,
    }
}

/// The members of the JSON value that stands for a response: version and
/// identifier, then the result if there is one, then the error if there is
/// one. What is absent gets no member.
pub open spec fn response_members(r: ResponseV) -> Seq<(Seq<char>, JsonV)> {
    let head = seq![("jsonrpc"@, JsonV::text(r.jsonrpc)), ("id"@, r.id)];
    let with_result = match r.result {
        Some(v) => head.push(("result"@, v)),
        None => head,
    };
    match r.error {
        Some(e) => with_result.push(("error"@, JsonV::Object(error_members(e)))),
        None => with_result,
    }
}

/// The JSON value that stands for a response.
pub open spec fn response_json(r: ResponseV) -> JsonV {
    JsonV::Object(response_members(r))
}

/// The error object that a JSON value stands for.
pub open spec fn error_from(v: JsonV) -> Result<RpcErrorV, DecodeError> {
    if !(v is Object) {
        Err(DecodeError::InvalidField(EnvelopeField::Error))
    } else {
        match v.get("code"@) {
            None => Err(DecodeError::MissingField(EnvelopeField::Code)),
            Some(c) => match c.as_i32() {
                None => Err(DecodeError::InvalidField(EnvelopeField::Code)),
                Some(code) => match required_text(v, EnvelopeField::Message) {
                    Err(e) => Err(e),
                    Ok(message) => Ok(RpcErrorV { code, message, data: v.get("data"@) }),
                },
            },
        }
    }
}

/// The response that a JSON value stands for.
///
/// The value must be an object with a string `jsonrpc` and an `id`. Its
/// `result`, if it has one, is kept whatever it is; its `error`, if it has
/// one, must be an error object.
pub open spec fn response_from(v: JsonV) -> Result<ResponseV, DecodeError> {
    if !(v is Object) {
        Err(DecodeError::NotAnObject)
    } else {
        match required_text(v, EnvelopeField::Jsonrpc) {
            Err(e) => Err(e),
            Ok(jsonrpc) => match v.get("id"@) {
                None => Err(DecodeError::MissingField(EnvelopeField::Id)),
                Some(id) => match v.get("error"@) {
                    None => Ok(ResponseV { jsonrpc, id, result: v.get("result"@), error: None }),
                    Some(e) => match error_from(e) {
                        Err(why) => Err(why),
                        Ok(error) => Ok(
                            ResponseV { jsonrpc, id, result: v.get("result"@), error: Some(error) },
                        ),
                    },
                },
            },
        }
    }
}

impl EnvelopeField {
    /// The name of the member.
    pub fn name(&self) -> (r: &'static str)
        ensures
            r@ == field_name(*self),
    {
        match self {
            EnvelopeField::Jsonrpc => "jsonrpc",
            EnvelopeField::Id => "id",
            EnvelopeField::Method => "method",
            EnvelopeField::Error => "error",
            EnvelopeField::Code => "code",
            EnvelopeField::Message => "message",
        }
    }
}

impl DecodeError {
    /// The text that describes the failure.
    pub fn message(&self) -> (r: String)
        ensures
            r@ == decode_error_text(*self),
    {
        match self {
            DecodeError::NotAnObject => String::from_str("expected a JSON object"),
            DecodeError::MissingField(f) => {
                let mut r = String::from_str("missing field `");
                r.append(f.name());
                r.append("`");
                r
            },
            DecodeError::InvalidField(f) => {
                let mut r = String::from_str("invalid value for field `");
                r.append(f.name());
                r.append("`");
                r
            },
        }
    }
}

/// Reads the string member `field` of an envelope.
fn read_text(value: &Json, field: EnvelopeField) -> (r: Result<String, DecodeError>)
    ensures
        match r {
            Ok(s) => required_text(value@, field) == Ok::<Seq<char>, DecodeError>(s@),
            Err(e) => required_text(value@, field) == Err::<Seq<char>, DecodeError>(e),
        },
{
    match value.get(field.name()) {
        None => Err(DecodeError::MissingField(field)),
        Some(m) => match m.as_str() {
            None => Err(DecodeError::InvalidField(field)),
            Some(s) => Ok(String::from_str(s)),
        },
    }
}

/// A copy of the member `key`, if there is one.
fn read_member(value: &Json, key: &str) -> (r: Option<Json>)
    ensures
        opt_json(r) == value@.get(key@),
{
    match value.get(key) {
        Some(v) => Some(v.clone()),
        None => None,
    }
}

impl JsonRpcRequest {
    /// Decodes a request from the JSON value that stands for it.
    pub fn from_json(value: &Json) -> (r: Result<JsonRpcRequest, DecodeError>)
        ensures
            match r {
                Ok(request) => request_from(value@) == Ok::<RequestV, DecodeError>(request@),
                Err(e) => request_from(value@) == Err::<RequestV, DecodeError>(e),
            },
    {
        if !value.is_object() {
            return Err(DecodeError::NotAnObject);
        }
        let jsonrpc = match read_text(value, EnvelopeField::Jsonrpc) {
            Ok(s) => s,
            Err(e) => {
                return Err(e);
            },
        };
        let id = match read_member(value, "id") {
            Some(id) => id,
            None => {
                return Err(DecodeError::MissingField(EnvelopeField::Id));
            },
        };
        let method = match read_text(value, EnvelopeField::Method) {
            Ok(s) => s,
            Err(e) => {
                return Err(e);
            },
        };
        let params = match read_member(value, "params") {
            Some(p) => p,
            None => Json::empty_object(),
        };
        Ok(JsonRpcRequest { jsonrpc, id, method, params })
    }

    /// Encodes the request as a JSON value.
    pub fn to_json(&self) -> (r: Json)
        ensures
            r@ == request_json(self@),
    {
        let mut members: Vec<(String, Json)> = Vec::new();
        members.push((String::from_str("jsonrpc"), Json::String(self.jsonrpc.clone())));
        members.push((String::from_str("id"), self.id.clone()));
        members.push((String::from_str("method"), Json::String(self.method.clone())));
        members.push((String::from_str("params"), self.params.clone()));
        assert(members_view(members@) =~= seq![
            ("jsonrpc"@, JsonV::text(self.jsonrpc@)),
            ("id"@, self.id@),
            ("method"@, JsonV::text(self.method@)),
            ("params"@, self.params@),
        ]);
        Json::object(members)
    }
}

impl JsonRpcError {
    /// Decodes an error object from the JSON value that stands for it.
    pub fn from_json(value: &Json) -> (r: Result<JsonRpcError, DecodeError>)
        ensures
            match r {
                Ok(error) => error_from(value@) == Ok::<RpcErrorV, DecodeError>(error@),
                Err(e) => error_from(value@) == Err::<RpcErrorV, DecodeError>(e),
            },
    {
        if !value.is_object() {
            return Err(DecodeError::InvalidField(EnvelopeField::Error));
        }
        let code = match value.get("code") {
            None => {
                return Err(DecodeError::MissingField(EnvelopeField::Code));
            },
            Some(c) => match c.as_i32() {
                None => {
                    return Err(DecodeError::InvalidField(EnvelopeField::Code));
                },
                Some(code) => code,
            },
        };
        let message = match read_text(value, EnvelopeField::Message) {
            Ok(s) => s,
            Err(e) => {
                return Err(e);
            },
        };
        let data = read_member(value, "data");
        Ok(JsonRpcError { code, message, data })
    }

    /// Encodes the error object as a JSON value.
    pub fn to_json(&self) -> (r: Json)
        ensures
            r@ == JsonV::Object(error_members(self@)),
    {
        let mut members: Vec<(String, Json)> = Vec::new();
        members.push((String::from_str("code"), Json::integer(self.code as i64)));
        members.push((String::from_str("message"), Json::String(self.message.clone())));
        assert(members_view(members@) =~= seq![
            ("code"@, JsonV::integer(self.code as int)),
            ("message"@, JsonV::text(self.message@)),
        ]);
        match &self.data {
            Some(d) => {
                let ghost before = members_view(members@);
                members.push((String::from_str("data"), d.clone()));
                assert(members_view(members@) =~= before.push(("data"@, d@)));
            },
            None => {},
        }
        Json::object(members)
    }
}

impl JsonRpcResponse {
    /// Decodes a response from the JSON value that stands for it.
    pub fn from_json(value: &Json) -> (r: Result<JsonRpcResponse, DecodeError>)
        ensures
            match r {
                Ok(response) => response_from(value@) == Ok::<ResponseV, DecodeError>(response@),
                Err(e) => response_from(value@) == Err::<ResponseV, DecodeError>(e),
            },
    {
        if !value.is_object() {
            return Err(DecodeError::NotAnObject);
        }
        let jsonrpc = match read_text(value, EnvelopeField::Jsonrpc) {
            Ok(s) => s,
            Err(e) => {
                return Err(e);
            },
        };
        let id = match read_member(value, "id") {
            Some(id) => id,
            None => {
                return Err(DecodeError::MissingField(EnvelopeField::Id));
            },
        };
        let error = match value.get("error") {
            None => None,
            Some(e) => match JsonRpcError::from_json(e) {
                Ok(error) => Some(error),
                Err(why) => {
                    return Err(why);
                },
            },
        };
        let result = read_member(value, "result");
        Ok(JsonRpcResponse { jsonrpc, id, result, error })
    }

    /// Encodes the response as a JSON value. A response without error gets
    /// no `error` member, and one without result no `result` member.
    pub fn to_json(&self) -> (r: Json)
        ensures
            r@ == response_json(self@),
    {
        let mut members: Vec<(String, Json)> = Vec::new();
        members.push((String::from_str("jsonrpc"), Json::String(self.jsonrpc.clone())));
        members.push((String::from_str("id"), self.id.clone()));
        assert(members_view(members@) =~= seq![
            ("jsonrpc"@, JsonV::text(self.jsonrpc@)),
            ("id"@, self.id@),
        ]);
        match &self.result {
            Some(v) => {
                let ghost before = members_view(members@);
                members.push((String::from_str("result"), v.clone()));
                assert(members_view(members@) =~= before.push(("result"@, v@)));
            },
            None => {},
        }
        match &self.error {
            Some(e) => {
                let ghost before = members_view(members@);
                members.push((String::from_str("error"), e.to_json()));
                assert(members_view(members@) =~= before.push(
                    ("error"@, JsonV::Object(error_members(e@))),
                ));
            },
            None => {},
        }
        Json::object(members)
    }
}

/// The names of the members of one envelope differ from each other.
proof fn lemma_member_names_differ()
    ensures
        "jsonrpc"@ != "id"@,
        "jsonrpc"@ != "result"@,
        "jsonrpc"@ != "error"@,
        "jsonrpc"@ != "method"@,
        "jsonrpc"@ != "params"@,
        "id"@ != "result"@,
        "id"@ != "error"@,
        "id"@ != "method"@,
        "id"@ != "params"@,
        "result"@ != "error"@,
        "method"@ != "params"@,
        "code"@ != "message"@,
        "code"@ != "data"@,
        "message"@ != "data"@,
{
    reveal_strlit("jsonrpc");
    reveal_strlit("id");
    reveal_strlit("result");
    reveal_strlit("error");
    reveal_strlit("method");
    reveal_strlit("params");
    reveal_strlit("code");
    reveal_strlit("message");
    reveal_strlit("data");
    assert("jsonrpc"@.len() == 7 && "id"@.len() == 2 && "result"@.len() == 6 && "error"@.len()
        == 5);
    assert("code"@.len() == 4 && "message"@.len() == 7);
    assert("method"@[0] != "params"@[0]);
    assert("code"@[0] != "data"@[0]);
}

/// What the members of an encoded response hold under each name.
pub proof fn lemma_response_members(r: ResponseV)
    ensures
        response_json(r).get("jsonrpc"@) == Some(JsonV::text(r.jsonrpc)),
        response_json(r).get("id"@) == Some(r.id),
        response_json(r).get("result"@) == r.result,
        response_json(r).get("error"@) == match r.error {
            Some(e) => Some(JsonV::Object(error_members(e))),
            None => None,
        },
{
    lemma_member_names_differ();
    let empty = Seq::<(Seq<char>, JsonV)>::empty();
    let m1 = empty.push(("jsonrpc"@, JsonV::text(r.jsonrpc)));
    let head = m1.push(("id"@, r.id));
    assert(head =~= seq![("jsonrpc"@, JsonV::text(r.jsonrpc)), ("id"@, r.id)]);
    let with_result = match r.result {
        Some(v) => head.push(("result"@, v)),
        None => head,
    };
    assert forall|k: Seq<char>| #![auto] member_of(empty, k) is None by {}
    lemma_member_of_push(empty, "jsonrpc"@, JsonV::text(r.jsonrpc), "jsonrpc"@);
    lemma_member_of_push(empty, "jsonrpc"@, JsonV::text(r.jsonrpc), "id"@);
    lemma_member_of_push(empty, "jsonrpc"@, JsonV::text(r.jsonrpc), "result"@);
    lemma_member_of_push(empty, "jsonrpc"@, JsonV::text(r.jsonrpc), "error"@);
    lemma_member_of_push(m1, "id"@, r.id, "jsonrpc"@);
    lemma_member_of_push(m1, "id"@, r.id, "id"@);
    lemma_member_of_push(m1, "id"@, r.id, "result"@);
    lemma_member_of_push(m1, "id"@, r.id, "error"@);
    if r.result is Some {
        let v = r.result->0;
        lemma_member_of_push(head, "result"@, v, "jsonrpc"@);
        lemma_member_of_push(head, "result"@, v, "id"@);
        lemma_member_of_push(head, "result"@, v, "result"@);
        lemma_member_of_push(head, "result"@, v, "error"@);
    }
    if r.error is Some {
        let e = JsonV::Object(error_members(r.error->0));
        lemma_member_of_push(with_result, "error"@, e, "jsonrpc"@);
        lemma_member_of_push(with_result, "error"@, e, "id"@);
        lemma_member_of_push(with_result, "error"@, e, "result"@);
        lemma_member_of_push(with_result, "error"@, e, "error"@);
    }
}

/// What the members of an encoded error object hold under each name.
pub proof fn lemma_error_members(e: RpcErrorV)
    ensures
        member_of(error_members(e), "code"@) == Some(JsonV::integer(e.code)),
        member_of(error_members(e), "message"@) == Some(JsonV::text(e.message)),
        member_of(error_members(e), "data"@) == e.data,
{
    lemma_member_names_differ();
    let empty = Seq::<(Seq<char>, JsonV)>::empty();
    let m1 = empty.push(("code"@, JsonV::integer(e.code)));
    let fixed = m1.push(("message"@, JsonV::text(e.message)));
    assert(fixed =~= seq![("code"@, JsonV::integer(e.code)), ("message"@, JsonV::text(e.message))]);
    lemma_member_of_push(empty, "code"@, JsonV::integer(e.code), "code"@);
    lemma_member_of_push(empty, "code"@, JsonV::integer(e.code), "message"@);
    lemma_member_of_push(empty, "code"@, JsonV::integer(e.code), "data"@);
    lemma_member_of_push(m1, "message"@, JsonV::text(e.message), "code"@);
    lemma_member_of_push(m1, "message"@, JsonV::text(e.message), "message"@);
    lemma_member_of_push(m1, "message"@, JsonV::text(e.message), "data"@);
    if e.data is Some {
        let d = e.data->0;
        lemma_member_of_push(fixed, "data"@, d, "code"@);
        lemma_member_of_push(fixed, "data"@, d, "message"@);
        lemma_member_of_push(fixed, "data"@, d, "data"@);
    }
}

/// Encoding a response and decoding it again gives the response back:
/// identifier, result and error are what they were.
pub proof fn lemma_response_round_trip(r: ResponseV)
    requires
        r.error matches Some(e) ==> i32::MIN <= e.code <= i32::MAX,
    ensures
        response_from(response_json(r)) == Ok::<ResponseV, DecodeError>(r),
{
    lemma_response_members(r);
    if r.error is Some {
        lemma_error_members(r.error->0);
    }
}

/// An encoded response has a `result` member exactly if the response has a
/// result, and an `error` member exactly if it has an error. So a success
/// is written without `error`, and an error without `result`.
pub proof fn lemma_absent_parts_are_not_written(
    id: JsonV,
    result: JsonV,
    code: int,
    message: Seq<char>,
)
    ensures
        response_json(ResponseV::success(id, result)).get("error"@) is None,
        response_json(ResponseV::success(id, result)).get("result"@) == Some(result),
        response_json(ResponseV::error(id, code, message)).get("result"@) is None,
        response_json(ResponseV::error(id, code, message)).get("error"@) is Some,
{
    lemma_response_members(ResponseV::success(id, result));
    lemma_response_members(ResponseV::error(id, code, message));
}

/// Encoding a request and decoding it again gives the request back.
pub proof fn lemma_request_round_trip(r: RequestV)
    ensures
        request_from(request_json(r)) == Ok::<RequestV, DecodeError>(r),
{
    lemma_member_names_differ();
    let empty = Seq::<(Seq<char>, JsonV)>::empty();
    let m1 = empty.push(("jsonrpc"@, JsonV::text(r.jsonrpc)));
    let m2 = m1.push(("id"@, r.id));
    let m3 = m2.push(("method"@, JsonV::text(r.method)));
    let m4 = m3.push(("params"@, r.params));
    assert(request_json(r)->Object_0 =~= m4);
    lemma_member_of_push(empty, "jsonrpc"@, JsonV::text(r.jsonrpc), "jsonrpc"@);
    lemma_member_of_push(m1, "id"@, r.id, "jsonrpc"@);
    lemma_member_of_push(m1, "id"@, r.id, "id"@);
    lemma_member_of_push(m2, "method"@, JsonV::text(r.method), "jsonrpc"@);
    lemma_member_of_push(m2, "method"@, JsonV::text(r.method), "id"@);
    lemma_member_of_push(m2, "method"@, JsonV::text(r.method), "method"@);
    lemma_member_of_push(m3, "params"@, r.params, "jsonrpc"@);
    lemma_member_of_push(m3, "params"@, r.params, "id"@);
    lemma_member_of_push(m3, "params"@, r.params, "method"@);
    lemma_member_of_push(m3, "params"@, r.params, "params"@);
}

} // verus!
