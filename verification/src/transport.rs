//! The decisions of the transport loop.
//!
//! The loop reads one line, answers it and writes one line, in that order,
//! and never has more than one request in hand. What it reads and writes is
//! up to the caller: this module says what to do next.

use crate::json::{Json, JsonV};
use crate::protocol::{
    decode_error_text, request_from, response_json, JsonRpcRequest, JsonRpcResponse, ResponseV,
    PARSE_ERROR,
};
use crate::server::{lemma_response_echoes_id, response_to, McpServer};
use crate::text::{chars_of, is_blank, trim_span};
use vstd::prelude::*;
use vstd::string::StringExecFns;

verus! {

/// What to do with a line that was read.
#[derive(Debug, Clone, Copy, PartialEq, Eq)]
pub enum LineAction {
    /// The input has ended: leave the loop.
    Stop,
    /// The line is blank: read the next one.
    Skip,
    /// The line holds a request: answer it.
    Process,
}

/// What to do with a line, given how many bytes the read returned.
pub open spec fn line_action(bytes_read: nat, line: Seq<char>) -> LineAction {
    if bytes_read == 0 {
        LineAction::Stop
    } else if is_blank(line) {
        LineAction::Skip
    } else {
        LineAction::Process
    }
}

/// Decides what to do with a line that was read.
///
/// A read of zero bytes is the end of the input. A line of nothing but
/// white space is skipped.
pub fn classify_line(bytes_read: usize, line: &str) -> (r: LineAction)
    ensures
        r == line_action(bytes_read as nat, line@),
{
    if bytes_read == 0 {
        return LineAction::Stop;
    }
    let text = chars_of(line);
    assert(text@.subrange(0, text@.len() as int) =~= text@);
    let (s, e) = trim_span(&text, 0, text.len());
    if s == e {
        LineAction::Skip
    } else {
        LineAction::Process
    }
}

/// The response to a line that is not a request. It goes to the null
/// identifier, as the real one is not known.
pub open spec fn parse_error_response(why: Seq<char>) -> ResponseV {
    ResponseV::error(JsonV::Null, PARSE_ERROR as int, "Parse error: "@ + why)
}

/// The response to a line, given the JSON document read from it or the
/// reason why it holds none.
pub open spec fn response_to_document(
    document: Result<JsonV, Seq<char>>,
    catalog: Seq<crate::pattern::PatternV>,
    name: Seq<char>,
    version: Seq<char>,
) -> ResponseV {
    match document {
        Err(why) => parse_error_response(why),
        Ok(value) => match request_from(value) {
            Err(e) => parse_error_response(decode_error_text(e)),
            Ok(request) => response_to(request, catalog, name, version),
        },
    }
}

/// The model of a document or of the reason why there is none.
pub open spec fn document_view(document: Result<Json, String>) -> Result<JsonV, Seq<char>> {
    match document {
        Ok(value) => Ok(value@),
        Err(why) => Err(why@),
    }
}

/// The response that reports a line that is not a request.
pub fn parse_error(why: &str) -> (r: JsonRpcResponse)
    ensures
        r@ == parse_error_response(why@),
{
    let mut message = String::from_str("Parse error: ");
    message.append(why);
    JsonRpcResponse::error(Json::Null, PARSE_ERROR, message.as_str())
}

/// Answers one line.
///
/// A line that holds no JSON, or JSON that is not a request, is answered
/// by a parse error. Any request is answered by the server.
pub fn respond(server: &McpServer, document: Result<Json, String>) -> (r: JsonRpcResponse)
    ensures
        r@ == response_to_document(
            document_view(document),
            server.catalog(),
            server.server_name(),
            server.server_version(),
        ),
{
    match document {
        Err(why) => parse_error(why.as_str()),
        Ok(value) => match JsonRpcRequest::from_json(&value) {
            Err(e) => parse_error(e.message().as_str()),
            Ok(request) => server.handle_request(request),
        },
    }
}

/// The line that carries `text`: the text and one line feed.
pub open spec fn framed(text: Seq<char>) -> Seq<char> {
    text + "\n"@
}

/// Ends a response with a line feed.
pub fn frame(text: String) -> (r: String)
    ensures
        r@ == framed(text@),
{
    let mut line = text;
    line.append("\n");
    line
}

/// What happened in the loop.
#[derive(Debug)]
pub enum Event {
    /// A read returned `bytes_read` bytes and left `line` in the buffer.
    LineRead { bytes_read: usize, line: String },
    /// A read failed.
    ReadFailed,
    /// The line was parsed as JSON, or could not be.
    Parsed(Result<Json, String>),
    /// The response was written as text, or could not be.
    Encoded(Result<String, String>),
    /// The response line was written and flushed, or that failed.
    Written(bool),
}

/// What the loop is to do next.
#[derive(Debug)]
pub enum Action {
    /// Read the next line.
    ReadLine,
    /// Parse this line as JSON.
    Parse(String),
    /// Write this JSON value as text.
    Encode(Json),
    /// Write this line and flush the output.
    Write(String),
    /// Leave the loop.
    Shutdown,
}

/// The mathematical model of an [`Event`].
pub enum EventV {
    LineRead { bytes_read: nat, line: Seq<char> },
    ReadFailed,
    Parsed(Result<JsonV, Seq<char>>),
    Encoded(Result<Seq<char>, Seq<char>>),
    Written(bool),
}

/// The mathematical model of an [`Action`].
pub enum ActionV {
    ReadLine,
    Parse(Seq<char>),
    Encode(JsonV),
    Write(Seq<char>),
    Shutdown,
}

impl View for Event {
    type V = EventV;

    open spec fn view(&self) -> EventV {
        match self {
            Event::LineRead { bytes_read, line } => EventV::LineRead {
                bytes_read: *bytes_read as nat,
                line: line@,
            },
            Event::ReadFailed => EventV::ReadFailed,
            Event::Parsed(document) => EventV::Parsed(document_view(*document)),
            Event::Encoded(text) => EventV::Encoded(
                match text {
                    Ok(t) => Ok(t@),
                    Err(why) => Err(why@),
                },
            ),
            Event::Written(ok) => EventV::Written(*ok),
        }
    }
}

impl View for Action {
    type V = ActionV;

    open spec fn view(&self) -> ActionV {
        match self {
            Action::ReadLine => ActionV::ReadLine,
            Action::Parse(line) => ActionV::Parse(line@),
            Action::Encode(value) => ActionV::Encode(value@),
            Action::Write(line) => ActionV::Write(line@),
            Action::Shutdown => ActionV::Shutdown,
        }
    }
}

/// The action that follows an event.
///
/// A failed read, a failed write and a response that cannot be written as
/// text end the loop. Nothing that a request holds does.
pub open spec fn action_after(
    event: EventV,
    catalog: Seq<crate::pattern::PatternV>,
    name: Seq<char>,
    version: Seq<char>,
) -> ActionV {
    match event {
        EventV::LineRead { bytes_read, line } => match line_action(bytes_read, line) {
            LineAction::Stop => ActionV::Shutdown,
            LineAction::Skip => ActionV::ReadLine,
            LineAction::Process => ActionV::Parse(line),
        },
        EventV::ReadFailed => ActionV::Shutdown,
        EventV::Parsed(document) => ActionV::Encode(
            response_json(response_to_document(document, catalog, name, version)),
        ),
        EventV::Encoded(Ok(text)) => ActionV::Write(framed(text)),
        EventV::Encoded(Err(_)) => ActionV::Shutdown,
        EventV::Written(ok) => if ok {
            ActionV::ReadLine
        } else {
            ActionV::Shutdown
        },
    }
}

/// Decides what the loop does next.
pub fn next_action(server: &McpServer, event: Event) -> (r: Action)
    ensures
        r@ == action_after(
            event@,
            server.catalog(),
            server.server_name(),
            server.server_version(),
        ),
{
    match event {
        Event::LineRead { bytes_read, line } => match classify_line(bytes_read, line.as_str()) {
            LineAction::Stop => Action::Shutdown,
            LineAction::Skip => Action::ReadLine,
            LineAction::Process => Action::Parse(line),
        },
        Event::ReadFailed => Action::Shutdown,
        Event::Parsed(document) => Action::Encode(respond(server, document).to_json()),
        Event::Encoded(Ok(text)) => Action::Write(frame(text)),
        Event::Encoded(Err(_)) => Action::Shutdown,
        Event::Written(ok) => if ok {
            Action::ReadLine
        } else {
            Action::Shutdown
        },
    }
}

/// Every line that is not skipped gets a well-formed response: either a
/// result or an error, never both. A line that is no request is answered to
/// the null identifier, and a request to its own.
pub proof fn lemma_every_document_is_answered(
    document: Result<JsonV, Seq<char>>,
    catalog: Seq<crate::pattern::PatternV>,
    name: Seq<char>,
    version: Seq<char>,
)
    ensures
        response_to_document(document, catalog, name, version).well_formed(),
        match document {
            Ok(value) => match request_from(value) {
                Ok(request) => response_to_document(document, catalog, name, version).id
                    == request.id,
                Err(_) => response_to_document(document, catalog, name, version).id
                    == JsonV::Null,
            },
            Err(_) => response_to_document(document, catalog, name, version).id == JsonV::Null,
        },
{
    match document {
        Ok(value) => match request_from(value) {
            Ok(request) => {
                lemma_response_echoes_id(request, catalog, name, version);
            },
            Err(_) => {},
        },
        Err(_) => {},
    }
}

/// Only the streams end the loop: the action is to shut down exactly after
/// the end of the input, a failed read, a response that could not be
/// written as text, and a failed write. Whatever a line holds, the loop
/// goes on.
pub proof fn lemma_only_streams_end_the_loop(
    event: EventV,
    catalog: Seq<crate::pattern::PatternV>,
    name: Seq<char>,
    version: Seq<char>,
)
    ensures
        action_after(event, catalog, name, version) is Shutdown <==> match event {
            EventV::LineRead { bytes_read, line } => bytes_read == 0,
            EventV::ReadFailed => true,
            EventV::Parsed(_) => false,
            EventV::Encoded(text) => text is Err,
            EventV::Written(ok) => !ok,
        },
{
}

/// The loop takes one request at a time: after a line was parsed the only
/// thing to do is to answer it, after the answer was written as text the
/// only thing to do is to write that text as one line, and only after that
/// line was written is the next line read.
pub proof fn lemma_one_request_at_a_time(
    event: EventV,
    catalog: Seq<crate::pattern::PatternV>,
    name: Seq<char>,
    version: Seq<char>,
)
    ensures
        event is Parsed ==> action_after(event, catalog, name, version) is Encode,
        event matches EventV::Encoded(Ok(text)) ==> action_after(event, catalog, name, version)
            == ActionV::Write(framed(text)),
        action_after(event, catalog, name, version) is ReadLine ==> event == EventV::Written(true)
            || (event matches EventV::LineRead { bytes_read, line } && bytes_read > 0 && is_blank(
            line,
        )),
{
}

} // verus!
