//! The messages exchanged with the worker: the request written to its
//! standard input and the lines read from its standard output.

use crate::json::{
    as_text, as_text_list, assembled, describe, entry_models, get, json_document, member_text,
    member_text_list, model, object_value, parse, render, rendered, text_list_tree,
    text_list_value, text_value, JsonTree,
};
use crate::text::{prefixed, same_text, trim, trimmed};
use serde_json::Value;
use vstd::prelude::*;

verus! {

/// A conversion job: the input files, the target format and the output path.
#[derive(Debug, Clone, PartialEq, Eq)]
pub struct ConvertPayload {
    pub files: Vec<String>,
    pub format: String,
    pub output: String,
}

pub struct ConvertPayloadView {
    pub files: Seq<Seq<char>>,
    pub format: Seq<char>,
    pub output: Seq<char>,
}

impl View for ConvertPayload {
    type V = ConvertPayloadView;

    open spec fn view(&self) -> ConvertPayloadView {
        ConvertPayloadView {
            files: self.files.deep_view(),
            format: self.format@,
            output: self.output@,
        }
    }
}

/// The terminal value of a run, as the worker reported it.
#[derive(Debug, Clone, PartialEq, Eq)]
pub struct BackendResult {
    pub status: String,
    pub message: String,
    pub outputs: Vec<String>,
}

pub struct BackendResultView {
    pub status: Seq<char>,
    pub message: Seq<char>,
    pub outputs: Seq<Seq<char>>,
}

impl View for BackendResult {
    type V = BackendResultView;

    open spec fn view(&self) -> BackendResultView {
        BackendResultView {
            status: self.status@,
            message: self.message@,
            outputs: self.outputs.deep_view(),
        }
    }
}

impl Default for BackendResult {
    fn default() -> (r: Self)
        ensures
            r@ == (BackendResultView {
                status: Seq::empty(),
                message: Seq::empty(),
                outputs: Seq::empty(),
            }),
    {
        let r = BackendResult {
            status: String::new(),
            message: String::new(),
            outputs: Vec::new(),
        };
        assert(r.outputs.deep_view() =~= Seq::<Seq<char>>::empty());
        r
    }
}

/// The characters of an optional string slice.
pub open spec fn opt_text(text: Option<&str>) -> Option<Seq<char>> {
    match text {
        Some(s) => Some(s@),
        None => None,
    }
}

/// The strings of an optional list.
pub open spec fn opt_text_list(items: Option<Vec<String>>) -> Option<Seq<Seq<char>>> {
    match items {
        Some(v) => Some(v.deep_view()),
        None => None,
    }
}

/// The view of an optional result.
pub open spec fn opt_result(result: Option<BackendResult>) -> Option<BackendResultView> {
    match result {
        Some(r) => Some(r@),
        None => None,
    }
}

/// A message is terminal when its `event` member is the string `complete`.
pub open spec fn terminal_event(event: Option<Seq<char>>) -> bool {
    event == Some("complete"@)
}

/// The result a terminal message carries: `status` defaults to the event
/// tag, `message` to the empty string and `outputs` to the empty list.
pub open spec fn assembled_result(
    status: Option<Seq<char>>,
    message: Option<Seq<char>>,
    outputs: Option<Seq<Seq<char>>>,
) -> BackendResultView {
    BackendResultView {
        status: match status {
            Some(s) => s,
            None => "complete"@,
        },
        message: match message {
            Some(m) => m,
            None => Seq::empty(),
        },
        outputs: match outputs {
            Some(o) => o,
            None => Seq::empty(),
        },
    }
}

/// The terminal result that a decoded message carries, if it is terminal.
pub open spec fn terminal_result(tree: JsonTree) -> Option<BackendResultView> {
    if terminal_event(member_text(tree, "event"@)) {
        Some(
            assembled_result(
                member_text(tree, "status"@),
                member_text(tree, "message"@),
                member_text_list(tree, "outputs"@),
            ),
        )
    } else {
        None
    }
}

/// Whether an `event` member marks the terminal message.
pub fn is_terminal_event(event: Option<&str>) -> (r: bool)
    ensures
        r == terminal_event(opt_text(event)),
{
    match event {
        Some(tag) => same_text(tag, "complete"),
        None => false,
    }
}

/// Builds the result of a terminal message from its optional members.
pub fn assemble_result(
    status: Option<&str>,
    message: Option<&str>,
    outputs: Option<Vec<String>>,
) -> (r: BackendResult)
    ensures
        r@ == assembled_result(opt_text(status), opt_text(message), opt_text_list(outputs)),
{
    let status_text = match status {
        Some(s) => s.to_owned(),
        None => "complete".to_owned(),
    };
    let message_text = match message {
        Some(m) => m.to_owned(),
        None => String::new(),
    };
    let output_list = match outputs {
        Some(o) => o,
        None => {
            let empty: Vec<String> = Vec::new();
            assert(empty.deep_view() =~= Seq::<Seq<char>>::empty());
            empty
        },
    };
    BackendResult { status: status_text, message: message_text, outputs: output_list }
}

fn text_member<'a>(doc: &'a Value, key: &str) -> (r: Option<&'a str>)
    ensures
        opt_text(r) == member_text(model(*doc), key@),
{
    match get(doc, key) {
        Some(m) => as_text(m),
        None => None,
    }
}

fn text_list_member(doc: &Value, key: &str) -> (r: Option<Vec<String>>)
    ensures
        opt_text_list(r) == member_text_list(model(*doc), key@),
{
    match get(doc, key) {
        Some(m) => as_text_list(m),
        None => None,
    }
}

/// Reads the terminal result out of a decoded message; `None` for a message
/// that is not terminal.
pub fn interpret(doc: &Value) -> (r: Option<BackendResult>)
    ensures
        opt_result(r) == terminal_result(model(*doc)),
{
    if is_terminal_event(text_member(doc, "event")) {
        let status = text_member(doc, "status");
        let message = text_member(doc, "message");
        let outputs = text_list_member(doc, "outputs");
        Some(assemble_result(status, message, outputs))
    } else {
        None
    }
}

/// The request could not be put into JSON text.
#[derive(Debug, Clone, PartialEq, Eq)]
pub struct RequestError {
    pub reason: String,
}

impl RequestError {
    /// The failure as one line of text.
    pub fn message(&self) -> (r: String)
        ensures
            r@ == "Failed to serialize request: "@ + self.reason@,
    {
        prefixed("Failed to serialize request: ", self.reason.as_str())
    }
}

/// The document written to the worker for a job: an object with the members
/// `operation` (always `convert`), `files`, `format` and `output`.
pub open spec fn request_tree(payload: ConvertPayloadView) -> JsonTree {
    assembled(
        seq![
            ("operation"@, JsonTree::Text("convert"@)),
            ("files"@, text_list_tree(payload.files)),
            ("format"@, JsonTree::Text(payload.format)),
            ("output"@, JsonTree::Text(payload.output)),
        ],
    )
}

/// Serializes the request for a job as one line of JSON.
pub fn request_line(payload: &ConvertPayload) -> (r: Result<String, RequestError>)
    ensures
        match r {
            Ok(line) => rendered(request_tree(payload@)) == Some(line@),
            Err(_) => rendered(request_tree(payload@)) is None,
        },
{
    let mut entries: Vec<(String, Value)> = Vec::new();
    entries.push(("operation".to_owned(), text_value("convert")));
    entries.push(("files".to_owned(), text_list_value(&payload.files)));
    entries.push(("format".to_owned(), text_value(payload.format.as_str())));
    entries.push(("output".to_owned(), text_value(payload.output.as_str())));
    proof {
        assert(entry_models(entries@) =~= seq![
            ("operation"@, JsonTree::Text("convert"@)),
            ("files"@, text_list_tree(payload@.files)),
            ("format"@, JsonTree::Text(payload@.format)),
            ("output"@, JsonTree::Text(payload@.output)),
        ]);
    }
    let doc = object_value(entries);
    match render(&doc) {
        Ok(line) => Ok(line),
        Err(error) => Err(RequestError { reason: describe(&error) }),
    }
}

/// One line of the worker's standard output, decoded.
#[derive(Debug, PartialEq)]
pub enum ProtocolMessage {
    /// A message that does not end the run. `payload` goes to the progress sink as it is.
    Progress { payload: Value },
    /// The terminal message. `payload` goes to the progress sink too.
    Complete { payload: Value, result: BackendResult },
    /// A line that is no JSON document: it is logged and the stream goes on.
    Malformed { raw_text: String, reason: String },
}

/// A decoded line over plain values. The reason given for a malformed line
/// is diagnostic text and has no place here.
pub enum MessageView {
    Progress { payload: JsonTree },
    Complete { payload: JsonTree, result: BackendResultView },
    Malformed { raw_text: Seq<char> },
}

impl View for ProtocolMessage {
    type V = MessageView;

    open spec fn view(&self) -> MessageView {
        match *self {
            ProtocolMessage::Progress { payload } => MessageView::Progress {
                payload: model(payload),
            },
            ProtocolMessage::Complete { payload, result } => MessageView::Complete {
                payload: model(payload),
                result: result@,
            },
            ProtocolMessage::Malformed { raw_text, reason } => MessageView::Malformed {
                raw_text: raw_text@,
            },
        }
    }
}

/// The view of an optional message.
pub open spec fn opt_message(message: Option<ProtocolMessage>) -> Option<MessageView> {
    match message {
        Some(m) => Some(m@),
        None => None,
    }
}

/// What a non-blank, trimmed line decodes to.
pub open spec fn decoded_text(text: Seq<char>) -> MessageView {
    match json_document(text) {
        None => MessageView::Malformed { raw_text: text },
        Some(tree) => match terminal_result(tree) {
            Some(result) => MessageView::Complete { payload: tree, result },
            None => MessageView::Progress { payload: tree },
        },
    }
}

/// What a line of standard output decodes to: nothing for a blank line,
/// else the message that its trimmed text holds.
pub open spec fn decoded(line: Seq<char>) -> Option<MessageView> {
    if trimmed(line).len() == 0 {
        None
    } else {
        Some(decoded_text(trimmed(line)))
    }
}

/// The empty line is blank: it decodes to nothing.
pub proof fn lemma_empty_line_is_blank()
    ensures
        decoded(Seq::empty()) is None,
{
}

fn decode_text(text: &str) -> (r: ProtocolMessage)
    ensures
        r@ == decoded_text(text@),
{
    match parse(text) {
        Ok(doc) => match interpret(&doc) {
            Some(result) => ProtocolMessage::Complete { payload: doc, result },
            None => ProtocolMessage::Progress { payload: doc },
        },
        Err(error) => ProtocolMessage::Malformed {
            raw_text: text.to_owned(),
            reason: describe(&error),
        },
    }
}

/// Decodes one line of the worker's standard output. A blank line gives
/// `None`; a line that is no JSON document gives `Malformed`, never an error.
pub fn decode_line(line: &str) -> (r: Option<ProtocolMessage>)
    ensures
        opt_message(r) == decoded(line@),
{
    let text = trim(line);
    if text.is_empty() {
        None
    } else {
        Some(decode_text(text))
    }
}

/// What has been learned from the worker's standard output so far: the last
/// terminal result seen and the last non-blank line.
#[derive(Debug, Clone, PartialEq, Eq)]
pub struct StreamState {
    pub final_result: Option<BackendResult>,
    pub last_stdout: String,
}

pub struct StreamStateView {
    pub final_result: Option<BackendResultView>,
    pub last_stdout: Seq<char>,
}

impl View for StreamState {
    type V = StreamStateView;

    open spec fn view(&self) -> StreamStateView {
        StreamStateView {
            final_result: opt_result(self.final_result),
            last_stdout: self.last_stdout@,
        }
    }
}

/// The state before any line was read.
pub open spec fn initial_state() -> StreamStateView {
    StreamStateView { final_result: None, last_stdout: Seq::empty() }
}

/// The state after one more line: a blank line changes nothing; any other
/// line becomes the last line seen, and a terminal message replaces the
/// result held so far.
pub open spec fn state_after(state: StreamStateView, line: Seq<char>) -> StreamStateView {
    match decoded(line) {
        None => state,
        Some(MessageView::Complete { payload, result }) => StreamStateView {
            final_result: Some(result),
            last_stdout: trimmed(line),
        },
        Some(_) => StreamStateView {
            final_result: state.final_result,
            last_stdout: trimmed(line),
        },
    }
}

/// The state after a run of lines, read in order.
pub open spec fn state_after_all(state: StreamStateView, lines: Seq<Seq<char>>) -> StreamStateView
    decreases lines.len(),
{
    if lines.len() == 0 {
        state
    } else {
        state_after(state_after_all(state, lines.drop_last()), lines.last())
    }
}

/// The messages that a run of lines gives rise to, in the order of the lines.
pub open spec fn messages_of(lines: Seq<Seq<char>>) -> Seq<MessageView>
    decreases lines.len(),
{
    if lines.len() == 0 {
        Seq::empty()
    } else {
        match decoded(lines.last()) {
            Some(m) => messages_of(lines.drop_last()).push(m),
            None => messages_of(lines.drop_last()),
        }
    }
}

/// The views of a list of messages.
pub open spec fn message_views(messages: Seq<ProtocolMessage>) -> Seq<MessageView> {
    Seq::new(messages.len(), |i: int| messages[i]@)
}

impl BackendResult {
    /// A copy of the result.
    pub fn duplicate(&self) -> (r: BackendResult)
        ensures
            r@ == self@,
    {
        let outputs = self.outputs.clone();
        assert(outputs.deep_view() =~= self.outputs.deep_view());
        BackendResult { status: self.status.clone(), message: self.message.clone(), outputs }
    }
}

impl StreamState {
    /// The state before any line was read.
    pub fn new() -> (r: StreamState)
        ensures
            r@ == initial_state(),
    {
        StreamState { final_result: None, last_stdout: String::new() }
    }

    /// Takes in one line of standard output and returns what it decoded to,
    /// for the caller to forward or log.
    pub fn observe(&mut self, line: &str) -> (r: Option<ProtocolMessage>)
        ensures
            opt_message(r) == decoded(line@),
            final(self)@ == state_after(old(self)@, line@),
    {
        let text = trim(line);
        if text.is_empty() {
            None
        } else {
            let message = decode_text(text);
            self.last_stdout = text.to_owned();
            match &message {
                ProtocolMessage::Complete { payload, result } => {
                    self.final_result = Some(result.duplicate());
                },
                _ => {},
            }
            Some(message)
        }
    }

    /// Takes in a run of lines in order and returns the messages they decoded to.
    pub fn observe_all(&mut self, lines: &Vec<String>) -> (r: Vec<ProtocolMessage>)
        ensures
            message_views(r@) == messages_of(lines.deep_view()),
            final(self)@ == state_after_all(old(self)@, lines.deep_view()),
    {
        let mut messages: Vec<ProtocolMessage> = Vec::new();
        let mut i: usize = 0;
        assert(lines.deep_view().take(0) =~= Seq::<Seq<char>>::empty());
        assert(message_views(messages@) =~= Seq::<MessageView>::empty());
        while i < lines.len()
            invariant
                i <= lines.len(),
                message_views(messages@) == messages_of(lines.deep_view().take(i as int)),
                self@ == state_after_all(old(self)@, lines.deep_view().take(i as int)),
            decreases lines.len() - i,
        {
            let ghost before = lines.deep_view().take(i as int);
            let ghost upto = lines.deep_view().take(i + 1);
            assert(upto.drop_last() =~= before);
            assert(upto.last() == lines[i as int]@);
            let ghost seen = message_views(messages@);
            match self.observe(lines[i].as_str()) {
                Some(message) => {
                    messages.push(message);
                    assert(message_views(messages@) =~= seen.push(message@));
                },
                None => {},
            }
            i = i + 1;
        }
        assert(lines.deep_view().take(lines.len() as int) =~= lines.deep_view());
        messages
    }
}

} // verus!
