use crate::cluster::{clip, clipped};
use crate::json::{
    field_json, field_text, json_field_json, json_field_text, json_nested_text, json_quote,
    json_quoted, json_well_formed, nested_text, parses_as_json,
};
use crate::text::{chars_of, decimal, matches_at, opt_view, push_decimal, starts_with, str_eq, string_of};
use vstd::prelude::*;

verus! {

/// The delay before the first reconnect, in seconds.
pub const INITIAL_DELAY: u64 = 1;

/// The longest delay between reconnects, in seconds.
pub const MAX_DELAY: u64 = 60;

/// The delay that follows a delay of `delay` seconds: twice as long, up to
/// `MAX_DELAY`.
pub open spec fn grown(delay: u64) -> u64 {
    if delay * 2 >= MAX_DELAY {
        MAX_DELAY
    } else {
        (delay * 2) as u64
    }
}

/// The delay before the reconnect that follows `failures` failed attempts in
/// a row, counted from a fresh start or from the last connection that
/// succeeded: 1, 2, 4, 8, 16, 32, then 60.
pub open spec fn delay_after_failures(failures: nat) -> u64
    decreases failures,
{
    if failures == 0 {
        INITIAL_DELAY
    } else {
        grown(delay_after_failures((failures - 1) as nat))
    }
}

/// How long the relay waits before it connects again.
#[derive(Debug, Clone, Copy, PartialEq, Eq, Structural)]
pub struct Backoff {
    pub next_delay: u64,
}

impl Backoff {
    /// The delay lies between `INITIAL_DELAY` and `MAX_DELAY`.
    pub open spec fn wf(self) -> bool {
        INITIAL_DELAY <= self.next_delay <= MAX_DELAY
    }

    /// The delay that ends an attempt: `INITIAL_DELAY` after a connection
    /// that succeeded, else the delay that was due.
    pub open spec fn delay_for(self, connected: bool) -> u64 {
        if connected {
            INITIAL_DELAY
        } else {
            self.next_delay
        }
    }

    /// The backoff after an attempt has ended.
    pub open spec fn after(self, connected: bool) -> Backoff {
        Backoff { next_delay: grown(self.delay_for(connected)) }
    }

    /// The backoff after `failures` failed attempts in a row.
    pub open spec fn after_failures(self, failures: nat) -> Backoff
        decreases failures,
    {
        if failures == 0 {
            self
        } else {
            self.after_failures((failures - 1) as nat).after(false)
        }
    }

    /// The backoff of a relay that has not connected yet.
    pub open spec fn fresh() -> Backoff {
        Backoff { next_delay: INITIAL_DELAY }
    }

    /// The backoff of a relay that has not connected yet.
    pub fn new() -> (backoff: Backoff)
        ensures
            backoff == Backoff::fresh(),
            backoff.wf(),
    {
        Backoff { next_delay: INITIAL_DELAY }
    }

    /// An attempt has ended; `connected` says whether the connection had
    /// been established before it ended. The result is the number of seconds
    /// to wait before the next attempt.
    pub fn next(&mut self, connected: bool) -> (delay: u64)
        ensures
            delay == old(self).delay_for(connected),
            *final(self) == old(self).after(connected),
            old(self).wf() ==> final(self).wf(),
    {
        if connected {
            self.next_delay = INITIAL_DELAY;
        }
        let delay = self.next_delay;
        self.next_delay = if delay >= MAX_DELAY / 2 {
            MAX_DELAY
        } else {
            delay * 2
        };
        delay
    }
}

/// From a fresh start the delays of failed attempts in a row are 1, 2, 4, 8,
/// 16 and 32 seconds, and 60 seconds from the seventh on.
pub proof fn lemma_backoff_sequence(failures: nat)
    ensures
        Backoff::fresh().after_failures(failures).next_delay == delay_after_failures(failures),
        failures == 0 ==> delay_after_failures(failures) == 1,
        failures == 1 ==> delay_after_failures(failures) == 2,
        failures == 2 ==> delay_after_failures(failures) == 4,
        failures == 3 ==> delay_after_failures(failures) == 8,
        failures == 4 ==> delay_after_failures(failures) == 16,
        failures == 5 ==> delay_after_failures(failures) == 32,
        failures >= 6 ==> delay_after_failures(failures) == 60,
    decreases failures,
{
    reveal_with_fuel(delay_after_failures, 8);
    if failures > 0 {
        lemma_backoff_sequence((failures - 1) as nat);
    }
}

/// Whatever came before, a connection that succeeded makes the next delay
/// `INITIAL_DELAY`, and the failures after it wait as from a fresh start.
pub proof fn lemma_success_resets(backoff: Backoff, failures: nat)
    ensures
        backoff.delay_for(true) == INITIAL_DELAY,
        backoff.after(true) == Backoff::fresh().after(false),
        backoff.after(true).after_failures(failures).next_delay == delay_after_failures(
            failures + 1,
        ),
    decreases failures,
{
    reveal_with_fuel(delay_after_failures, 3);
    if failures > 0 {
        lemma_success_resets(backoff, (failures - 1) as nat);
        let before = backoff.after(true).after_failures((failures - 1) as nat);
        assert(backoff.after(true).after_failures(failures) == before.after(false));
        assert(before.next_delay == delay_after_failures(failures));
        assert(delay_after_failures(failures + 1) == grown(delay_after_failures(failures)));
    }
}

/// A well-formed backoff stays well formed.
pub proof fn lemma_backoff_bounded(backoff: Backoff, connected: bool)
    requires
        backoff.wf(),
    ensures
        backoff.after(connected).wf(),
        INITIAL_DELAY <= backoff.delay_for(connected) <= MAX_DELAY,
{
}


/// A frame that the relay client sends.
#[derive(Debug, Clone)]
pub enum OutFrame {
    /// Opens a session: who the node is, what it serves, and proof of both.
    Auth { address: String, model: String, timestamp: u64, signature: String },
    /// Keeps the session alive.
    Ping,
    /// The whole answer to a request; `choices` and `usage` are JSON texts.
    Response { id: String, choices: String, usage: String },
    /// One piece of a streamed answer.
    Chunk { id: String, content: String },
    /// The streamed answer is complete.
    Done { id: String },
    /// The request failed.
    Error { id: String, message: String },
}

/// A sent frame as a mathematical value.
pub enum FrameModel {
    Auth { address: Seq<char>, model: Seq<char>, timestamp: u64, signature: Seq<char> },
    Ping,
    Response { id: Seq<char>, choices: Seq<char>, usage: Seq<char> },
    Chunk { id: Seq<char>, content: Seq<char> },
    Done { id: Seq<char> },
    Error { id: Seq<char>, message: Seq<char> },
}

impl View for OutFrame {
    type V = FrameModel;

    open spec fn view(&self) -> FrameModel {
        match self {
            OutFrame::Auth { address, model, timestamp, signature } => FrameModel::Auth {
                address: address@,
                model: model@,
                timestamp: *timestamp,
                signature: signature@,
            },
            OutFrame::Ping => FrameModel::Ping,
            OutFrame::Response { id, choices, usage } => FrameModel::Response {
                id: id@,
                choices: choices@,
                usage: usage@,
            },
            OutFrame::Chunk { id, content } => FrameModel::Chunk { id: id@, content: content@ },
            OutFrame::Done { id } => FrameModel::Done { id: id@ },
            OutFrame::Error { id, message } => FrameModel::Error { id: id@, message: message@ },
        }
    }
}

impl FrameModel {
    /// The request that the frame answers, where it answers one.
    pub open spec fn request_id(self) -> Option<Seq<char>> {
        match self {
            FrameModel::Auth { .. } => None,
            FrameModel::Ping => None,
            FrameModel::Response { id, .. } => Some(id),
            FrameModel::Chunk { id, .. } => Some(id),
            FrameModel::Done { id } => Some(id),
            FrameModel::Error { id, .. } => Some(id),
        }
    }

    /// The frame ends the answer to its request.
    pub open spec fn is_final(self) -> bool {
        self is Response || self is Done || self is Error
    }

    /// The frame on the wire: one JSON object without spaces, its keys in
    /// alphabetical order.
    pub open spec fn wire_text(self) -> Seq<char> {
        match self {
            FrameModel::Auth { address, model, timestamp, signature } => "{\"address\":"@
                + json_quoted(address) + ",\"model\":"@ + json_quoted(model) + ",\"signature\":"@
                + json_quoted(signature) + ",\"timestamp\":"@ + decimal(timestamp as nat)
                + ",\"type\":\"auth\"}"@,
            FrameModel::Ping => "{\"type\":\"ping\"}"@,
            FrameModel::Response { id, choices, usage } => "{\"choices\":"@ + choices
                + ",\"id\":"@ + json_quoted(id) + ",\"type\":\"response\",\"usage\":"@ + usage
                + "}"@,
            FrameModel::Chunk { id, content } => "{\"content\":"@ + json_quoted(content)
                + ",\"id\":"@ + json_quoted(id) + ",\"type\":\"chunk\"}"@,
            FrameModel::Done { id } => "{\"id\":"@ + json_quoted(id) + ",\"type\":\"done\"}"@,
            FrameModel::Error { id, message } => "{\"id\":"@ + json_quoted(id) + ",\"message\":"@
                + json_quoted(message) + ",\"type\":\"error\"}"@,
        }
    }
}

impl OutFrame {
    /// Writes the frame as it goes over the wire.
    pub fn encode(&self) -> (text: String)
        ensures
            text@ == self@.wire_text(),
    {
        match self {
            OutFrame::Auth { address, model, timestamp, signature } => {
                let mut text = "{\"address\":".to_owned();
                text.append(json_quote(address.as_str()).as_str());
                text.append(",\"model\":");
                text.append(json_quote(model.as_str()).as_str());
                text.append(",\"signature\":");
                text.append(json_quote(signature.as_str()).as_str());
                text.append(",\"timestamp\":");
                push_decimal(&mut text, *timestamp);
                text.append(",\"type\":\"auth\"}");
                text
            },
            OutFrame::Ping => "{\"type\":\"ping\"}".to_owned(),
            OutFrame::Response { id, choices, usage } => {
                let mut text = "{\"choices\":".to_owned();
                text.append(choices.as_str());
                text.append(",\"id\":");
                text.append(json_quote(id.as_str()).as_str());
                text.append(",\"type\":\"response\",\"usage\":");
                text.append(usage.as_str());
                text.append("}");
                text
            },
            OutFrame::Chunk { id, content } => {
                let mut text = "{\"content\":".to_owned();
                text.append(json_quote(content.as_str()).as_str());
                text.append(",\"id\":");
                text.append(json_quote(id.as_str()).as_str());
                text.append(",\"type\":\"chunk\"}");
                text
            },
            OutFrame::Done { id } => {
                let mut text = "{\"id\":".to_owned();
                text.append(json_quote(id.as_str()).as_str());
                text.append(",\"type\":\"done\"}");
                text
            },
            OutFrame::Error { id, message } => {
                let mut text = "{\"id\":".to_owned();
                text.append(json_quote(id.as_str()).as_str());
                text.append(",\"message\":");
                text.append(json_quote(message.as_str()).as_str());
                text.append(",\"type\":\"error\"}");
                text
            },
        }
    }
}

/// The text that opens a session signs: address, model and timestamp, in
/// this order, as one JSON object without spaces.
pub open spec fn auth_message_text(address: Seq<char>, model: Seq<char>, timestamp: u64) -> Seq<
    char,
> {
    "{\"address\":"@ + json_quoted(address) + ",\"model\":"@ + json_quoted(model)
        + ",\"timestamp\":"@ + decimal(timestamp as nat) + "}"@
}

/// Builds the text that opens a session signs.
pub fn auth_message(address: &str, model: &str, timestamp: u64) -> (text: String)
    ensures
        text@ == auth_message_text(address@, model@, timestamp),
{
    let mut text = "{\"address\":".to_owned();
    text.append(json_quote(address).as_str());
    text.append(",\"model\":");
    text.append(json_quote(model).as_str());
    text.append(",\"timestamp\":");
    push_decimal(&mut text, timestamp);
    text.append("}");
    text
}


/// Seconds that the relay waits for the answer to its opening frame.
pub const AUTH_TIMEOUT_SECS: u64 = 10;

/// Seconds between two keep-alive frames.
pub const PING_INTERVAL_SECS: u64 = 30;

/// The kind of frame that tells the client that its session is open.
pub open spec fn auth_ok_kind() -> Seq<char> {
    "auth_ok"@
}

/// Why a session could not be opened.
#[derive(Debug, Clone, Copy, PartialEq, Eq, Structural)]
pub enum AuthFailure {
    /// No answer came within `AUTH_TIMEOUT_SECS`.
    Timeout,
    /// The connection was closed before an answer came.
    Closed,
    /// Reading the answer failed.
    Read,
    /// The answer was no text frame.
    NotText,
    /// The answer was no JSON document.
    Unparsable,
    /// The relay declined.
    Rejected,
}

/// What happened while the client waited for the answer to its opening frame.
#[derive(Debug, Clone)]
pub enum AuthEvent {
    Timeout,
    Closed,
    ReadError(String),
    NotText(String),
    Text(String),
}

/// A failed attempt to open a session: what went wrong, and the detail that
/// came with it.
#[derive(Debug, Clone)]
pub struct AuthError {
    pub kind: AuthFailure,
    pub detail: String,
}

/// The words for a failed attempt to open a session.
pub open spec fn auth_error_text(kind: AuthFailure, detail: Seq<char>) -> Seq<char> {
    match kind {
        AuthFailure::Timeout => "Auth response timeout"@,
        AuthFailure::Closed => "Connection closed during auth"@,
        AuthFailure::Read => "Auth read error: "@ + detail,
        AuthFailure::NotText => "Auth response not text: "@ + detail,
        AuthFailure::Unparsable => "Auth response parse error"@,
        AuthFailure::Rejected => "Auth rejected: "@ + detail,
    }
}

impl AuthError {
    /// The error in words.
    pub fn message(&self) -> (text: String)
        ensures
            text@ == auth_error_text(self.kind, self.detail@),
    {
        match self.kind {
            AuthFailure::Timeout => "Auth response timeout".to_owned(),
            AuthFailure::Closed => "Connection closed during auth".to_owned(),
            AuthFailure::Read => {
                let mut text = "Auth read error: ".to_owned();
                text.append(self.detail.as_str());
                text
            },
            AuthFailure::NotText => {
                let mut text = "Auth response not text: ".to_owned();
                text.append(self.detail.as_str());
                text
            },
            AuthFailure::Unparsable => "Auth response parse error".to_owned(),
            AuthFailure::Rejected => {
                let mut text = "Auth rejected: ".to_owned();
                text.append(self.detail.as_str());
                text
            },
        }
    }
}

/// What an answer to the opening frame means, given whether it is a JSON
/// document and the strings it holds as `type` and `message`: the session is
/// open exactly where the document's type is `auth_ok`; any other document
/// is a rejection, with its message or `unknown error`.
pub open spec fn auth_answer(
    well_formed: bool,
    kind: Option<Seq<char>>,
    message: Option<Seq<char>>,
) -> Option<(AuthFailure, Seq<char>)> {
    if !well_formed {
        Some((AuthFailure::Unparsable, Seq::empty()))
    } else if kind == Some(auth_ok_kind()) {
        None
    } else {
        Some(
            (
                AuthFailure::Rejected,
                match message {
                    Some(m) => m,
                    None => "unknown error"@,
                },
            ),
        )
    }
}

/// What the wait for the answer to the opening frame came to. Anything but
/// an accepting answer fails this attempt, and only this attempt.
pub open spec fn auth_result(event: AuthEvent) -> Option<(AuthFailure, Seq<char>)> {
    match event {
        AuthEvent::Timeout => Some((AuthFailure::Timeout, Seq::empty())),
        AuthEvent::Closed => Some((AuthFailure::Closed, Seq::empty())),
        AuthEvent::ReadError(why) => Some((AuthFailure::Read, why@)),
        AuthEvent::NotText(why) => Some((AuthFailure::NotText, why@)),
        AuthEvent::Text(doc) => auth_answer(
            json_well_formed(doc@),
            json_field_text(doc@, "type"@),
            json_field_text(doc@, "message"@),
        ),
    }
}

/// Judges an answer to the opening frame from what was read out of it.
pub fn auth_verdict(well_formed: bool, kind: Option<String>, message: Option<String>) -> (outcome:
    Result<(), AuthError>)
    ensures
        outcome is Ok <==> auth_answer(well_formed, opt_view(kind), opt_view(message)) is None,
        outcome matches Err(e) ==> auth_answer(well_formed, opt_view(kind), opt_view(message))
            == Some((e.kind, e.detail@)),
{
    if !well_formed {
        return Err(AuthError { kind: AuthFailure::Unparsable, detail: String::new() });
    }
    let accepted = match &kind {
        Some(k) => str_eq(k.as_str(), "auth_ok"),
        None => false,
    };
    if accepted {
        Ok(())
    } else {
        let detail = match message {
            Some(m) => m,
            None => "unknown error".to_owned(),
        };
        Err(AuthError { kind: AuthFailure::Rejected, detail })
    }
}

/// Judges what the wait for the answer to the opening frame came to.
pub fn check_auth(event: AuthEvent) -> (outcome: Result<(), AuthError>)
    ensures
        outcome is Ok <==> auth_result(event) is None,
        outcome matches Err(e) ==> auth_result(event) == Some((e.kind, e.detail@)),
{
    match event {
        AuthEvent::Timeout => Err(AuthError { kind: AuthFailure::Timeout, detail: String::new() }),
        AuthEvent::Closed => Err(AuthError { kind: AuthFailure::Closed, detail: String::new() }),
        AuthEvent::ReadError(why) => Err(AuthError { kind: AuthFailure::Read, detail: why }),
        AuthEvent::NotText(why) => Err(AuthError { kind: AuthFailure::NotText, detail: why }),
        AuthEvent::Text(doc) => {
            let well_formed = parses_as_json(doc.as_str());
            let kind = field_text(doc.as_str(), "type");
            let message = field_text(doc.as_str(), "message");
            auth_verdict(well_formed, kind, message)
        },
    }
}

/// What the read loop of an open session reads of a frame from the relay.
#[derive(Debug, Clone)]
pub struct InboundFrame {
    pub kind: String,
    pub id: String,
    pub stream: bool,
}

/// What the read loop of an open session was handed.
#[derive(Debug, Clone)]
pub enum SocketEvent {
    /// A text frame that could be decoded.
    Frame(InboundFrame),
    /// A text frame that could not be decoded.
    Malformed,
    /// A protocol-level ping with its payload.
    Ping(Vec<u8>),
    /// The relay closed the connection.
    Close,
    /// Reading failed.
    ReadError,
    /// Any other frame.
    Other,
}

/// What the read loop does next.
#[derive(Debug, Clone)]
pub enum RelayStep {
    /// Hand the request to a task of its own and read on.
    Forward { id: String, stream: bool },
    /// Answer the ping with this payload at once and read on.
    Pong(Vec<u8>),
    /// Read on.
    Skip,
    /// Leave the loop; the connection is over.
    Disconnect,
}

/// A step of the read loop as a mathematical value.
pub enum StepModel {
    Forward { id: Seq<char>, stream: bool },
    Pong(Seq<u8>),
    Skip,
    Disconnect,
}

impl View for RelayStep {
    type V = StepModel;

    open spec fn view(&self) -> StepModel {
        match self {
            RelayStep::Forward { id, stream } => StepModel::Forward { id: id@, stream: *stream },
            RelayStep::Pong(payload) => StepModel::Pong(payload@),
            RelayStep::Skip => StepModel::Skip,
            RelayStep::Disconnect => StepModel::Disconnect,
        }
    }
}

/// The step for an event: a request is forwarded under its id, a ping is
/// answered, a close or a failed read ends the connection, and everything
/// else, a frame that could not be decoded included, is passed over.
pub open spec fn step_for(event: SocketEvent) -> StepModel {
    match event {
        SocketEvent::Frame(frame) => if frame.kind@ == "request"@ {
            StepModel::Forward { id: frame.id@, stream: frame.stream }
        } else {
            StepModel::Skip
        },
        SocketEvent::Malformed => StepModel::Skip,
        SocketEvent::Ping(payload) => StepModel::Pong(payload@),
        SocketEvent::Close => StepModel::Disconnect,
        SocketEvent::ReadError => StepModel::Disconnect,
        SocketEvent::Other => StepModel::Skip,
    }
}

/// Decides what the read loop does about an event.
pub fn relay_step(event: SocketEvent) -> (step: RelayStep)
    ensures
        step@ == step_for(event),
{
    match event {
        SocketEvent::Frame(frame) => {
            if str_eq(frame.kind.as_str(), "request") {
                RelayStep::Forward { id: frame.id, stream: frame.stream }
            } else {
                RelayStep::Skip
            }
        },
        SocketEvent::Malformed => RelayStep::Skip,
        SocketEvent::Ping(payload) => RelayStep::Pong(payload),
        SocketEvent::Close => RelayStep::Disconnect,
        SocketEvent::ReadError => RelayStep::Disconnect,
        SocketEvent::Other => RelayStep::Skip,
    }
}

/// No event makes the read loop fail: a frame that cannot be decoded is
/// passed over, and the loop ends only on a close or a failed read.
pub proof fn lemma_read_loop_survives(event: SocketEvent)
    ensures
        event is Malformed ==> step_for(event) is Skip,
        step_for(event) is Disconnect <==> event is Close || event is ReadError,
{
}


/// What one line of a streamed completion is.
#[derive(Debug, Clone)]
pub enum SseLine {
    /// No data line: passed over.
    Ignored,
    /// The line that ends the stream.
    Done,
    /// A data line with its payload.
    Data(String),
}

/// A line of a streamed completion as a mathematical value.
pub enum SseModel {
    Ignored,
    Done,
    Data(Seq<char>),
}

impl View for SseLine {
    type V = SseModel;

    open spec fn view(&self) -> SseModel {
        match self {
            SseLine::Ignored => SseModel::Ignored,
            SseLine::Done => SseModel::Done,
            SseLine::Data(payload) => SseModel::Data(payload@),
        }
    }
}

/// What a line is: a data line begins with `data: `; its payload is the
/// rest, and the payload `[DONE]` ends the stream.
pub open spec fn sse_line(line: Seq<char>) -> SseModel {
    if !starts_with(line, "data: "@) {
        SseModel::Ignored
    } else if line.skip(6) == "[DONE]"@ {
        SseModel::Done
    } else {
        SseModel::Data(line.skip(6))
    }
}

/// Tells what one line of a streamed completion is.
pub fn classify_sse_line(line: &str) -> (kind: SseLine)
    ensures
        kind@ == sse_line(line@),
{
    proof {
        reveal_strlit("data: ");
    }
    let chars = chars_of(line);
    let prefix = chars_of("data: ");
    if !matches_at(chars.as_slice(), prefix.as_slice(), 0) {
        return SseLine::Ignored;
    }
    let rest = vstd::slice::slice_subrange(chars.as_slice(), 6, chars.len());
    assert(rest@ =~= line@.skip(6));
    let done = chars_of("[DONE]");
    if rest.len() == done.len() && matches_at(rest, done.as_slice(), 0) {
        assert(rest@.subrange(0, rest@.len() as int) =~= rest@);
        SseLine::Done
    } else {
        proof {
            if rest@ == "[DONE]"@ {
                assert(rest@.subrange(0, rest@.len() as int) =~= rest@);
            }
        }
        SseLine::Data(string_of(rest))
    }
}

/// What a streamed answer is fed with.
pub enum StreamEvent {
    /// A data line was read; this is the content delta found in it, if any.
    Delta(Option<Seq<char>>),
    /// The stream ended: by its last line, or because the engine closed it.
    End,
    /// Reading the stream failed.
    Failed(Seq<char>),
}

/// A streamed answer in progress, as a mathematical value.
pub struct StreamModel {
    pub id: Seq<char>,
    pub finished: bool,
}

impl StreamModel {
    /// The frame, if any, that an event makes the relay send. Nothing is
    /// sent once the answer is finished; a delta that is not empty goes out
    /// as a chunk; the end goes out as `done` and a failure as `error`.
    pub open spec fn emits(self, event: StreamEvent) -> Option<FrameModel> {
        if self.finished {
            None
        } else {
            match event {
                StreamEvent::Delta(Some(content)) => if content.len() > 0 {
                    Some(FrameModel::Chunk { id: self.id, content })
                } else {
                    None
                },
                StreamEvent::Delta(None) => None,
                StreamEvent::End => Some(FrameModel::Done { id: self.id }),
                StreamEvent::Failed(why) => Some(FrameModel::Error { id: self.id, message: why }),
            }
        }
    }

    /// The answer after an event: finished once it has ended or failed.
    pub open spec fn after(self, event: StreamEvent) -> StreamModel {
        StreamModel { id: self.id, finished: self.finished || !(event is Delta) }
    }

    /// The frames that a run of events makes the relay send, in order.
    pub open spec fn output(self, events: Seq<StreamEvent>) -> Seq<FrameModel>
        decreases events.len(),
    {
        if events.len() == 0 {
            Seq::empty()
        } else {
            let before = self.output(events.drop_last());
            match self.after_all(events.drop_last()).emits(events.last()) {
                Some(frame) => before.push(frame),
                None => before,
            }
        }
    }

    /// The answer after a run of events.
    pub open spec fn after_all(self, events: Seq<StreamEvent>) -> StreamModel
        decreases events.len(),
    {
        if events.len() == 0 {
            self
        } else {
            self.after_all(events.drop_last()).after(events.last())
        }
    }
}

/// The content delta that the payload of a data line carries: the string
/// under `content`, in the object under `delta`, in the first element of
/// the list under `choices`.
pub open spec fn stream_delta_text(payload: Seq<char>) -> Option<Seq<char>> {
    json_nested_text(payload, "choices"@, 0, "delta"@, "content"@)
}

/// Reads the content delta out of the payload of a data line.
pub fn stream_delta(payload: &str) -> (delta: Option<String>)
    ensures
        opt_view(delta) == stream_delta_text(payload@),
{
    nested_text(payload, "choices", 0, "delta", "content")
}

/// The event that a line of the stream stands for, where it stands for one.
pub open spec fn event_of_line(line: Seq<char>) -> Option<StreamEvent> {
    match sse_line(line) {
        SseModel::Ignored => None,
        SseModel::Done => Some(StreamEvent::End),
        SseModel::Data(payload) => Some(StreamEvent::Delta(stream_delta_text(payload))),
    }
}

/// A streamed answer in progress: the request it belongs to, and whether its
/// last frame has gone out.
#[derive(Debug, Clone)]
pub struct StreamRelay {
    pub id: String,
    pub finished: bool,
}

impl View for StreamRelay {
    type V = StreamModel;

    open spec fn view(&self) -> StreamModel {
        StreamModel { id: self.id@, finished: self.finished }
    }
}

/// The frame of an optional frame, as an optional model.
pub open spec fn frame_view(frame: Option<OutFrame>) -> Option<FrameModel> {
    match frame {
        Some(f) => Some(f@),
        None => None,
    }
}

impl StreamRelay {
    /// The streamed answer to the request `id`, before anything was read.
    pub fn new(id: String) -> (relay: StreamRelay)
        ensures
            relay@ == (StreamModel { id: id@, finished: false }),
    {
        StreamRelay { id, finished: false }
    }

    /// A data line was read and this content delta found in it. The result
    /// is the frame to send, if any.
    pub fn on_delta(&mut self, delta: Option<String>) -> (frame: Option<OutFrame>)
        ensures
            frame_view(frame) == old(self)@.emits(StreamEvent::Delta(opt_view(delta))),
            final(self)@ == old(self)@.after(StreamEvent::Delta(opt_view(delta))),
    {
        if self.finished {
            return None;
        }
        match delta {
            Some(content) => {
                if content.as_str().unicode_len() > 0 {
                    Some(OutFrame::Chunk { id: self.id.clone(), content })
                } else {
                    None
                }
            },
            None => None,
        }
    }

    /// The stream ended. The result is the frame to send, if any.
    pub fn on_end(&mut self) -> (frame: Option<OutFrame>)
        ensures
            frame_view(frame) == old(self)@.emits(StreamEvent::End),
            final(self)@ == old(self)@.after(StreamEvent::End),
    {
        if self.finished {
            return None;
        }
        self.finished = true;
        Some(OutFrame::Done { id: self.id.clone() })
    }

    /// Reading the stream failed. The result is the frame to send, if any.
    pub fn on_failure(&mut self, why: String) -> (frame: Option<OutFrame>)
        ensures
            frame_view(frame) == old(self)@.emits(StreamEvent::Failed(why@)),
            final(self)@ == old(self)@.after(StreamEvent::Failed(why@)),
    {
        if self.finished {
            return None;
        }
        self.finished = true;
        Some(OutFrame::Error { id: self.id.clone(), message: why })
    }

    /// A line of the stream was read. The result is the frame to send, if
    /// any: a line that is no data line changes nothing.
    pub fn on_line(&mut self, line: &str) -> (frame: Option<OutFrame>)
        ensures
            event_of_line(line@) matches Some(event) ==> frame_view(frame) == old(self)@.emits(
                event,
            ) && final(self)@ == old(self)@.after(event),
            event_of_line(line@) is None ==> frame is None && final(self)@ == old(self)@,
    {
        match classify_sse_line(line) {
            SseLine::Ignored => None,
            SseLine::Done => self.on_end(),
            SseLine::Data(payload) => {
                let delta = stream_delta(payload.as_str());
                self.on_delta(delta)
            },
        }
    }
}

/// Once a streamed answer is finished it stays finished, and nothing more
/// is sent for it, whatever is read.
pub proof fn lemma_nothing_after_final(stream: StreamModel, events: Seq<StreamEvent>, more: Seq<
    StreamEvent,
>)
    requires
        stream.after_all(events).finished,
    ensures
        stream.after_all(events + more).finished,
        stream.output(events + more) == stream.output(events),
    decreases more.len(),
{
    if more.len() == 0 {
        assert(events + more =~= events);
    } else {
        lemma_nothing_after_final(stream, events, more.drop_last());
        assert((events + more).drop_last() =~= events + more.drop_last());
        assert((events + more).last() == more.last());
    }
}

/// Every frame of a streamed answer carries the id of its request. Of a
/// stream that has not finished, every frame is a chunk; of one that has,
/// the last frame is the only final one.
pub proof fn lemma_stream_shape(stream: StreamModel, events: Seq<StreamEvent>)
    requires
        !stream.finished,
    ensures
        forall|i: int|
            0 <= i < stream.output(events).len() ==> (#[trigger] stream.output(
                events,
            )[i]).request_id() == Some(stream.id),
        stream.after_all(events).id == stream.id,
        !stream.after_all(events).finished ==> forall|i: int|
            0 <= i < stream.output(events).len() ==> (#[trigger] stream.output(events)[i]) is Chunk,
        stream.after_all(events).finished ==> stream.output(events).len() > 0
            && stream.output(events).last().is_final() && forall|i: int|
            0 <= i < stream.output(events).len() - 1 ==> (#[trigger] stream.output(
                events,
            )[i]) is Chunk,
    decreases events.len(),
{
    if events.len() > 0 {
        lemma_stream_shape(stream, events.drop_last());
    }
}

/// Deltas that are not empty, followed by the end of the stream, go out as
/// one chunk each, in the order read, and then one `done`.
pub proof fn lemma_chunks_then_done(stream: StreamModel, deltas: Seq<Seq<char>>)
    requires
        !stream.finished,
        forall|i: int| 0 <= i < deltas.len() ==> (#[trigger] deltas[i]).len() > 0,
    ensures
        stream.output(delta_events(deltas)) == chunk_frames(stream.id, deltas),
        !stream.after_all(delta_events(deltas)).finished,
        stream.output(delta_events(deltas).push(StreamEvent::End)) == chunk_frames(
            stream.id,
            deltas,
        ).push(FrameModel::Done { id: stream.id }),
    decreases deltas.len(),
{
    let events = delta_events(deltas);
    if deltas.len() > 0 {
        lemma_chunks_then_done(stream, deltas.drop_last());
        assert(events.drop_last() =~= delta_events(deltas.drop_last()));
        assert(chunk_frames(stream.id, deltas) =~= chunk_frames(
            stream.id,
            deltas.drop_last(),
        ).push(FrameModel::Chunk { id: stream.id, content: deltas.last() }));
        assert(events.last() == StreamEvent::Delta(Some(deltas.last())));
    } else {
        assert(chunk_frames(stream.id, deltas) =~= Seq::<FrameModel>::empty());
    }
    lemma_stream_shape(stream, events);
    assert(events.push(StreamEvent::End).drop_last() =~= events);
}

/// The events of reading one delta after another.
pub open spec fn delta_events(deltas: Seq<Seq<char>>) -> Seq<StreamEvent> {
    Seq::new(deltas.len(), |i: int| StreamEvent::Delta(Some(deltas[i])))
}

/// One chunk for each delta, under the id of the request.
pub open spec fn chunk_frames(id: Seq<char>, deltas: Seq<Seq<char>>) -> Seq<FrameModel> {
    Seq::new(deltas.len(), |i: int| FrameModel::Chunk { id, content: deltas[i] })
}


/// The longest text of a refused answer of the engine that is passed on.
pub const ENGINE_TEXT_LIMIT: usize = 200;

/// What came back from the engine, as the caller of its completion service
/// saw it.
#[derive(Debug, Clone)]
pub enum EngineReply {
    /// The request did not reach the engine; the text says why.
    Unreachable(String),
    /// The engine answered with a status that is no success.
    Refused { status: String, body: String },
    /// The engine answered with success and this body.
    Answered(String),
}

/// The frame that answers a request that was not streamed, given the JSON
/// texts found in the engine's answer under `choices` and `usage`, if its
/// body could be read: the response, or an error that says what failed.
pub open spec fn completion_answer(
    id: Seq<char>,
    reply: EngineReply,
    choices: Option<Seq<char>>,
    usage: Option<Seq<char>>,
) -> FrameModel {
    match reply {
        EngineReply::Unreachable(why) => FrameModel::Error {
            id,
            message: "llama-server request failed: "@ + why@,
        },
        EngineReply::Refused { status, body } => FrameModel::Error {
            id,
            message: "llama-server error "@ + status@ + ": "@ + clipped(
                body@,
                ENGINE_TEXT_LIMIT as int,
            ),
        },
        EngineReply::Answered(body) => match (choices, usage) {
            (Some(c), Some(u)) => FrameModel::Response { id, choices: c, usage: u },
            _ => FrameModel::Error { id, message: "Response parse error: invalid JSON"@ },
        },
    }
}

/// Builds the frame that answers a request that was not streamed from what
/// was read out of the engine's answer.
pub fn completion_frame_from(
    id: &str,
    reply: EngineReply,
    choices: Option<String>,
    usage: Option<String>,
) -> (frame: OutFrame)
    ensures
        frame@ == completion_answer(id@, reply, opt_view(choices), opt_view(usage)),
{
    match reply {
        EngineReply::Unreachable(why) => {
            let mut message = "llama-server request failed: ".to_owned();
            message.append(why.as_str());
            OutFrame::Error { id: id.to_owned(), message }
        },
        EngineReply::Refused { status, body } => {
            let mut message = "llama-server error ".to_owned();
            message.append(status.as_str());
            message.append(": ");
            message.append(clip(body.as_str(), ENGINE_TEXT_LIMIT).as_str());
            OutFrame::Error { id: id.to_owned(), message }
        },
        EngineReply::Answered(_) => match (choices, usage) {
            (Some(c), Some(u)) => OutFrame::Response { id: id.to_owned(), choices: c, usage: u },
            _ => OutFrame::Error {
                id: id.to_owned(),
                message: "Response parse error: invalid JSON".to_owned(),
            },
        },
    }
}

/// What is read of the body of an answer under a key, where there is an
/// answer with a body that is a JSON document.
pub open spec fn answered_json(reply: EngineReply, key: Seq<char>) -> Option<Seq<char>> {
    match reply {
        EngineReply::Answered(body) => if json_well_formed(body@) {
            Some(json_field_json(body@, key))
        } else {
            None
        },
        _ => None,
    }
}

/// Builds the frame that answers a request that was not streamed: the
/// engine's choices and usage under the id of the request, or an error.
pub fn completion_frame(id: &str, reply: EngineReply) -> (frame: OutFrame)
    ensures
        frame@ == completion_answer(
            id@,
            reply,
            answered_json(reply, "choices"@),
            answered_json(reply, "usage"@),
        ),
{
    let (choices, usage) = match &reply {
        EngineReply::Answered(body) => (
            field_json(body.as_str(), "choices"),
            field_json(body.as_str(), "usage"),
        ),
        _ => (None, None),
    };
    completion_frame_from(id, reply, choices, usage)
}

/// The error that answers a streamed request whose stream could not be
/// opened. An engine that answered has a stream, and so no such error.
pub open spec fn stream_refusal(id: Seq<char>, reply: EngineReply) -> Option<FrameModel> {
    match reply {
        EngineReply::Unreachable(why) => Some(
            FrameModel::Error { id, message: "llama-server stream failed: "@ + why@ },
        ),
        EngineReply::Refused { status, body } => Some(
            FrameModel::Error {
                id,
                message: "llama-server stream error "@ + status@ + ": "@ + clipped(
                    body@,
                    ENGINE_TEXT_LIMIT as int,
                ),
            },
        ),
        EngineReply::Answered(_) => None,
    }
}

/// Builds the error that answers a streamed request whose stream could not
/// be opened.
pub fn stream_open_failure(id: &str, reply: EngineReply) -> (frame: Option<OutFrame>)
    ensures
        frame_view(frame) == stream_refusal(id@, reply),
{
    match reply {
        EngineReply::Unreachable(why) => {
            let mut message = "llama-server stream failed: ".to_owned();
            message.append(why.as_str());
            Some(OutFrame::Error { id: id.to_owned(), message })
        },
        EngineReply::Refused { status, body } => {
            let mut message = "llama-server stream error ".to_owned();
            message.append(status.as_str());
            message.append(": ");
            message.append(clip(body.as_str(), ENGINE_TEXT_LIMIT).as_str());
            Some(OutFrame::Error { id: id.to_owned(), message })
        },
        EngineReply::Answered(_) => None,
    }
}

/// Where a connection to the relay stands.
#[derive(Debug, Clone, Copy, PartialEq, Eq, Structural)]
pub enum RelayPhase {
    Connecting,
    Authenticating,
    Active,
    Closed,
    Failed,
}

/// One connection to the relay. It is made anew for every attempt and never
/// carried over from one to the next.
#[derive(Debug, Clone, Copy, PartialEq, Eq, Structural)]
pub struct RelaySession {
    pub phase: RelayPhase,
    pub authenticated: bool,
    pub ping_due_at: u64,
}

impl RelaySession {
    /// The session of an attempt that has just begun.
    pub open spec fn fresh() -> RelaySession {
        RelaySession { phase: RelayPhase::Connecting, authenticated: false, ping_due_at: 0 }
    }

    /// Only an active session is authenticated.
    pub open spec fn wf(self) -> bool {
        self.phase is Active ==> self.authenticated
    }

    /// The session after the connection was or was not opened.
    pub open spec fn connected(self, opened: bool) -> RelaySession {
        if self.phase is Connecting {
            RelaySession {
                phase: if opened {
                    RelayPhase::Authenticating
                } else {
                    RelayPhase::Failed
                },
                ..self
            }
        } else {
            self
        }
    }

    /// The session after the answer to the opening frame was judged, at
    /// the time `now`. The first keep-alive frame is due at once.
    pub open spec fn judged(self, accepted: bool, now: u64) -> RelaySession {
        if self.phase is Authenticating {
            if accepted {
                RelaySession { phase: RelayPhase::Active, authenticated: true, ping_due_at: now }
            } else {
                RelaySession { phase: RelayPhase::Failed, ..self }
            }
        } else {
            self
        }
    }

    /// The session after a step of the read loop.
    pub open spec fn stepped(self, step: StepModel) -> RelaySession {
        if self.phase is Active && step is Disconnect {
            RelaySession { phase: RelayPhase::Closed, ..self }
        } else {
            self
        }
    }

    /// A keep-alive frame is due.
    pub open spec fn ping_due(self, now: u64) -> bool {
        self.phase is Active && now >= self.ping_due_at
    }

    /// The session after the time `now` was looked at.
    pub open spec fn pinged(self, now: u64) -> RelaySession {
        if self.ping_due(now) {
            RelaySession {
                ping_due_at: if now + PING_INTERVAL_SECS > u64::MAX {
                    u64::MAX
                } else {
                    (now + PING_INTERVAL_SECS) as u64
                },
                ..self
            }
        } else {
            self
        }
    }

    /// The attempt counts as a connection that succeeded: the session was
    /// opened, however it ended afterwards.
    pub open spec fn counts_as_connected(self) -> bool {
        self.authenticated
    }

    /// The session of an attempt that has just begun.
    pub fn new() -> (session: RelaySession)
        ensures
            session == RelaySession::fresh(),
    {
        RelaySession { phase: RelayPhase::Connecting, authenticated: false, ping_due_at: 0 }
    }

    /// The connection was or was not opened.
    pub fn on_connect(&mut self, opened: bool)
        ensures
            *final(self) == old(self).connected(opened),
    {
        match self.phase {
            RelayPhase::Connecting => {
                self.phase = if opened {
                    RelayPhase::Authenticating
                } else {
                    RelayPhase::Failed
                };
            },
            _ => {},
        }
    }

    /// The answer to the opening frame was judged.
    pub fn on_auth(&mut self, accepted: bool, now: u64)
        ensures
            *final(self) == old(self).judged(accepted, now),
    {
        match self.phase {
            RelayPhase::Authenticating => {
                if accepted {
                    self.phase = RelayPhase::Active;
                    self.authenticated = true;
                    self.ping_due_at = now;
                } else {
                    self.phase = RelayPhase::Failed;
                }
            },
            _ => {},
        }
    }

    /// A step of the read loop was decided.
    pub fn on_step(&mut self, step: &RelayStep)
        ensures
            *final(self) == old(self).stepped(step@),
    {
        let leaving = match step {
            RelayStep::Disconnect => true,
            _ => false,
        };
        match self.phase {
            RelayPhase::Active => {
                if leaving {
                    self.phase = RelayPhase::Closed;
                }
            },
            _ => {},
        }
    }

    /// Whether a keep-alive frame is to be sent at the time `now`. Where it
    /// is, the next one is due `PING_INTERVAL_SECS` later.
    pub fn take_ping(&mut self, now: u64) -> (due: bool)
        ensures
            due == old(self).ping_due(now),
            *final(self) == old(self).pinged(now),
    {
        let active = match self.phase {
            RelayPhase::Active => true,
            _ => false,
        };
        if active && now >= self.ping_due_at {
            self.ping_due_at = if now > u64::MAX - PING_INTERVAL_SECS {
                u64::MAX
            } else {
                now + PING_INTERVAL_SECS
            };
            true
        } else {
            false
        }
    }

    /// Whether the attempt counts as a connection that succeeded.
    pub fn connected_once(&self) -> (yes: bool)
        ensures
            yes == self.counts_as_connected(),
    {
        self.authenticated
    }
}

/// A session becomes active only through an accepted opening frame, and no
/// transition makes a session that has ended active again.
pub proof fn lemma_session_phases(
    session: RelaySession,
    opened: bool,
    accepted: bool,
    now: u64,
    step: StepModel,
)
    requires
        session.wf(),
    ensures
        session.connected(opened).wf(),
        session.judged(accepted, now).wf(),
        session.stepped(step).wf(),
        session.pinged(now).wf(),
        session.judged(accepted, now).phase is Active ==> session.phase is Active || (
        session.phase is Authenticating && accepted),
        session.phase is Closed || session.phase is Failed ==> session.connected(opened)
            == session && session.judged(accepted, now) == session && session.stepped(step)
            == session && session.pinged(now) == session,
{
}

} // verus!
