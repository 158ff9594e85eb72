use vstd::prelude::*;
use vstd::slice::slice_to_vec;
use vstd::utf8::{decode_utf8, encode_utf8, valid_utf8};

verus! {

/// A message received from the connection.
pub enum Message {
    Text(String),
    Close,
    Other,
}

/// What one read of the engine's output stream gave.
pub enum OutputEvent {
    /// The bytes read; none at all means the engine closed its output.
    Read(Vec<u8>),
    /// The read failed.
    ReadFailed,
}

/// What the process-to-connection pump does after one read.
pub enum OutputAction {
    /// Send this text as one text message on the connection.
    Send(String),
    /// Nothing to forward; read again.
    Continue,
    /// The engine closed its output: this direction is over.
    Closed,
    /// The bytes were not valid text: the session cannot go on.
    Corrupt,
}

/// What one receive on the connection gave.
pub enum InputEvent {
    Received(Message),
    /// The receive failed.
    ReceiveFailed,
    /// The connection yields no more messages.
    Ended,
}

/// What the connection-to-process pump does after one receive.
pub enum InputAction {
    /// Write these bytes to the engine's input stream and flush them.
    Write(Vec<u8>),
    /// Nothing to write; receive again.
    Ignore,
    /// The client closed the connection: this direction is over.
    Closed,
    /// The connection broke: this direction is over.
    Faulted,
}

/// The decision of a pump, as the contracts speak of it.
pub enum Step {
    SendText(Seq<char>),
    WriteBytes(Seq<u8>),
    Proceed,
    Stop,
}

impl Step {
    /// Whether this decision ends its direction, and so the session.
    pub open spec fn is_terminal(self) -> bool {
        self is Stop
    }
}

impl OutputAction {
    pub open spec fn step(self) -> Step {
        match self {
            OutputAction::Send(s) => Step::SendText(s@),
            OutputAction::Continue => Step::Proceed,
            OutputAction::Closed => Step::Stop,
            OutputAction::Corrupt => Step::Stop,
        }
    }

    /// Whether the pump stops after this action.
    pub fn is_terminal(&self) -> (r: bool)
        ensures
            r == self.step().is_terminal(),
    {
        match self {
            OutputAction::Closed | OutputAction::Corrupt => true,
            _ => false,
        }
    }
}

impl InputAction {
    pub open spec fn step(self) -> Step {
        match self {
            InputAction::Write(b) => Step::WriteBytes(b@),
            InputAction::Ignore => Step::Proceed,
            InputAction::Closed => Step::Stop,
            InputAction::Faulted => Step::Stop,
        }
    }

    /// Whether the pump stops after this action.
    pub fn is_terminal(&self) -> (r: bool)
        ensures
            r == self.step().is_terminal(),
    {
        match self {
            InputAction::Closed | InputAction::Faulted => true,
            _ => false,
        }
    }
}

/// The rule of the process-to-connection direction: a read of no bytes ends
/// it, valid text is sent whole as one message, invalid text is fatal, and a
/// failed read is passed over.
pub open spec fn output_step(e: OutputEvent) -> Step {
    match e {
        OutputEvent::Read(b) => if b@.len() == 0 {
            Step::Stop
        } else if valid_utf8(b@) {
            Step::SendText(decode_utf8(b@))
        } else {
            Step::Stop
        },
        OutputEvent::ReadFailed => Step::Proceed,
    }
}

/// The rule of the connection-to-process direction: a text is written as its
/// UTF-8 bytes, a close or a broken connection ends it, anything else is
/// passed over.
pub open spec fn input_step(e: InputEvent) -> Step {
    match e {
        InputEvent::Received(Message::Text(s)) => Step::WriteBytes(encode_utf8(s@)),
        InputEvent::Received(Message::Close) => Step::Stop,
        InputEvent::Received(Message::Other) => Step::Proceed,
        InputEvent::ReceiveFailed => Step::Stop,
        InputEvent::Ended => Step::Stop,
    }
}

/// Relies on `String::from_utf8`: it succeeds exactly on valid UTF-8, and the
/// text is what the bytes encode.
#[verifier::external_body]
fn decode_text(bytes: Vec<u8>) -> (r: Option<String>)
    ensures
        r is Some <==> valid_utf8(bytes@),
        r matches Some(s) ==> s@ == decode_utf8(bytes@),
{
    String::from_utf8(bytes).ok()
}

/// Decides what to do with one read of the engine's output.
pub fn on_output(event: OutputEvent) -> (r: OutputAction)
    ensures
        r.step() == output_step(event),
        event matches OutputEvent::Read(b) && b@.len() == 0 ==> r is Closed,
        event matches OutputEvent::Read(b) && b@.len() != 0 && !valid_utf8(b@) ==> r is Corrupt,
{
    match event {
        OutputEvent::Read(bytes) => {
            if bytes.len() == 0 {
                OutputAction::Closed
            } else {
                match decode_text(bytes) {
                    Some(text) => OutputAction::Send(text),
                    None => OutputAction::Corrupt,
                }
            }
        },
        OutputEvent::ReadFailed => OutputAction::Continue,
    }
}

/// Decides what to do with one receive on the connection.
pub fn on_input(event: InputEvent) -> (r: InputAction)
    ensures
        r.step() == input_step(event),
        event is ReceiveFailed || event is Ended ==> r is Faulted,
        event matches InputEvent::Received(m) && m is Close ==> r is Closed,
{
    match event {
        InputEvent::Received(Message::Text(line)) => {
            InputAction::Write(slice_to_vec(line.as_str().as_bytes()))
        },
        InputEvent::Received(Message::Close) => InputAction::Closed,
        InputEvent::Received(Message::Other) => InputAction::Ignore,
        InputEvent::ReceiveFailed => InputAction::Faulted,
        InputEvent::Ended => InputAction::Faulted,
    }
}

/// One event of a session, from either direction, in the order in which the
/// session sees them.
pub enum SessionEvent {
    FromProcess(OutputEvent),
    FromConnection(InputEvent),
}

/// The decision that the event's own direction takes on it.
pub open spec fn event_step(e: SessionEvent) -> Step {
    match e {
        SessionEvent::FromProcess(o) => output_step(o),
        SessionEvent::FromConnection(i) => input_step(i),
    }
}

/// How many events of `trace` the session handles: it ends with the first
/// event on which either direction stops, and leaves the rest unhandled.
pub open spec fn handled(trace: Seq<SessionEvent>) -> nat
    decreases trace.len(),
{
    if trace.len() == 0 {
        0
    } else if event_step(trace[0]).is_terminal() {
        1
    } else {
        1 + handled(trace.drop_first())
    }
}

/// The texts that the session sends on the connection, in order.
pub open spec fn sent(trace: Seq<SessionEvent>) -> Seq<Seq<char>>
    decreases trace.len(),
{
    if trace.len() == 0 {
        seq![]
    } else if event_step(trace[0]).is_terminal() {
        seq![]
    } else {
        let here = match event_step(trace[0]) {
            Step::SendText(t) => seq![t],
            _ => seq![],
        };
        here + sent(trace.drop_first())
    }
}

/// The byte runs that the session writes, each flushed, to the engine's
/// input, in order.
pub open spec fn written(trace: Seq<SessionEvent>) -> Seq<Seq<u8>>
    decreases trace.len(),
{
    if trace.len() == 0 {
        seq![]
    } else if event_step(trace[0]).is_terminal() {
        seq![]
    } else {
        let here = match event_step(trace[0]) {
            Step::WriteBytes(b) => seq![b],
            _ => seq![],
        };
        here + written(trace.drop_first())
    }
}

/// The session ends at the first event on which either direction stops,
/// whatever the other direction would still deliver.
pub proof fn lemma_first_stop_ends_session(trace: Seq<SessionEvent>, i: int)
    requires
        0 <= i < trace.len(),
        event_step(trace[i]).is_terminal(),
        forall|j: int| 0 <= j < i ==> !event_step(#[trigger] trace[j]).is_terminal(),
    ensures
        handled(trace) == i + 1,
        sent(trace) == sent(trace.take(i + 1)),
        written(trace) == written(trace.take(i + 1)),
    decreases i,
{
    let head = trace.take(i + 1);
    assert(head[0] == trace[0]);
    if i > 0 {
        let rest = trace.drop_first();
        assert forall|j: int| 0 <= j < i - 1 implies !event_step(#[trigger] rest[j]).is_terminal() by {
            assert(rest[j] == trace[j + 1]);
        }
        assert(rest[i - 1] == trace[i]);
        lemma_first_stop_ends_session(rest, i - 1);
        assert(head.drop_first() =~= rest.take(i));
    }
}

/// A close from the client ends the session at once, though the engine's
/// output has not ended: nothing the engine prints afterwards is sent.
pub proof fn lemma_close_ends_session(trace: Seq<SessionEvent>, i: int)
    requires
        0 <= i < trace.len(),
        trace[i] == SessionEvent::FromConnection(InputEvent::Received(Message::Close)),
        forall|j: int| 0 <= j < i ==> !event_step(#[trigger] trace[j]).is_terminal(),
    ensures
        handled(trace) == i + 1,
        sent(trace) == sent(trace.take(i + 1)),
        written(trace) == written(trace.take(i + 1)),
{
    lemma_first_stop_ends_session(trace, i);
}

/// The end of the engine's output ends the session at once, with no close
/// from the client: nothing the client sends afterwards is written.
pub proof fn lemma_output_end_ends_session(trace: Seq<SessionEvent>, i: int, b: Vec<u8>)
    requires
        0 <= i < trace.len(),
        b@.len() == 0,
        trace[i] == SessionEvent::FromProcess(OutputEvent::Read(b)),
        forall|j: int| 0 <= j < i ==> !event_step(#[trigger] trace[j]).is_terminal(),
    ensures
        handled(trace) == i + 1,
        sent(trace) == sent(trace.take(i + 1)),
        written(trace) == written(trace.take(i + 1)),
{
    lemma_first_stop_ends_session(trace, i);
}

/// A message that is neither text nor close, received while the session
/// runs, neither ends it nor writes anything to the engine.
pub proof fn lemma_other_message_ignored(pre: Seq<SessionEvent>, post: Seq<SessionEvent>)
    requires
        forall|j: int| 0 <= j < pre.len() ==> !event_step(#[trigger] pre[j]).is_terminal(),
    ensures
        ({
            let other = SessionEvent::FromConnection(InputEvent::Received(Message::Other));
            let with = pre + seq![other] + post;
            &&& handled(with) == handled(pre + post) + 1
            &&& written(with) == written(pre + post)
            &&& sent(with) == sent(pre + post)
        }),
    decreases pre.len(),
{
    let other = SessionEvent::FromConnection(InputEvent::Received(Message::Other));
    let with = pre + seq![other] + post;
    if pre.len() == 0 {
        assert(with.drop_first() =~= pre + post);
        assert(with[0] == other);
    } else {
        let rest = pre.drop_first();
        assert forall|j: int| 0 <= j < rest.len() implies !event_step(#[trigger] rest[j]).is_terminal() by {
            assert(rest[j] == pre[j + 1]);
        }
        lemma_other_message_ignored(rest, post);
        assert(with.drop_first() =~= rest + seq![other] + post);
        assert((pre + post).drop_first() =~= rest + post);
        assert(with[0] == pre[0]);
        assert((pre + post)[0] == pre[0]);
    }
}

/// A read of the engine's output goes out as exactly one text message with
/// the same text, and a text from the client is written as exactly its
/// bytes, in the order in which they came.
pub proof fn lemma_forwarding_keeps_messages_whole(out: Vec<u8>, text: String, line: String)
    requires
        out@ == encode_utf8(text@),
        text@.len() > 0,
    ensures
        ({
            let trace = seq![
                SessionEvent::FromProcess(OutputEvent::Read(out)),
                SessionEvent::FromConnection(InputEvent::Received(Message::Text(line))),
            ];
            &&& handled(trace) == 2
            &&& sent(trace) == seq![text@]
            &&& written(trace) == seq![encode_utf8(line@)]
        }),
{
    let trace = seq![
        SessionEvent::FromProcess(OutputEvent::Read(out)),
        SessionEvent::FromConnection(InputEvent::Received(Message::Text(line))),
    ];
    vstd::utf8::encode_utf8_valid_utf8(text@);
    vstd::utf8::encode_utf8_decode_utf8(text@);
    vstd::utf8::encode_utf8_first_scalar(text@);
    assert(encode_utf8(text@).len() > 0) by {
        assert(encode_utf8(text@) == vstd::utf8::encode_scalar(text@[0] as u32) + encode_utf8(
            text@.drop_first(),
        ));
        assert(vstd::utf8::encode_scalar(text@[0] as u32).len() > 0);
    }
    assert(event_step(trace[0]) == Step::SendText(text@));
    assert(event_step(trace[1]) == Step::WriteBytes(encode_utf8(line@)));
    let tail = trace.drop_first();
    assert(tail.drop_first() =~= Seq::<SessionEvent>::empty());
    assert(tail[0] == trace[1]);
    assert(tail.len() == 1);
    assert(sent(tail.drop_first()) =~= Seq::<Seq<char>>::empty());
    assert(written(tail.drop_first()) =~= Seq::<Seq<u8>>::empty());
    assert(sent(tail) =~= Seq::<Seq<char>>::empty());
    assert(written(tail) =~= seq![encode_utf8(line@)]);
    assert(handled(tail.drop_first()) == 0);
    assert(handled(tail) == 1);
    assert(sent(trace) =~= seq![text@]);
    assert(written(trace) =~= seq![encode_utf8(line@)]);
}

} // verus!
