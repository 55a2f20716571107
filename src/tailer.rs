//! The log follower of one container, as a state machine: the caller performs
//! each command it returns and reports back what happened.

use vstd::prelude::*;
use crate::model::{is_error_level, Log};
use crate::text::{json_payload, payload_of};

verus! {

/// Seconds to wait after a failed attempt to open a log stream.
pub const CONNECT_BACKOFF_SECS: u64 = 5;

/// Seconds to wait after a log stream ended or failed while being read.
pub const STREAM_BACKOFF_SECS: u64 = 2;

/// The status the log source answers with when the pod or container is gone.
pub const NOT_FOUND_STATUS: u16 = 404;

pub enum TailerState {
    Connecting,
    Streaming,
    Stopped,
}

/// A request for a container's log: following, with no earlier lines and
/// without timestamps.
pub struct LogRequest {
    pub pod: String,
    pub container: String,
    pub follow: bool,
    pub tail_lines: i64,
    pub timestamps: bool,
}

/// An error record on its way to the alert dispatcher, with the container
/// and pod it came from.
pub struct ErrorEnvelope {
    pub log: Log,
    pub container: String,
    pub pod: String,
}

/// What the caller reports after performing a command.
pub enum TailerEvent {
    /// The log stream was opened.
    StreamOpened,
    /// Opening the stream failed, with the status the log source gave, if any.
    ConnectFailed(Option<u16>),
    /// A line was read from the stream.
    LineRead(String),
    /// The payload handed out for parsing is this record.
    Parsed(Log),
    /// The payload handed out for parsing is no valid record.
    ParseFailed,
    /// The envelope was queued for the dispatcher.
    Sent,
    /// The dispatcher's channel is closed.
    ChannelClosed,
    /// The stream ended, or reading from it failed.
    StreamEnded,
    /// The wait asked for is over.
    BackoffElapsed,
}

/// What the follower asks the caller to do next.
pub enum TailerCommand {
    Connect(LogRequest),
    ReadLine,
    Parse(String),
    Forward(ErrorEnvelope),
    Wait(u64),
    Stop,
}

/// A command as a value: requests and envelopes by their contents.
pub ghost enum Reply {
    Connect(Seq<char>, Seq<char>, bool, i64, bool),
    ReadLine,
    Parse(Seq<char>),
    Forward(Log, Seq<char>, Seq<char>),
    Wait(u64),
    Stop,
}

impl View for TailerCommand {
    type V = Reply;

    open spec fn view(&self) -> Reply {
        match self {
            TailerCommand::Connect(q) => Reply::Connect(
                q.pod@,
                q.container@,
                q.follow,
                q.tail_lines,
                q.timestamps,
            ),
            TailerCommand::ReadLine => Reply::ReadLine,
            TailerCommand::Parse(p) => Reply::Parse(p@),
            TailerCommand::Forward(e) => Reply::Forward(e.log, e.container@, e.pod@),
            TailerCommand::Wait(s) => Reply::Wait(*s),
            TailerCommand::Stop => Reply::Stop,
        }
    }
}

pub open spec fn is_not_found_status(status: Option<u16>) -> bool {
    status == Some(NOT_FOUND_STATUS)
}

/// Whether a failed connect means that the pod or container no longer exists.
pub fn is_not_found(status: Option<u16>) -> (r: bool)
    ensures
        r == is_not_found_status(status),
{
    match status {
        Some(code) => code == NOT_FOUND_STATUS,
        None => false,
    }
}

/// The state after an event.
pub open spec fn next_state(s: TailerState, e: TailerEvent) -> TailerState {
    match s {
        TailerState::Stopped => TailerState::Stopped,
        TailerState::Connecting => match e {
            TailerEvent::ChannelClosed => TailerState::Stopped,
            TailerEvent::StreamOpened => TailerState::Streaming,
            TailerEvent::ConnectFailed(st) => if is_not_found_status(st) {
                TailerState::Stopped
            } else {
                TailerState::Connecting
            },
            _ => TailerState::Connecting,
        },
        TailerState::Streaming => match e {
            TailerEvent::ChannelClosed => TailerState::Stopped,
            TailerEvent::StreamEnded => TailerState::Connecting,
            _ => TailerState::Streaming,
        },
    }
}

/// The command that answers an event.
pub open spec fn reply(s: TailerState, pod: Seq<char>, container: Seq<char>, e: TailerEvent) -> Reply {
    match s {
        TailerState::Stopped => Reply::Stop,
        TailerState::Connecting => match e {
            TailerEvent::ChannelClosed => Reply::Stop,
            TailerEvent::StreamOpened => Reply::ReadLine,
            TailerEvent::ConnectFailed(st) => if is_not_found_status(st) {
                Reply::Stop
            } else {
                Reply::Wait(CONNECT_BACKOFF_SECS)
            },
            _ => Reply::Connect(pod, container, true, 0, false),
        },
        TailerState::Streaming => match e {
            TailerEvent::ChannelClosed => Reply::Stop,
            TailerEvent::StreamEnded => Reply::Wait(STREAM_BACKOFF_SECS),
            TailerEvent::LineRead(l) => match payload_of(l@) {
                Some(p) => Reply::Parse(p),
                None => Reply::ReadLine,
            },
            TailerEvent::Parsed(log) => if is_error_level(log.level@) {
                Reply::Forward(log, container, pod)
            } else {
                Reply::ReadLine
            },
            _ => Reply::ReadLine,
        },
    }
}

/// The state after a run of events.
pub open spec fn run(s: TailerState, events: Seq<TailerEvent>) -> TailerState
    decreases events.len(),
{
    if events.len() == 0 {
        s
    } else {
        next_state(run(s, events.drop_last()), events.last())
    }
}

/// A connect failure that is not "not found".
pub open spec fn transient_failure(e: TailerEvent) -> bool {
    match e {
        TailerEvent::ConnectFailed(st) => !is_not_found_status(st),
        _ => false,
    }
}

/// A "not found" answer to a connect stops the follower at once, and a
/// stopped follower stays stopped and asks for nothing but to stop, whatever
/// is reported to it afterwards.
pub proof fn lemma_not_found_stops(pod: Seq<char>, container: Seq<char>, later: Seq<TailerEvent>)
    ensures
        next_state(TailerState::Connecting, TailerEvent::ConnectFailed(Some(NOT_FOUND_STATUS)))
            == TailerState::Stopped,
        reply(TailerState::Connecting, pod, container, TailerEvent::ConnectFailed(Some(NOT_FOUND_STATUS)))
            == Reply::Stop,
        run(TailerState::Stopped, later) == TailerState::Stopped,
        forall|i: int|
            0 <= i < later.len() ==> reply(
                #[trigger] run(TailerState::Stopped, later.take(i)),
                pod,
                container,
                later[i],
            ) == Reply::Stop,
    decreases later.len(),
{
    if later.len() > 0 {
        lemma_not_found_stops(pod, container, later.drop_last());
    }
    assert forall|i: int| 0 <= i < later.len() implies reply(
        #[trigger] run(TailerState::Stopped, later.take(i)),
        pod,
        container,
        later[i],
    ) == Reply::Stop by {
        lemma_not_found_stops(pod, container, later.take(i));
    }
}

/// Any run of connect failures other than "not found", each followed or not
/// by the end of its wait, leaves the follower connecting: each failure is
/// answered by the connect backoff and each elapsed wait by a new connect.
pub proof fn lemma_retries_forever(pod: Seq<char>, container: Seq<char>, events: Seq<TailerEvent>)
    requires
        forall|i: int|
            0 <= i < events.len() ==> transient_failure(#[trigger] events[i]) || events[i]
                is BackoffElapsed,
    ensures
        run(TailerState::Connecting, events) == TailerState::Connecting,
        forall|i: int|
            0 <= i < events.len() ==> #[trigger] reply(
                run(TailerState::Connecting, events.take(i)),
                pod,
                container,
                events[i],
            ) == if events[i] is BackoffElapsed {
                Reply::Connect(pod, container, true, 0, false)
            } else {
                Reply::Wait(CONNECT_BACKOFF_SECS)
            },
    decreases events.len(),
{
    if events.len() > 0 {
        let init = events.drop_last();
        assert forall|i: int| 0 <= i < init.len() implies transient_failure(#[trigger] init[i])
            || init[i] is BackoffElapsed by {
            assert(init[i] == events[i]);
        }
        lemma_retries_forever(pod, container, init);
    }
    assert forall|i: int| 0 <= i < events.len() implies #[trigger] reply(
        run(TailerState::Connecting, events.take(i)),
        pod,
        container,
        events[i],
    ) == if events[i] is BackoffElapsed {
        Reply::Connect(pod, container, true, 0, false)
    } else {
        Reply::Wait(CONNECT_BACKOFF_SECS)
    } by {
        let pre = events.take(i);
        assert forall|j: int| 0 <= j < pre.len() implies transient_failure(#[trigger] pre[j])
            || pre[j] is BackoffElapsed by {
            assert(pre[j] == events[j]);
        }
        lemma_retries_forever(pod, container, pre);
    }
}

/// A line without a `{` is passed over: nothing is parsed or forwarded, and
/// the follower keeps reading. A payload that does not parse is passed over
/// the same way.
pub proof fn lemma_plain_line_dropped(pod: Seq<char>, container: Seq<char>, line: String)
    ensures
        payload_of(line@) is None ==> reply(
            TailerState::Streaming,
            pod,
            container,
            TailerEvent::LineRead(line),
        ) == Reply::ReadLine,
        next_state(TailerState::Streaming, TailerEvent::LineRead(line)) == TailerState::Streaming,
        reply(TailerState::Streaming, pod, container, TailerEvent::ParseFailed) == Reply::ReadLine,
        next_state(TailerState::Streaming, TailerEvent::ParseFailed) == TailerState::Streaming,
{
}

/// A parsed record is forwarded, with its container and pod, exactly when
/// its level is `ERROR`; any other record is dropped and reading goes on.
pub proof fn lemma_only_errors_forwarded(pod: Seq<char>, container: Seq<char>, log: Log)
    ensures
        is_error_level(log.level@) ==> reply(
            TailerState::Streaming,
            pod,
            container,
            TailerEvent::Parsed(log),
        ) == Reply::Forward(log, container, pod),
        !is_error_level(log.level@) ==> reply(
            TailerState::Streaming,
            pod,
            container,
            TailerEvent::Parsed(log),
        ) == Reply::ReadLine,
        next_state(TailerState::Streaming, TailerEvent::Parsed(log)) == TailerState::Streaming,
{
}

/// The follower of one container's log.
pub struct Tailer {
    pub pod: String,
    pub container: String,
    pub state: TailerState,
}

impl Tailer {
    /// A follower about to connect; its first command is `connect_request`.
    pub fn new(pod: String, container: String) -> (r: Tailer)
        ensures
            r.pod == pod,
            r.container == container,
            r.state == TailerState::Connecting,
    {
        Tailer { pod, container, state: TailerState::Connecting }
    }

    /// The request that opens this follower's log stream.
    pub fn connect_request(&self) -> (r: LogRequest)
        ensures
            r.pod@ == self.pod@,
            r.container@ == self.container@,
            r.follow,
            r.tail_lines == 0,
            !r.timestamps,
    {
        LogRequest {
            pod: self.pod.clone(),
            container: self.container.clone(),
            follow: true,
            tail_lines: 0,
            timestamps: false,
        }
    }

    /// Takes in what happened and returns what to do next.
    pub fn step(&mut self, event: TailerEvent) -> (r: TailerCommand)
        ensures
            final(self).pod == old(self).pod,
            final(self).container == old(self).container,
            final(self).state == next_state(old(self).state, event),
            r@ == reply(old(self).state, old(self).pod@, old(self).container@, event),
    {
        match self.state {
            TailerState::Stopped => TailerCommand::Stop,
            TailerState::Connecting => match event {
                TailerEvent::ChannelClosed => {
                    self.state = TailerState::Stopped;
                    TailerCommand::Stop
                },
                TailerEvent::StreamOpened => {
                    self.state = TailerState::Streaming;
                    TailerCommand::ReadLine
                },
                TailerEvent::ConnectFailed(st) => {
                    if is_not_found(st) {
                        self.state = TailerState::Stopped;
                        TailerCommand::Stop
                    } else {
                        TailerCommand::Wait(CONNECT_BACKOFF_SECS)
                    }
                },
                _ => TailerCommand::Connect(self.connect_request()),
            },
            TailerState::Streaming => match event {
                TailerEvent::ChannelClosed => {
                    self.state = TailerState::Stopped;
                    TailerCommand::Stop
                },
                TailerEvent::StreamEnded => {
                    self.state = TailerState::Connecting;
                    TailerCommand::Wait(STREAM_BACKOFF_SECS)
                },
                TailerEvent::LineRead(line) => match json_payload(line.as_str()) {
                    Some(p) => TailerCommand::Parse(p),
                    None => TailerCommand::ReadLine,
                },
                TailerEvent::Parsed(log) => {
                    if log.is_error() {
                        let envelope = ErrorEnvelope {
                            log,
                            container: self.container.clone(),
                            pod: self.pod.clone(),
                        };
                        TailerCommand::Forward(envelope)
                    } else {
                        TailerCommand::ReadLine
                    }
                },
                _ => TailerCommand::ReadLine,
            },
        }
    }
}

} // verus!
