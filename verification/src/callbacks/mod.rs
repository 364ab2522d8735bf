//! The dispatcher of the control connection.
//!
//! The caller owns the transport. It reads one item at a time, decodes the
//! envelope of a text frame, and hands the outcome over as an [`Inbound`].
//! [`dispatch`] answers with what the read loop does next: stop, or go on
//! after starting at most one detached task. Nothing here waits for a task,
//! so the answer for one item never depends on how an earlier task is doing.

use vstd::prelude::*;
use crate::config::ConnectionConfig;
use crate::text::same_text;

pub mod command;
pub mod ping;
pub mod pty;

verus! {

/// The kind of a control message, taken from its `message` field.
#[derive(Clone, Copy, Debug, PartialEq, Eq, Structural)]
pub enum ControlKind {
    Exec,
    Ping,
    Terminal,
    Unknown,
}

/// The kind that a `message` field stands for: the three known words, spelled
/// exactly, and `Unknown` for every other text.
pub open spec fn kind_of(message: Seq<char>) -> ControlKind {
    if message == "exec"@ {
        ControlKind::Exec
    } else if message == "ping"@ {
        ControlKind::Ping
    } else if message == "terminal"@ {
        ControlKind::Terminal
    } else {
        ControlKind::Unknown
    }
}

impl ControlKind {
    /// Reads the kind off a `message` field.
    pub fn classify(message: &str) -> (kind: ControlKind)
        ensures
            kind == kind_of(message@),
    {
        if same_text(message, "exec") {
            ControlKind::Exec
        } else if same_text(message, "ping") {
            ControlKind::Ping
        } else if same_text(message, "terminal") {
            ControlKind::Terminal
        } else {
            ControlKind::Unknown
        }
    }
}

/// The part of a control message that the dispatcher reads. The other fields
/// belong to the task that the message starts, which decodes the raw text
/// again for itself.
#[derive(Clone, Debug, PartialEq, Eq)]
pub struct Envelope {
    pub message: String,
}

/// One item that the read loop got from the control transport.
#[derive(Clone, Debug, PartialEq, Eq)]
pub enum Inbound {
    /// A text frame: its text, and the envelope if the text decodes as one.
    Text { raw: String, envelope: Option<Envelope> },
    /// A frame of any other type.
    Other,
    /// The transport reported an error.
    ReadError,
    /// The peer closed the stream.
    End,
}

/// What the dispatcher asks for after one frame.
#[derive(Clone, Debug, PartialEq, Eq)]
pub enum Dispatch {
    /// Nothing: the frame is dropped without a trace.
    Skip,
    /// Nothing but a log line: the message needs the terminal feature, which
    /// is switched off.
    Disabled,
    /// Start a detached task that runs the command and posts its result.
    Exec { raw: String, callback_url: String, ignore_unsafe_cert: bool },
    /// Start a detached task that probes the target and replies on the
    /// control transport.
    Ping { raw: String },
    /// Start a detached task that bridges a terminal session.
    Terminal {
        raw: String,
        ws_terminal_url: String,
        tls: bool,
        ignore_unsafe_cert: bool,
        terminal_entry: String,
    },
}

/// The mathematical value of a [`Dispatch`]: texts as sequences of characters.
pub enum DispatchView {
    Skip,
    Disabled,
    Exec { raw: Seq<char>, callback_url: Seq<char>, ignore_unsafe_cert: bool },
    Ping { raw: Seq<char> },
    Terminal {
        raw: Seq<char>,
        ws_terminal_url: Seq<char>,
        tls: bool,
        ignore_unsafe_cert: bool,
        terminal_entry: Seq<char>,
    },
}

impl DispatchView {
    /// Whether a detached task is started.
    pub open spec fn spawns_task(self) -> bool {
        self is Exec || self is Ping || self is Terminal
    }
}

impl View for Dispatch {
    type V = DispatchView;

    open spec fn view(&self) -> DispatchView {
        match self {
            Dispatch::Skip => DispatchView::Skip,
            Dispatch::Disabled => DispatchView::Disabled,
            Dispatch::Exec { raw, callback_url, ignore_unsafe_cert } => DispatchView::Exec {
                raw: raw@,
                callback_url: callback_url@,
                ignore_unsafe_cert: *ignore_unsafe_cert,
            },
            Dispatch::Ping { raw } => DispatchView::Ping { raw: raw@ },
            Dispatch::Terminal {
                raw,
                ws_terminal_url,
                tls,
                ignore_unsafe_cert,
                terminal_entry,
            } => DispatchView::Terminal {
                raw: raw@,
                ws_terminal_url: ws_terminal_url@,
                tls: *tls,
                ignore_unsafe_cert: *ignore_unsafe_cert,
                terminal_entry: terminal_entry@,
            },
        }
    }
}

/// What one text frame leads to, given its text and the `message` field of
/// its envelope (`None` where the text is no envelope).
pub open spec fn route_of(
    config: ConnectionConfig,
    raw: Seq<char>,
    message: Option<Seq<char>>,
) -> DispatchView {
    match message {
        None => DispatchView::Skip,
        Some(word) => match kind_of(word) {
            ControlKind::Exec => if config.terminal {
                DispatchView::Exec {
                    raw,
                    callback_url: config.exec_callback@,
                    ignore_unsafe_cert: config.ignore_unsafe_cert,
                }
            } else {
                DispatchView::Disabled
            },
            ControlKind::Ping => DispatchView::Ping { raw },
            ControlKind::Terminal => if config.terminal {
                DispatchView::Terminal {
                    raw,
                    ws_terminal_url: config.ws_terminal@,
                    tls: config.tls,
                    ignore_unsafe_cert: config.ignore_unsafe_cert,
                    terminal_entry: config.terminal_entry@,
                }
            } else {
                DispatchView::Disabled
            },
            ControlKind::Unknown => DispatchView::Skip,
        },
    }
}

/// The `message` field of an envelope that may be missing.
pub open spec fn message_of(envelope: Option<Envelope>) -> Option<Seq<char>> {
    match envelope {
        Some(e) => Some(e.message@),
        None => None,
    }
}

/// Routes one text frame. `envelope` is what decoding `raw` gave. A task
/// gets its own copy of the text.
pub fn route(config: &ConnectionConfig, raw: &str, envelope: &Option<Envelope>) -> (d: Dispatch)
    ensures
        d@ == route_of(*config, raw@, message_of(*envelope)),
{
    match envelope {
        None => Dispatch::Skip,
        Some(e) => match ControlKind::classify(e.message.as_str()) {
            ControlKind::Exec => {
                if config.terminal {
                    Dispatch::Exec {
                        raw: String::from_str(raw),
                        callback_url: config.exec_callback.clone(),
                        ignore_unsafe_cert: config.ignore_unsafe_cert,
                    }
                } else {
                    Dispatch::Disabled
                }
            },
            ControlKind::Ping => Dispatch::Ping { raw: String::from_str(raw) },
            ControlKind::Terminal => {
                if config.terminal {
                    Dispatch::Terminal {
                        raw: String::from_str(raw),
                        ws_terminal_url: config.ws_terminal.clone(),
                        tls: config.tls,
                        ignore_unsafe_cert: config.ignore_unsafe_cert,
                        terminal_entry: config.terminal_entry.clone(),
                    }
                } else {
                    Dispatch::Disabled
                }
            },
            ControlKind::Unknown => Dispatch::Skip,
        },
    }
}

/// Whether the read loop ends on this item: the stream is over, or the
/// transport failed, which is final as well.
pub open spec fn ends_stream(inbound: Inbound) -> bool {
    inbound is ReadError || inbound is End
}

/// What a frame leads to. Only a text frame can lead to anything.
pub open spec fn dispatch_of(config: ConnectionConfig, inbound: Inbound) -> DispatchView {
    match inbound {
        Inbound::Text { raw, envelope } => route_of(config, raw@, message_of(envelope)),
        _ => DispatchView::Skip,
    }
}

/// What the read loop does after one item.
#[derive(Clone, Debug, PartialEq, Eq)]
pub enum Step {
    /// Leave the loop; the caller decides whether to connect again.
    Stop,
    /// Do as the dispatch says, without waiting for it, and read on.
    Next(Dispatch),
}

/// The mathematical value of a [`Step`].
pub enum StepView {
    Stop,
    Next(DispatchView),
}

impl View for Step {
    type V = StepView;

    open spec fn view(&self) -> StepView {
        match self {
            Step::Stop => StepView::Stop,
            Step::Next(d) => StepView::Next(d@),
        }
    }
}

/// The step that an item leads to.
pub open spec fn step_of(config: ConnectionConfig, inbound: Inbound) -> StepView {
    if ends_stream(inbound) {
        StepView::Stop
    } else {
        StepView::Next(dispatch_of(config, inbound))
    }
}

/// One turn of the read loop: decides on one item.
pub fn dispatch(config: &ConnectionConfig, inbound: &Inbound) -> (step: Step)
    ensures
        step@ == step_of(*config, *inbound),
{
    match inbound {
        Inbound::Text { raw, envelope } => Step::Next(route(config, raw.as_str(), envelope)),
        Inbound::Other => Step::Next(Dispatch::Skip),
        Inbound::ReadError => Step::Stop,
        Inbound::End => Step::Stop,
    }
}

/// Whether the read loop serves exactly the first `n` items of `stream`:
/// none of them ends the stream, and the one after them, if there is one,
/// does.
pub open spec fn serves(stream: Seq<Inbound>, n: int) -> bool {
    &&& 0 <= n <= stream.len()
    &&& forall|i: int| 0 <= i < n ==> !ends_stream(#[trigger] stream[i])
    &&& n < stream.len() ==> ends_stream(stream[n])
}

/// Runs the read loop over what the transport delivered, in order, and
/// returns what each served item led to. The loop goes on after every frame,
/// whatever it led to, and ends on the first item that ends the stream.
pub fn handle_callbacks(config: &ConnectionConfig, stream: &Vec<Inbound>) -> (served: Vec<
    Dispatch,
>)
    ensures
        serves(stream@, served@.len() as int),
        forall|i: int|
            0 <= i < served@.len() ==> (#[trigger] served@[i])@ == dispatch_of(
                *config,
                stream@[i],
            ),
{
    let mut served: Vec<Dispatch> = Vec::new();
    let mut i: usize = 0;
    while i < stream.len()
        invariant
            i == served@.len(),
            i <= stream@.len(),
            forall|k: int| 0 <= k < i ==> !ends_stream(#[trigger] stream@[k]),
            forall|k: int|
                0 <= k < i ==> (#[trigger] served@[k])@ == dispatch_of(*config, stream@[k]),
        decreases stream@.len() - i,
    {
        match dispatch(config, &stream[i]) {
            Step::Stop => {
                return served;
            },
            Step::Next(d) => {
                served.push(d);
            },
        }
        i = i + 1;
    }
    served
}

/// A frame that is no envelope is dropped, and the loop reads on: no task,
/// no reply, no stop. This holds of a frame that is not text and of a text
/// frame that does not decode.
pub proof fn undecodable_frame_is_dropped(config: ConnectionConfig, inbound: Inbound)
    requires
        inbound is Other || (inbound matches Inbound::Text { envelope, .. } && envelope is None),
    ensures
        step_of(config, inbound) == StepView::Next(DispatchView::Skip),
        !dispatch_of(config, inbound).spawns_task(),
{
}

/// A message whose kind is none of `exec`, `ping` and `terminal` starts no
/// task, whatever else it holds and however the connection is set up.
pub proof fn unknown_kind_spawns_nothing(
    config: ConnectionConfig,
    raw: Seq<char>,
    message: Seq<char>,
)
    requires
        message != "exec"@,
        message != "ping"@,
        message != "terminal"@,
    ensures
        !route_of(config, raw, Some(message)).spawns_task(),
        route_of(config, raw, Some(message)) == DispatchView::Skip,
{
}

/// With the terminal feature switched off, no item leads to a command being
/// run or to a terminal transport being opened.
pub proof fn disabled_feature_runs_nothing(config: ConnectionConfig, inbound: Inbound)
    requires
        !config.terminal,
    ensures
        !(dispatch_of(config, inbound) is Exec),
        !(dispatch_of(config, inbound) is Terminal),
        !(step_of(config, inbound) matches StepView::Next(d) && (d is Exec || d is Terminal)),
{
}

/// A task is started for a text frame whose envelope names a known kind, and
/// for no other item; a command or a terminal session also needs the
/// terminal feature.
pub proof fn task_starts_exactly_when(config: ConnectionConfig, inbound: Inbound)
    ensures
        dispatch_of(config, inbound).spawns_task() <==> (inbound matches Inbound::Text {
            envelope: Some(e),
            ..
        } && (kind_of(e.message@) == ControlKind::Ping || (config.terminal && kind_of(e.message@)
            != ControlKind::Unknown))),
{
}

/// The read loop never waits: if an item is served and the next one does not
/// end the stream, the next one is served too, whatever the first led to.
pub proof fn next_item_is_served(stream: Seq<Inbound>, n: int, i: int)
    requires
        serves(stream, n),
        0 <= i < n,
        i + 1 < stream.len(),
        !ends_stream(stream[i + 1]),
    ensures
        i + 1 < n,
{
}

/// The read loop serves one prefix of the stream and no other.
pub proof fn served_prefix_is_unique(stream: Seq<Inbound>, n: int, m: int)
    requires
        serves(stream, n),
        serves(stream, m),
    ensures
        n == m,
{
}

} // verus!
