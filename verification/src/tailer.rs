use crate::classify::{classification, classify, Category};
use crate::error::TailError;
use crate::palette::Color;
use crate::pattern::HighlightRule;
use std::string::FromUtf8Error;
use vstd::prelude::*;
use vstd::utf8::{decode_utf8, valid_utf8};

verus! {

/// The error with which `String::from_utf8` rejects bytes,
/// `std::string::FromUtf8Error`.
#[verifier::external_type_specification]
#[verifier::external_body]
pub struct ExFromUtf8Error(std::string::FromUtf8Error);

/// `String::from_utf8` succeeds exactly on well-formed UTF-8 and then holds
/// the text that the bytes encode.
pub assume_specification[ String::from_utf8 ](bytes: Vec<u8>) -> (r: Result<String, FromUtf8Error>)
    ensures
        r is Ok <==> valid_utf8(bytes@),
        r matches Ok(s) ==> s@ == decode_utf8(bytes@),
;

/// Who a line comes from and how that source is shown.
#[derive(Debug)]
pub struct SourceIdentity {
    pub pod_name: String,
    pub color: Color,
}

/// A source as the contracts speak of it.
pub struct SourceView {
    pub pod_name: Seq<char>,
    pub color: Color,
}

impl View for SourceIdentity {
    type V = SourceView;

    open spec fn view(&self) -> SourceView {
        SourceView { pod_name: self.pod_name@, color: self.color }
    }
}

impl Clone for SourceIdentity {
    fn clone(&self) -> (r: Self)
        ensures
            r == *self,
    {
        SourceIdentity { pod_name: self.pod_name.clone(), color: self.color }
    }
}

/// One classified line on its way to the terminal.
#[derive(Debug)]
pub struct RenderInstruction {
    pub source: SourceIdentity,
    pub category: Category,
    pub text: String,
}

/// An instruction as the contracts speak of it.
pub struct InstructionView {
    pub source: SourceView,
    pub category: Category,
    pub text: Seq<char>,
}

impl View for RenderInstruction {
    type V = InstructionView;

    open spec fn view(&self) -> InstructionView {
        InstructionView { source: self.source@, category: self.category, text: self.text@ }
    }
}

/// The views of a sequence of instructions, in order.
pub open spec fn views(instructions: Seq<RenderInstruction>) -> Seq<InstructionView> {
    instructions.map_values(|i: RenderInstruction| i@)
}

/// The view of an instruction that may be absent.
pub open spec fn view_of(instruction: Option<RenderInstruction>) -> Option<InstructionView> {
    match instruction {
        Some(i) => Some(i@),
        None => None,
    }
}

/// Where a tailer stands.
#[derive(Clone, Copy, Debug, PartialEq, Eq, Structural)]
pub enum TailerState {
    Connecting,
    Streaming,
    Ended,
    Failed(TailError),
}

impl TailerState {
    /// The tailer has finished, cleanly or not.
    pub open spec fn terminal(self) -> bool {
        self is Ended || self is Failed
    }

    /// How far a tailer has come: connecting, then streaming, then over.
    pub open spec fn stage(self) -> nat {
        match self {
            TailerState::Connecting => 0,
            TailerState::Streaming => 1,
            TailerState::Ended => 2,
            TailerState::Failed(_) => 2,
        }
    }

    /// Whether the tailer has finished.
    pub fn is_terminal(&self) -> (b: bool)
        ensures
            b == self.terminal(),
    {
        match self {
            TailerState::Ended => true,
            TailerState::Failed(_) => true,
            _ => false,
        }
    }
}

/// What the log stream of one pod reports.
#[derive(Debug)]
pub enum StreamEvent {
    /// The stream is open.
    Opened,
    /// The stream could not be opened.
    OpenFailed,
    /// One line, as raw bytes without its terminator.
    Line(Vec<u8>),
    /// The remote side closed the stream without an error.
    Closed,
    /// The stream broke with an I/O or protocol error.
    Broken,
}

/// A chunk of a log stream without the line terminator at its end: a line
/// feed, or a carriage return and a line feed.
pub open spec fn without_terminator(chunk: Seq<u8>) -> Seq<u8> {
    if chunk.len() > 0 && chunk.last() == 0x0a {
        let rest = chunk.drop_last();
        if rest.len() > 0 && rest.last() == 0x0d {
            rest.drop_last()
        } else {
            rest
        }
    } else {
        chunk
    }
}

/// The line that a chunk of a log stream holds, as an event.
pub fn line_event(chunk: Vec<u8>) -> (e: StreamEvent)
    ensures
        e matches StreamEvent::Line(bytes) && bytes@ == without_terminator(chunk@),
{
    let mut bytes = chunk;
    let n: usize = bytes.len();
    if n > 0 && bytes[n - 1] == 0x0a {
        bytes.pop();
        if n > 1 && bytes[n - 2] == 0x0d {
            bytes.pop();
        }
    }
    assert(bytes@ =~= without_terminator(chunk@));
    StreamEvent::Line(bytes)
}

/// The request that opens the log stream of a pod.
#[derive(Debug)]
pub struct LogRequest {
    pub namespace: String,
    pub pod_name: String,
    pub tail_lines: i64,
    pub follow: bool,
    pub pretty: bool,
}

/// What a well-formed line becomes: an instruction that carries the decoded
/// text and its category, or nothing where the line is suppressed.
pub open spec fn rendering(
    source: SourceView,
    highlight: HighlightRule,
    filter_only: bool,
    bytes: Seq<u8>,
) -> Option<InstructionView> {
    let text = decode_utf8(bytes);
    match classification(text, highlight, filter_only) {
        Some(category) => Some(InstructionView { source, category, text }),
        None => None,
    }
}

/// Follows the log of one pod: turns what its stream reports into render
/// instructions, one line at a time and in the order of arrival.
#[derive(Debug)]
pub struct Tailer {
    pub namespace: String,
    pub tail_lines: i64,
    pub source: SourceIdentity,
    pub highlight: HighlightRule,
    pub filter_only: bool,
    pub state: TailerState,
}

impl Tailer {
    /// The state after an event. `Opened` and `OpenFailed` count only while
    /// connecting; lines, the close and a break only while streaming; a
    /// finished tailer stays as it is.
    pub open spec fn next_state(self, event: StreamEvent) -> TailerState {
        match (self.state, event) {
            (TailerState::Connecting, StreamEvent::Opened) => TailerState::Streaming,
            (TailerState::Connecting, StreamEvent::OpenFailed) => TailerState::Failed(
                TailError::Connect,
            ),
            (TailerState::Streaming, StreamEvent::Line(bytes)) => if valid_utf8(bytes@) {
                TailerState::Streaming
            } else {
                TailerState::Failed(TailError::Decode)
            },
            (TailerState::Streaming, StreamEvent::Closed) => TailerState::Ended,
            (TailerState::Streaming, StreamEvent::Broken) => TailerState::Failed(
                TailError::Stream,
            ),
            _ => self.state,
        }
    }

    /// What an event sends to the renderer: the rendering of a well-formed
    /// line that arrives while streaming, and nothing otherwise.
    pub open spec fn output(self, event: StreamEvent) -> Option<InstructionView> {
        match (self.state, event) {
            (TailerState::Streaming, StreamEvent::Line(bytes)) => if valid_utf8(bytes@) {
                rendering(self.source@, self.highlight, self.filter_only, bytes@)
            } else {
                None
            },
            _ => None,
        }
    }

    /// The tailer after an event: only its state moves.
    pub open spec fn stepped(self, event: StreamEvent) -> Tailer {
        Tailer { state: self.next_state(event), ..self }
    }

    /// The tailer after a sequence of events.
    pub open spec fn after(self, events: Seq<StreamEvent>) -> Tailer
        decreases events.len(),
    {
        if events.len() == 0 {
            self
        } else {
            self.after(events.drop_last()).stepped(events.last())
        }
    }

    /// What a sequence of events sends to the renderer, in order.
    pub open spec fn emitted(self, events: Seq<StreamEvent>) -> Seq<InstructionView>
        decreases events.len(),
    {
        if events.len() == 0 {
            Seq::empty()
        } else {
            let before = self.emitted(events.drop_last());
            match self.after(events.drop_last()).output(events.last()) {
                Some(i) => before.push(i),
                None => before,
            }
        }
    }

    /// A tailer that has not yet opened its stream.
    pub fn new(
        namespace: String,
        tail_lines: i64,
        source: SourceIdentity,
        highlight: HighlightRule,
        filter_only: bool,
    ) -> (t: Tailer)
        ensures
            t == (Tailer {
                namespace,
                tail_lines,
                source,
                highlight,
                filter_only,
                state: TailerState::Connecting,
            }),
    {
        Tailer {
            namespace,
            tail_lines,
            source,
            highlight,
            filter_only,
            state: TailerState::Connecting,
        }
    }

    /// The request for this pod's log: the last `tail_lines` lines as
    /// backlog, then every new line as it comes.
    pub fn request(&self) -> (r: LogRequest)
        ensures
            r.namespace@ == self.namespace@,
            r.pod_name@ == self.source.pod_name@,
            r.tail_lines == self.tail_lines,
            r.follow,
            r.pretty,
    {
        LogRequest {
            namespace: self.namespace.clone(),
            pod_name: self.source.pod_name.clone(),
            tail_lines: self.tail_lines,
            follow: true,
            pretty: true,
        }
    }

    /// Takes one event from the stream. A line that arrives while streaming
    /// is decoded and classified; unless it is suppressed, it is handed out
    /// as an instruction. A line that is not UTF-8 fails this tailer.
    pub fn step(&mut self, event: StreamEvent) -> (out: Option<RenderInstruction>)
        ensures
            *final(self) == old(self).stepped(event),
            view_of(out) == old(self).output(event),
    {
        match self.state {
            TailerState::Connecting => {
                match event {
                    StreamEvent::Opened => {
                        self.state = TailerState::Streaming;
                    },
                    StreamEvent::OpenFailed => {
                        self.state = TailerState::Failed(TailError::Connect);
                    },
                    _ => {},
                }
                None
            },
            TailerState::Streaming => {
                match event {
                    StreamEvent::Line(bytes) => {
                        match String::from_utf8(bytes) {
                            Ok(text) => {
                                match classify(text.as_str(), &self.highlight, self.filter_only) {
                                    Some(category) => Some(
                                        RenderInstruction {
                                            source: self.source.clone(),
                                            category,
                                            text,
                                        },
                                    ),
                                    None => None,
                                }
                            },
                            Err(_) => {
                                self.state = TailerState::Failed(TailError::Decode);
                                None
                            },
                        }
                    },
                    StreamEvent::Closed => {
                        self.state = TailerState::Ended;
                        None
                    },
                    StreamEvent::Broken => {
                        self.state = TailerState::Failed(TailError::Stream);
                        None
                    },
                    _ => None,
                }
            },
            _ => None,
        }
    }

    /// Takes a run of events in order and hands out what they send to the
    /// renderer, in that order.
    pub fn feed(&mut self, events: Vec<StreamEvent>) -> (out: Vec<RenderInstruction>)
        ensures
            *final(self) == old(self).after(events@),
            views(out@) == old(self).emitted(events@),
    {
        let ghost start = *self;
        let ghost all = events@;
        let mut out: Vec<RenderInstruction> = Vec::new();
        for event in it: events
            invariant
                it.seq() == all,
                *self == start.after(all.take(it.index())),
                views(out@) == start.emitted(all.take(it.index())),
        {
            proof {
                let k = it.index();
                assert(all.take(k + 1).drop_last() =~= all.take(k));
                assert(all.take(k + 1).last() == all[k]);
            }
            let ghost before = out@;
            match self.step(event) {
                Some(instruction) => {
                    out.push(instruction);
                    assert(views(out@) =~= views(before).push(instruction@));
                },
                None => {},
            }
        }
        assert(all.take(all.len() as int) =~= all);
        out
    }
}

impl StreamEvent {
    /// The event is a line of well-formed UTF-8.
    pub open spec fn well_formed_line(self) -> bool {
        match self {
            StreamEvent::Line(bytes) => valid_utf8(bytes@),
            _ => false,
        }
    }

    /// The text of a well-formed line.
    pub open spec fn text(self) -> Seq<char> {
        match self {
            StreamEvent::Line(bytes) => decode_utf8(bytes@),
            _ => Seq::empty(),
        }
    }
}

/// Events change nothing of a tailer but its state.
pub proof fn lemma_settings_are_fixed(t: Tailer, events: Seq<StreamEvent>)
    ensures
        t.after(events) == (Tailer { state: t.after(events).state, ..t }),
    decreases events.len(),
{
    if events.len() > 0 {
        lemma_settings_are_fixed(t, events.drop_last());
    }
}

/// Within one source the order of arrival is the order of display. While a
/// tailer streams, a run of well-formed lines sends to the renderer the
/// rendering of each line that is not suppressed, in the order in which the
/// lines came, and the tailer goes on streaming.
pub proof fn lemma_lines_keep_their_order(t: Tailer, events: Seq<StreamEvent>)
    requires
        t.state is Streaming,
        forall|i: int| 0 <= i < events.len() ==> (#[trigger] events[i]).well_formed_line(),
    ensures
        t.after(events).state is Streaming,
        t.emitted(events) == events.filter_map(|e: StreamEvent| t.output(e)),
    decreases events.len(),
{
    let f = |e: StreamEvent| t.output(e);
    if events.len() > 0 {
        let rest = events.drop_last();
        lemma_lines_keep_their_order(t, rest);
        lemma_settings_are_fixed(t, rest);
        assert(events.last() == events[events.len() - 1]);
        assert(t.after(rest).output(events.last()) == f(events.last()));
        match f(events.last()) {
            Some(i) => {
                assert(rest.filter_map(f).push(i) =~= rest.filter_map(f) + seq![i]);
            },
            None => {},
        }
    }
}

/// Outside filter-only mode no line is dropped and none is doubled: a run
/// of well-formed lines yields exactly one instruction for each line, at the
/// line's own place, with the line's text, the tailer's source and the
/// category that the classifier gives the text.
pub proof fn lemma_every_line_is_rendered_once(t: Tailer, events: Seq<StreamEvent>)
    requires
        t.state is Streaming,
        !t.filter_only,
        forall|i: int| 0 <= i < events.len() ==> (#[trigger] events[i]).well_formed_line(),
    ensures
        t.emitted(events).len() == events.len(),
        forall|i: int|
            0 <= i < events.len() ==> {
                &&& (#[trigger] t.emitted(events)[i]).text == events[i].text()
                &&& t.emitted(events)[i].source == t.source@
                &&& Some(t.emitted(events)[i].category) == classification(
                    events[i].text(),
                    t.highlight,
                    false,
                )
            },
    decreases events.len(),
{
    if events.len() > 0 {
        let rest = events.drop_last();
        lemma_every_line_is_rendered_once(t, rest);
        lemma_lines_keep_their_order(t, rest);
        lemma_settings_are_fixed(t, rest);
        assert(events.last() == events[events.len() - 1]);
        assert(events.last().well_formed_line());
        assert(forall|i: int| 0 <= i < rest.len() ==> rest[i] == events[i]);
    }
}

/// A tailer only moves forward: from connecting to streaming, from either
/// to its end, and never back.
pub proof fn lemma_tailer_only_advances(t: Tailer, events: Seq<StreamEvent>)
    ensures
        t.state.stage() <= t.after(events).state.stage(),
    decreases events.len(),
{
    if events.len() > 0 {
        lemma_tailer_only_advances(t, events.drop_last());
    }
}

/// A tailer that has ended or failed takes no notice of further events and
/// sends nothing more.
pub proof fn lemma_finished_tailer_is_silent(t: Tailer, events: Seq<StreamEvent>)
    requires
        t.state.terminal(),
    ensures
        t.after(events) == t,
        t.emitted(events) == Seq::<InstructionView>::empty(),
    decreases events.len(),
{
    if events.len() > 0 {
        lemma_finished_tailer_is_silent(t, events.drop_last());
    }
}

/// A run of events may be taken in two parts: the second part meets the
/// tailer as the first part left it, and what is sent is what the first
/// part sends followed by what the second sends.
pub proof fn lemma_events_in_two_parts(t: Tailer, first: Seq<StreamEvent>, second: Seq<StreamEvent>)
    ensures
        t.after(first + second) == t.after(first).after(second),
        t.emitted(first + second) == t.emitted(first) + t.after(first).emitted(second),
    decreases second.len(),
{
    if second.len() == 0 {
        assert(first + second =~= first);
        assert(t.emitted(first) + Seq::<InstructionView>::empty() =~= t.emitted(first));
    } else {
        let all = first + second;
        assert(all.drop_last() =~= first + second.drop_last());
        assert(all.last() == second.last());
        lemma_events_in_two_parts(t, first, second.drop_last());
        let mid = t.after(first);
        match mid.after(second.drop_last()).output(second.last()) {
            Some(i) => {
                assert((t.emitted(first) + mid.emitted(second.drop_last())).push(i) =~= t.emitted(
                    first,
                ) + mid.emitted(second.drop_last()).push(i));
            },
            None => {},
        }
    }
}

} // verus!
