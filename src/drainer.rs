//! Forwarding of the worker's output events to the diagnostic sinks.
use vstd::prelude::*;
use crate::decimal::{append_signed, signed_digits};
use crate::diagnostic::{lines_of, tagged, Diagnostic, Stream};

verus! {

/// One event read from the worker's output channel.
#[derive(Debug)]
pub enum OutputEvent {
    /// A line the worker wrote to its standard output.
    Stdout(Vec<u8>),
    /// A line the worker wrote to its standard error.
    Stderr(Vec<u8>),
    /// A failure of the spawn or of the channel itself.
    Error(String),
    /// The worker exited, with its exit code where it had one.
    Terminated(Option<i32>),
    /// Anything else the channel may carry; it is ignored.
    Other,
}

/// The text that `String::from_utf8_lossy` makes of these bytes.
pub uninterp spec fn lossy_text(bytes: Seq<u8>) -> Seq<char>;

/// Relies on `String::from_utf8_lossy`: it decodes the bytes, putting U+FFFD
/// for each invalid sequence, never fails, and keeps an empty input empty.
#[verifier::external_body]
fn decode_lossy(bytes: &Vec<u8>) -> (r: String)
    ensures
        r@ == lossy_text(bytes@),
        bytes@.len() == 0 ==> r@.len() == 0,
{
    String::from_utf8_lossy(bytes.as_slice()).into_owned()
}

pub open spec fn backend_tag() -> Seq<char> {
    "[Backend] "@
}

pub open spec fn backend_error_tag() -> Seq<char> {
    "[Backend Error] "@
}

pub open spec fn terminated_tag() -> Seq<char> {
    "[Backend] Terminated with code: "@
}

/// How an optional exit code is shown: `Some(<code>)` or `None`.
pub open spec fn code_text(code: Option<i32>) -> Seq<char> {
    match code {
        Some(c) => "Some("@ + signed_digits(c as int) + ")"@,
        None => "None"@,
    }
}

/// The line that reports the worker's exit.
pub open spec fn terminated_line(code: Option<i32>) -> (Stream, Seq<char>) {
    (Stream::Normal, terminated_tag() + code_text(code))
}

/// The diagnostic line an event gives, if any.
pub open spec fn event_line(e: OutputEvent) -> Option<(Stream, Seq<char>)> {
    match e {
        OutputEvent::Stdout(b) => Some((Stream::Normal, backend_tag() + lossy_text(b@))),
        OutputEvent::Stderr(b) => Some((Stream::Error, backend_tag() + lossy_text(b@))),
        OutputEvent::Error(m) => Some((Stream::Error, backend_error_tag() + m@)),
        OutputEvent::Terminated(code) => Some(terminated_line(code)),
        OutputEvent::Other => None,
    }
}

/// The lines of one event, as a sequence of zero or one line.
pub open spec fn event_lines(e: OutputEvent) -> Seq<(Stream, Seq<char>)> {
    match event_line(e) {
        Some(l) => seq![l],
        None => Seq::empty(),
    }
}

/// Everything the drainer writes when the channel yields `events` in this
/// order: each event's line, up to and including the first termination,
/// after which nothing more is read.
pub open spec fn drained(events: Seq<OutputEvent>) -> Seq<(Stream, Seq<char>)>
    decreases events.len(),
{
    if events.len() == 0 {
        Seq::empty()
    } else if events[0] is Terminated {
        event_lines(events[0])
    } else {
        event_lines(events[0]) + drained(events.drop_first())
    }
}

/// The line for a chunk of the worker's output that has been decoded to
/// `text`; it goes to the error sink when the chunk came from standard error.
pub fn backend_line(stream: Stream, text: &str) -> (r: Diagnostic)
    ensures
        r@ == (stream, backend_tag() + text@),
{
    proof {
        reveal_strlit("[Backend] ");
    }
    tagged(stream, "[Backend] ", text)
}

/// The line that reports the worker's exit code.
pub fn termination_line(code: Option<i32>) -> (r: Diagnostic)
    ensures
        r@ == terminated_line(code),
{
    proof {
        reveal_strlit("[Backend] Terminated with code: ");
        reveal_strlit("Some(");
        reveal_strlit(")");
        reveal_strlit("None");
    }
    let mut text = String::from_str("[Backend] Terminated with code: ");
    match code {
        Some(c) => {
            text.append("Some(");
            append_signed(&mut text, c);
            text.append(")");
        },
        None => {
            text.append("None");
        },
    }
    assert(text@ =~= terminated_tag() + code_text(code));
    Diagnostic { stream: Stream::Normal, text }
}

/// What the drainer does with one event: the line it writes, if any, and
/// whether the channel has finished.
pub struct DrainStep {
    pub line: Option<Diagnostic>,
    pub finished: bool,
}

/// Handles one event read from the channel.
pub fn drain_event(event: &OutputEvent) -> (r: DrainStep)
    ensures
        r.line matches Some(d) ==> event_line(*event) == Some(d@),
        r.line is None ==> event_line(*event) is None,
        r.finished == (*event is Terminated),
{
    match event {
        OutputEvent::Stdout(bytes) => {
            let text = decode_lossy(bytes);
            DrainStep { line: Some(backend_line(Stream::Normal, text.as_str())), finished: false }
        },
        OutputEvent::Stderr(bytes) => {
            let text = decode_lossy(bytes);
            DrainStep { line: Some(backend_line(Stream::Error, text.as_str())), finished: false }
        },
        OutputEvent::Error(message) => {
            proof {
                reveal_strlit("[Backend Error] ");
            }
            let d = tagged(Stream::Error, "[Backend Error] ", message.as_str());
            DrainStep { line: Some(d), finished: false }
        },
        OutputEvent::Terminated(code) => {
            DrainStep { line: Some(termination_line(*code)), finished: true }
        },
        OutputEvent::Other => DrainStep { line: None, finished: false },
    }
}

/// Drains a channel that yields `events` in this order, returning every line
/// written; reading stops at the first termination.
pub fn drain(events: &Vec<OutputEvent>) -> (r: Vec<Diagnostic>)
    ensures
        lines_of(r@) == drained(events@),
{
    let mut out: Vec<Diagnostic> = Vec::new();
    let mut i: usize = 0;
    let mut finished = false;
    assert(events@.skip(0) =~= events@);
    assert(lines_of(out@) + drained(events@) =~= drained(events@));
    while i < events.len() && !finished
        invariant
            i <= events.len(),
            finished ==> lines_of(out@) == drained(events@),
            !finished ==> drained(events@) == lines_of(out@) + drained(events@.skip(i as int)),
        decreases events.len() - i,
    {
        let ghost rest = events@.skip(i as int);
        assert(rest.drop_first() =~= events@.skip(i + 1));
        let step = drain_event(&events[i]);
        let ghost before = lines_of(out@);
        match step.line {
            Some(d) => {
                out.push(d);
            },
            None => {},
        }
        assert(lines_of(out@) =~= before + event_lines(events@[i as int]));
        if step.finished {
            assert(drained(rest) == event_lines(events@[i as int]));
        } else {
            assert(drained(rest) == event_lines(events@[i as int]) + drained(events@.skip(i + 1)));
        }
        finished = step.finished;
        i = i + 1;
    }
    if !finished {
        assert(events@.skip(i as int) =~= Seq::<OutputEvent>::empty());
        assert(lines_of(out@) + Seq::<(Stream, Seq<char>)>::empty() =~= lines_of(out@));
    }
    out
}

/// Output lines are forwarded one for one and in the order received: when the
/// channel carries only standard output and standard error lines, the i-th
/// line written is the i-th chunk, decoded lossily, on the sink matching its
/// stream.
pub proof fn lemma_output_forwarded_in_order(events: Seq<OutputEvent>)
    requires
        forall|i: int| 0 <= i < events.len() ==> (#[trigger] events[i] is Stdout || events[i] is Stderr),
    ensures
        drained(events).len() == events.len(),
        forall|i: int| 0 <= i < events.len() ==> (match #[trigger] events[i] {
            OutputEvent::Stdout(b) => drained(events)[i] == (Stream::Normal, backend_tag() + lossy_text(b@)),
            OutputEvent::Stderr(b) => drained(events)[i] == (Stream::Error, backend_tag() + lossy_text(b@)),
            _ => false,
        }),
    decreases events.len(),
{
    if events.len() > 0 {
        let tail = events.drop_first();
        assert forall|i: int| 0 <= i < tail.len() implies (#[trigger] tail[i] is Stdout || tail[i] is Stderr) by {
            assert(tail[i] == events[i + 1]);
        }
        lemma_output_forwarded_in_order(tail);
        assert forall|i: int| 0 <= i < events.len() implies (match #[trigger] events[i] {
            OutputEvent::Stdout(b) => drained(events)[i] == (Stream::Normal, backend_tag() + lossy_text(b@)),
            OutputEvent::Stderr(b) => drained(events)[i] == (Stream::Error, backend_tag() + lossy_text(b@)),
            _ => false,
        }) by {
            if i > 0 {
                assert(events[i] == tail[i - 1]);
            }
        }
    }
}

/// Nothing is read after a termination: when `before` holds no termination,
/// the drainer writes the lines of `before`, then the exit line, and ignores
/// whatever `after` would have brought.
pub proof fn lemma_stops_at_termination(
    before: Seq<OutputEvent>,
    code: Option<i32>,
    after: Seq<OutputEvent>,
)
    requires
        forall|i: int| 0 <= i < before.len() ==> !(#[trigger] before[i] is Terminated),
    ensures
        drained(before + seq![OutputEvent::Terminated(code)] + after) == drained(before) + seq![
            terminated_line(code),
        ],
    decreases before.len(),
{
    let all = before + seq![OutputEvent::Terminated(code)] + after;
    if before.len() == 0 {
        assert(all[0] == OutputEvent::Terminated(code));
        assert(drained(before) =~= Seq::<(Stream, Seq<char>)>::empty());
        assert(drained(all) =~= drained(before) + seq![terminated_line(code)]);
    } else {
        let tail = before.drop_first();
        assert forall|i: int| 0 <= i < tail.len() implies !(#[trigger] tail[i] is Terminated) by {
            assert(tail[i] == before[i + 1]);
        }
        lemma_stops_at_termination(tail, code, after);
        assert(all.drop_first() =~= tail + seq![OutputEvent::Terminated(code)] + after);
        assert(all[0] == before[0]);
        assert(!(before[0] is Terminated));
        assert(drained(all) =~= drained(before) + seq![terminated_line(code)]);
    }
}

} // verus!
