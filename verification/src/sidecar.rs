//! Decisions of the sidecar relay: which log line the host emits for each
//! event that the spawned background process produces. The host reads the
//! events and performs the logging; the choice of level and text is made
//! here.

use vstd::prelude::*;

verus! {

/// An event from the sidecar process, as the relay sees it: a chunk of its
/// standard output, a chunk of its standard error, or anything else
/// (termination, spawn errors), which the relay ignores.
#[derive(Debug)]
pub enum SidecarEvent {
    Stdout(Vec<u8>),
    Stderr(Vec<u8>),
    Other,
}

/// The severity a relayed line is logged at.
#[derive(Clone, Copy, Debug, PartialEq, Eq, Structural)]
pub enum LogLevel {
    Info,
    Error,
}

/// One line the host is asked to log.
#[derive(Debug)]
pub struct LogLine {
    pub level: LogLevel,
    pub text: String,
}

/// What `String::from_utf8_lossy` returns: a function of the bytes alone.
pub uninterp spec fn utf8_lossy_of(bytes: Seq<u8>) -> Seq<char>;

/// Relies on `String::from_utf8_lossy`: decodes the bytes as UTF-8,
/// replacing each invalid sequence with U+FFFD; the result depends on the
/// bytes alone.
#[verifier::external_body]
fn utf8_lossy(bytes: &Vec<u8>) -> (r: String)
    ensures
        r@ == utf8_lossy_of(bytes@),
{
    String::from_utf8_lossy(bytes).into_owned()
}

/// The line logged for one event: its level and its text, or `None` for an
/// event the relay ignores.
pub open spec fn line_of_event(event: SidecarEvent) -> Option<(LogLevel, Seq<char>)> {
    match event {
        SidecarEvent::Stdout(bytes) => Some(
            (LogLevel::Info, "[SIDECAR] "@ + utf8_lossy_of(bytes@)),
        ),
        SidecarEvent::Stderr(bytes) => Some(
            (LogLevel::Error, "[SIDECAR ERROR] "@ + utf8_lossy_of(bytes@)),
        ),
        SidecarEvent::Other => None,
    }
}

/// The level and text of each line in `lines`, in order.
pub open spec fn line_models(lines: Seq<LogLine>) -> Seq<(LogLevel, Seq<char>)> {
    lines.map_values(|line: LogLine| (line.level, line.text@))
}

/// The lines logged for a stream of events, in the stream's order, with the
/// ignored events skipped.
pub open spec fn lines_of_events(events: Seq<SidecarEvent>) -> Seq<(LogLevel, Seq<char>)>
    decreases events.len(),
{
    if events.len() == 0 {
        Seq::empty()
    } else {
        lines_of_events(events.drop_last()) + match line_of_event(events.last()) {
            Some(l) => seq![l],
            None => Seq::empty(),
        }
    }
}

/// Decide the log line for one sidecar event: standard output is relayed at
/// info level under the `[SIDECAR] ` prefix, standard error at error level
/// under the `[SIDECAR ERROR] ` prefix, and every other event is ignored.
pub fn relay(event: &SidecarEvent) -> (r: Option<LogLine>)
    ensures
        match line_of_event(*event) {
            Some(l) => r matches Some(line) && line.level == l.0 && line.text@ == l.1,
            None => r is None,
        },
{
    match event {
        SidecarEvent::Stdout(bytes) => {
            let mut text: String = "[SIDECAR] ".to_owned();
            let msg = utf8_lossy(bytes);
            text.append(msg.as_str());
            Some(LogLine { level: LogLevel::Info, text })
        },
        SidecarEvent::Stderr(bytes) => {
            let mut text: String = "[SIDECAR ERROR] ".to_owned();
            let msg = utf8_lossy(bytes);
            text.append(msg.as_str());
            Some(LogLine { level: LogLevel::Error, text })
        },
        SidecarEvent::Other => None,
    }
}

/// Relay a whole event stream, as the relay task does until the stream ends:
/// one log line per relayed event, in the stream's order.
pub fn relay_all(events: &Vec<SidecarEvent>) -> (r: Vec<LogLine>)
    ensures
        line_models(r@) == lines_of_events(events@),
{
    let mut out: Vec<LogLine> = Vec::new();
    let mut i: usize = 0;
    while i < events.len()
        invariant
            i <= events.len(),
            line_models(out@) == lines_of_events(events@.take(i as int)),
        decreases events.len() - i,
    {
        if let Some(line) = relay(&events[i]) {
            out.push(line);
        }
        proof {
            let es = events@;
            assert(es.take(i + 1).drop_last() =~= es.take(i as int));
            assert(es.take(i + 1).last() == es[i as int]);
            assert(line_models(out@) =~= lines_of_events(es.take(i + 1)));
        }
        i = i + 1;
    }
    proof {
        assert(events@.take(events@.len() as int) =~= events@);
    }
    out
}

} // verus!
