use vstd::prelude::*;
use vstd::string::*;

verus! {

/// A child prints a line starting with this once it accepts connections.
pub const READY_PREFIX: &'static str = "Listening on ";

/// The output stream of the child that a line came from.
#[derive(PartialEq, Eq, Structural, Debug, Clone, Copy)]
pub enum Source {
    Stdout,
    Stderr,
}

/// One event of the merged output of the child.
pub enum LineEvent {
    /// A complete line, without its terminator.
    Line { source: Source, text: String },
    /// Reading one of the streams failed.
    ReadError { source: Source },
    /// Both streams are closed.
    Ended,
}

/// How far the wait for the readiness line has come.
#[derive(PartialEq, Eq, Structural, Debug, Clone, Copy)]
pub enum ScanState {
    /// No readiness line yet: keep reading.
    Scanning,
    /// The readiness line was seen: stop reading, the child is up.
    Ready,
    /// A stream could not be read: startup fails.
    Failed,
    /// Both streams closed before any readiness line.
    Exhausted,
}

/// Whether a line announces that the child is ready.
pub open spec fn is_ready_text(line: Seq<char>) -> bool {
    READY_PREFIX@.is_prefix_of(line)
}

/// The state that one event leads to from `Scanning`.
pub open spec fn after_event(ev: LineEvent) -> ScanState {
    match ev {
        LineEvent::Line { text, .. } => if is_ready_text(text@) {
            ScanState::Ready
        } else {
            ScanState::Scanning
        },
        LineEvent::ReadError { .. } => ScanState::Failed,
        LineEvent::Ended => ScanState::Exhausted,
    }
}

/// Feeds `events` to a scanner in state `s` until it leaves `Scanning` or the
/// events run out: the state reached and how many events were consumed.
pub open spec fn scan(s: ScanState, events: Seq<LineEvent>) -> (ScanState, nat)
    decreases events.len(),
{
    if s != ScanState::Scanning || events.len() == 0 {
        (s, 0)
    } else {
        let rest = scan(after_event(events[0]), events.drop_first());
        (rest.0, rest.1 + 1)
    }
}

/// Whether `line` starts with the readiness prefix.
pub fn is_ready_line(line: &str) -> (r: bool)
    ensures
        r == is_ready_text(line@),
{
    let prefix: &str = READY_PREFIX;
    let n = prefix.unicode_len();
    let m = line.unicode_len();
    if m < n {
        return false;
    }
    let mut i: usize = 0;
    while i < n
        invariant
            n == prefix@.len(),
            m == line@.len(),
            n <= m,
            prefix@ == READY_PREFIX@,
            i <= n,
            forall|j: int| 0 <= j < i ==> prefix@[j] == line@[j],
        decreases n - i,
    {
        if prefix.get_char(i) != line.get_char(i) {
            return false;
        }
        i = i + 1;
    }
    true
}

/// Watches the merged output of a freshly started child for the readiness line.
pub struct ReadinessScanner {
    state: ScanState,
}

impl View for ReadinessScanner {
    type V = ScanState;

    closed spec fn view(&self) -> ScanState {
        self.state
    }
}

impl ReadinessScanner {
    pub fn new() -> (r: ReadinessScanner)
        ensures
            r@ == ScanState::Scanning,
    {
        ReadinessScanner { state: ScanState::Scanning }
    }

    pub fn state(&self) -> (r: ScanState)
        ensures
            r == self@,
    {
        self.state
    }

    /// Takes the next event; only a scanner that is still scanning reads on.
    pub fn on_event(&mut self, ev: &LineEvent) -> (r: ScanState)
        requires
            old(self)@ == ScanState::Scanning,
        ensures
            r == after_event(*ev),
            final(self)@ == r,
    {
        let next = match ev {
            LineEvent::Line { text, .. } => if is_ready_line(text.as_str()) {
                ScanState::Ready
            } else {
                ScanState::Scanning
            },
            LineEvent::ReadError { .. } => ScanState::Failed,
            LineEvent::Ended => ScanState::Exhausted,
        };
        self.state = next;
        next
    }
}

/// Scanning stops at the first line that starts with the readiness prefix:
/// when every earlier event is a line without it, exactly the events up to and
/// including that line are consumed and the child counts as ready, whatever
/// follows it.
pub proof fn scan_stops_at_first_ready_line(events: Seq<LineEvent>, i: int)
    requires
        0 <= i < events.len(),
        events[i] is Line,
        is_ready_text(events[i]->text@),
        forall|j: int| 0 <= j < i ==> #[trigger] events[j] is Line && !is_ready_text(events[j]->text@),
    ensures
        scan(ScanState::Scanning, events) == (ScanState::Ready, (i + 1) as nat),
    decreases i,
{
    if i > 0 {
        let rest = events.drop_first();
        assert forall|j: int| 0 <= j < i - 1 implies #[trigger] rest[j] is Line && !is_ready_text(
            rest[j]->text@,
        ) by {
            assert(rest[j] == events[j + 1]);
        }
        assert(events[0] is Line && !is_ready_text(events[0]->text@));
        assert(after_event(events[0]) == ScanState::Scanning);
        scan_stops_at_first_ready_line(rest, i - 1);
    } else {
        assert(after_event(events[0]) == ScanState::Ready);
        assert(scan(ScanState::Ready, events.drop_first()) == (ScanState::Ready, 0nat));
    }
}

/// Which stream a line came from does not matter to readiness detection.
pub proof fn source_is_irrelevant(text: String, a: Source, b: Source)
    ensures
        after_event(LineEvent::Line { source: a, text }) == after_event(
            LineEvent::Line { source: b, text },
        ),
{
}

/// Which runtime and script to start, if any: a child is started only when
/// both paths are given; otherwise a server is assumed to be running already.
pub fn launch_plan(runtime_path: Option<String>, script_path: Option<String>) -> (r: Option<
    (String, String),
>)
    ensures
        r is Some <==> runtime_path is Some && script_path is Some,
        r is Some ==> (r->0).0@ == runtime_path->0@ && (r->0).1@ == script_path->0@,
{
    match (runtime_path, script_path) {
        (Some(runtime), Some(script)) => Some((runtime, script)),
        _ => None,
    }
}

/// The command-line arguments that run `script_path` on the runtime with
/// HTTP extensions and all permissions enabled.
pub fn launch_args(script_path: &str) -> (r: Vec<String>)
    ensures
        r@.len() == 4,
        r@[0]@ == "run"@,
        r@[1]@ == "--unstable-http"@,
        r@[2]@ == "-A"@,
        r@[3]@ == script_path@,
{
    let mut args: Vec<String> = Vec::new();
    args.push("run".to_string());
    args.push("--unstable-http".to_string());
    args.push("-A".to_string());
    args.push(script_path.to_string());
    args
}

} // verus!
