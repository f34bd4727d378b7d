//! The focus-preserving automation sequence, as a state machine.
//!
//! The environment (one focused window, one pointer, one dictionary
//! application) is a single shared resource, so one `Sequencer` runs one
//! sequence at a time. The caller performs each `Action` it hands out and
//! reports how it went as an `Event`; the sequencer decides what comes next.
use vstd::prelude::*;
use crate::lookup::{lookup_uri, lookup_uri_of};
use crate::request::{parse_word_from_request, request_text};
use crate::text::{chars_of, split_words, words};

verus! {

/// Key code of the key that, with all three modifiers, pins the focused window.
pub const RECORD_KEY_CODE: u16 = 1;

/// Key code of the key that, with all three modifiers, returns to the pinned window.
pub const RESTORE_KEY_CODE: u16 = 15;

/// HTTP status of a request whose sequence ran.
pub const STATUS_OK: u16 = 200;

/// HTTP status of a request without text to look up.
pub const STATUS_BAD_REQUEST: u16 = 400;

/// A synthetic key combination: modifiers held while one key is pressed.
#[derive(Clone, Copy, PartialEq, Eq, Structural, Debug)]
pub struct KeyPress {
    pub command: bool,
    pub option: bool,
    pub control: bool,
    pub key_code: u16,
}

/// The combination that pins the focused window.
pub open spec fn record_keys() -> KeyPress {
    KeyPress { command: true, option: true, control: true, key_code: RECORD_KEY_CODE }
}

/// The combination that returns focus to the pinned window.
pub open spec fn restore_keys() -> KeyPress {
    KeyPress { command: true, option: true, control: true, key_code: RESTORE_KEY_CODE }
}

/// The combination sent to the dictionary application on the slow path:
/// the pinning combination without `control`.
pub open spec fn focus_keys() -> KeyPress {
    KeyPress { command: true, option: true, control: false, key_code: RECORD_KEY_CODE }
}

/// How long to wait, in seconds, after each timed step.
#[derive(Clone, Copy, PartialEq, Eq, Structural, Debug)]
pub struct DelayPolicy {
    /// After the lookup is dispatched.
    pub settle: u64,
    /// After the application is activated on the slow path.
    pub linger: u64,
}

impl DelayPolicy {
    /// The tuned delays: one second to settle, seven more on the slow path.
    pub fn standard() -> (r: DelayPolicy)
        ensures
            r.settle == 1,
            r.linger == 7,
    {
        DelayPolicy { settle: 1, linger: 7 }
    }
}

/// Where a sequence stands: which action was handed out last and awaits
/// its outcome.
#[derive(Clone, Copy, PartialEq, Eq, Structural, Debug)]
pub enum Phase {
    Idle,
    Capturing,
    RecordingWindow,
    Dispatching,
    Settling,
    Activating,
    Lingering,
    RestoringWindow,
    RestoringPointer,
}

/// The outcome of the last action, as the caller saw it.
#[derive(Clone, Copy, PartialEq, Eq, Structural, Debug)]
pub enum Event {
    /// The pointer query printed these coordinates.
    Pointer(i64, i64),
    /// The pointer query failed or printed something else.
    CaptureFailed,
    /// The action ran.
    Done,
    /// The action could not be run, or reported an error.
    Failed,
}

/// What the caller is to do next.
#[derive(Debug, PartialEq, Eq)]
pub enum Action {
    /// Nothing: no sequence is running, or one is and the request must wait.
    Nothing,
    /// Ask where the pointer is, and report `Pointer` or `CaptureFailed`.
    QueryPointer,
    /// Send a key combination to the window manager.
    PressKeys(KeyPress),
    /// Open this URI with the platform's default handler.
    OpenUri(String),
    /// Wait this many seconds.
    Wait(u64),
    /// Bring the dictionary application to the front, then send the keys.
    ActivateTarget(KeyPress),
    /// Move the pointer to these absolute coordinates.
    MovePointer(i64, i64),
    /// Answer the request with this HTTP status; the sequence is over.
    Respond(u16),
    /// The ambient state could not be captured: the sequence is dropped
    /// before anything was changed, and the request gets no answer.
    Abandon,
}

/// The mathematical value of an `Action`.
pub enum ActionView {
    Nothing,
    QueryPointer,
    PressKeys(KeyPress),
    OpenUri(Seq<char>),
    Wait(u64),
    ActivateTarget(KeyPress),
    MovePointer(i64, i64),
    Respond(u16),
    Abandon,
}

impl View for Action {
    type V = ActionView;

    open spec fn view(&self) -> ActionView {
        match self {
            Action::Nothing => ActionView::Nothing,
            Action::QueryPointer => ActionView::QueryPointer,
            Action::PressKeys(k) => ActionView::PressKeys(*k),
            Action::OpenUri(u) => ActionView::OpenUri(u@),
            Action::Wait(d) => ActionView::Wait(*d),
            Action::ActivateTarget(k) => ActionView::ActivateTarget(*k),
            Action::MovePointer(x, y) => ActionView::MovePointer(*x, *y),
            Action::Respond(c) => ActionView::Respond(*c),
            Action::Abandon => ActionView::Abandon,
        }
    }
}

/// The mathematical value of a `Sequencer`.
pub struct SequencerView {
    pub phase: Phase,
    /// Whether the running sequence takes the slow path.
    pub slow: bool,
    /// The pointer position captured at the start of the sequence.
    pub pointer: (i64, i64),
    /// The lookup URI of the running sequence.
    pub uri: Seq<char>,
    pub delays: DelayPolicy,
}

/// Drives one focus-preserving sequence at a time.
pub struct Sequencer {
    phase: Phase,
    slow: bool,
    pointer: (i64, i64),
    uri: String,
    delays: DelayPolicy,
}

impl View for Sequencer {
    type V = SequencerView;

    closed spec fn view(&self) -> SequencerView {
        SequencerView {
            phase: self.phase,
            slow: self.slow,
            pointer: self.pointer,
            uri: self.uri@,
            delays: self.delays,
        }
    }
}

/// Whether a text takes the slow path: it has two words or more.
pub open spec fn is_slow_text(text: Seq<char>) -> bool {
    words(text).len() >= 2
}

/// A request arrives with `text` to look up (or none).
pub open spec fn start(s: SequencerView, text: Option<Seq<char>>) -> (SequencerView, ActionView) {
    if s.phase != Phase::Idle {
        (s, ActionView::Nothing)
    } else {
        match text {
            None => (s, ActionView::Respond(STATUS_BAD_REQUEST)),
            Some(t) => (
                SequencerView {
                    phase: Phase::Capturing,
                    slow: is_slow_text(t),
                    uri: lookup_uri_of(t),
                    ..s
                },
                ActionView::QueryPointer,
            ),
        }
    }
}

/// The outcome `e` of the last action is reported.
///
/// Only the capture can end a sequence early. Past it, a failure changes
/// nothing: the remaining steps, and above all the restoring ones, still run.
pub open spec fn next(s: SequencerView, e: Event) -> (SequencerView, ActionView) {
    match s.phase {
        Phase::Idle => (s, ActionView::Nothing),
        Phase::Capturing => match e {
            Event::Pointer(x, y) => (
                SequencerView { phase: Phase::RecordingWindow, pointer: (x, y), ..s },
                ActionView::PressKeys(record_keys()),
            ),
            _ => (SequencerView { phase: Phase::Idle, ..s }, ActionView::Abandon),
        },
        Phase::RecordingWindow => (
            SequencerView { phase: Phase::Dispatching, ..s },
            ActionView::OpenUri(s.uri),
        ),
        Phase::Dispatching => (
            SequencerView { phase: Phase::Settling, ..s },
            ActionView::Wait(s.delays.settle),
        ),
        Phase::Settling => if s.slow {
            (SequencerView { phase: Phase::Activating, ..s }, ActionView::ActivateTarget(focus_keys()))
        } else {
            (SequencerView { phase: Phase::RestoringWindow, ..s }, ActionView::PressKeys(restore_keys()))
        },
        Phase::Activating => (
            SequencerView { phase: Phase::Lingering, ..s },
            ActionView::Wait(s.delays.linger),
        ),
        Phase::Lingering => (
            SequencerView { phase: Phase::RestoringWindow, ..s },
            ActionView::PressKeys(restore_keys()),
        ),
        Phase::RestoringWindow => (
            SequencerView { phase: Phase::RestoringPointer, ..s },
            ActionView::MovePointer(s.pointer.0, s.pointer.1),
        ),
        Phase::RestoringPointer => (
            SequencerView { phase: Phase::Idle, ..s },
            ActionView::Respond(STATUS_OK),
        ),
    }
}

impl Sequencer {
    /// An idle sequencer that waits as `delays` says.
    pub fn new(delays: DelayPolicy) -> (r: Sequencer)
        ensures
            r@.phase == Phase::Idle,
            r@.delays == delays,
    {
        Sequencer { phase: Phase::Idle, slow: false, pointer: (0, 0), uri: String::new(), delays }
    }

    /// Whether no sequence is running.
    pub fn is_idle(&self) -> (r: bool)
        ensures
            r == (self@.phase == Phase::Idle),
    {
        self.phase == Phase::Idle
    }

    /// A request arrives with `text` to look up, or with none. Without text
    /// it is answered `400` at once; with text a sequence starts by querying
    /// the pointer. While a sequence runs, nothing happens.
    pub fn start(&mut self, text: Option<&str>) -> (r: Action)
        ensures
            (final(self)@, r@) == start(
                old(self)@,
                match text {
                    Some(t) => Some(t@),
                    None => None,
                },
            ),
    {
        if self.phase != Phase::Idle {
            return Action::Nothing;
        }
        match text {
            None => Action::Respond(STATUS_BAD_REQUEST),
            Some(t) => {
                let chars = chars_of(t);
                let parts = split_words(&chars);
                self.slow = parts.len() >= 2;
                self.uri = lookup_uri(t);
                self.phase = Phase::Capturing;
                Action::QueryPointer
            },
        }
    }

    /// A request line arrives: the text it asks for is looked up, as
    /// `start` says.
    pub fn begin(&mut self, request: &str) -> (r: Action)
        ensures
            (final(self)@, r@) == start(old(self)@, request_text(request@)),
    {
        if self.phase != Phase::Idle {
            return Action::Nothing;
        }
        match parse_word_from_request(request) {
            None => self.start(None),
            Some(text) => self.start(Some(text.as_str())),
        }
    }

    /// The outcome of the last action is reported; returns the next action.
    pub fn step(&mut self, e: Event) -> (r: Action)
        ensures
            (final(self)@, r@) == next(old(self)@, e),
    {
        match self.phase {
            Phase::Idle => Action::Nothing,
            Phase::Capturing => match e {
                Event::Pointer(x, y) => {
                    self.pointer = (x, y);
                    self.phase = Phase::RecordingWindow;
                    Action::PressKeys(
                        KeyPress { command: true, option: true, control: true, key_code: RECORD_KEY_CODE },
                    )
                },
                _ => {
                    self.phase = Phase::Idle;
                    Action::Abandon
                },
            },
            Phase::RecordingWindow => {
                self.phase = Phase::Dispatching;
                Action::OpenUri(self.uri.clone())
            },
            Phase::Dispatching => {
                self.phase = Phase::Settling;
                Action::Wait(self.delays.settle)
            },
            Phase::Settling => if self.slow {
                self.phase = Phase::Activating;
                Action::ActivateTarget(
                    KeyPress { command: true, option: true, control: false, key_code: RECORD_KEY_CODE },
                )
            } else {
                self.phase = Phase::RestoringWindow;
                Action::PressKeys(
                    KeyPress { command: true, option: true, control: true, key_code: RESTORE_KEY_CODE },
                )
            },
            Phase::Activating => {
                self.phase = Phase::Lingering;
                Action::Wait(self.delays.linger)
            },
            Phase::Lingering => {
                self.phase = Phase::RestoringWindow;
                Action::PressKeys(
                    KeyPress { command: true, option: true, control: true, key_code: RESTORE_KEY_CODE },
                )
            },
            Phase::RestoringWindow => {
                self.phase = Phase::RestoringPointer;
                Action::MovePointer(self.pointer.0, self.pointer.1)
            },
            Phase::RestoringPointer => {
                self.phase = Phase::Idle;
                Action::Respond(STATUS_OK)
            },
        }
    }
}

} // verus!

verus! {

/// The state reached, and the actions handed out, when the outcomes `evs`
/// are reported one after another from state `s`.
pub open spec fn run(s: SequencerView, evs: Seq<Event>) -> (SequencerView, Seq<ActionView>)
    decreases evs.len(),
{
    if evs.len() == 0 {
        (s, Seq::empty())
    } else {
        let (s1, a) = next(s, evs[0]);
        let (s2, rest) = run(s1, evs.drop_first());
        (s2, seq![a] + rest)
    }
}

/// The actions of a sequence once the pointer was captured at `(x, y)`.
pub open spec fn sequence_actions(s: SequencerView, x: i64, y: i64) -> Seq<ActionView> {
    if s.slow {
        seq![
            ActionView::PressKeys(record_keys()),
            ActionView::OpenUri(s.uri),
            ActionView::Wait(s.delays.settle),
            ActionView::ActivateTarget(focus_keys()),
            ActionView::Wait(s.delays.linger),
            ActionView::PressKeys(restore_keys()),
            ActionView::MovePointer(x, y),
            ActionView::Respond(STATUS_OK),
        ]
    } else {
        seq![
            ActionView::PressKeys(record_keys()),
            ActionView::OpenUri(s.uri),
            ActionView::Wait(s.delays.settle),
            ActionView::PressKeys(restore_keys()),
            ActionView::MovePointer(x, y),
            ActionView::Respond(STATUS_OK),
        ]
    }
}

/// How many outcomes follow the capture until the sequence is over.
pub open spec fn steps_after_capture(slow: bool) -> nat {
    if slow {
        7
    } else {
        5
    }
}

/// Whether an action changes the desktop or asks it something.
pub open spec fn is_automation(a: ActionView) -> bool {
    !(a is Nothing || a is Respond || a is Abandon)
}

/// An idle sequencer ignores every outcome and stays idle.
proof fn lemma_idle_run(s: SequencerView, evs: Seq<Event>)
    requires
        s.phase == Phase::Idle,
    ensures
        run(s, evs).0 == s,
        run(s, evs).1.len() == evs.len(),
        forall|i: int| 0 <= i < evs.len() ==> run(s, evs).1[i] == ActionView::Nothing,
    decreases evs.len(),
{
    if evs.len() > 0 {
        lemma_idle_run(s, evs.drop_first());
    }
}

/// A request without text, or with an empty one, is answered `400`, and no
/// automation action follows, whatever is reported afterwards.
pub proof fn lemma_missing_text_rejected(s: SequencerView, evs: Seq<Event>)
    requires
        s.phase == Phase::Idle,
    ensures
        start(s, None) == (s, ActionView::Respond(STATUS_BAD_REQUEST)),
        forall|i: int| 0 <= i < evs.len() ==> !is_automation(#[trigger] run(s, evs).1[i]),
{
    lemma_idle_run(s, evs);
}

/// Once the pointer is captured at `(x, y)`, the sequence hands out exactly
/// its fixed list of actions, whatever the outcomes of those actions: failures
/// of the dispatch or of the slow path change nothing, the window is restored
/// and the pointer is moved back to `(x, y)`, and the sequencer is idle again.
pub proof fn lemma_sequence_runs_through(s: SequencerView, x: i64, y: i64, evs: Seq<Event>)
    requires
        s.phase == Phase::Capturing,
        evs.len() == steps_after_capture(s.slow),
    ensures
        run(s, seq![Event::Pointer(x, y)] + evs).1 == sequence_actions(s, x, y),
        run(s, seq![Event::Pointer(x, y)] + evs).0.phase == Phase::Idle,
{
    let all = seq![Event::Pointer(x, y)] + evs;
    reveal_with_fuel(run, 9);
    assert(all.drop_first() =~= evs);
    assert(evs.drop_first().drop_first().drop_first().drop_first().drop_first().len() == if s.slow {
        2int
    } else {
        0int
    });
    if s.slow {
        assert(run(s, all).1 =~= sequence_actions(s, x, y));
    } else {
        assert(run(s, all).1 =~= sequence_actions(s, x, y));
    }
}

/// The pointer is put back at exactly the coordinates captured at the start,
/// as the last automation action of the sequence, whatever the outcomes of
/// the actions in between.
pub proof fn lemma_pointer_restored(s: SequencerView, x: i64, y: i64, evs: Seq<Event>)
    requires
        s.phase == Phase::Capturing,
        evs.len() == steps_after_capture(s.slow),
    ensures
        run(s, seq![Event::Pointer(x, y)] + evs).1[evs.len() - 1] == ActionView::MovePointer(x, y),
        run(s, seq![Event::Pointer(x, y)] + evs).1.last() == ActionView::Respond(STATUS_OK),
{
    lemma_sequence_runs_through(s, x, y, evs);
}

/// A text of two words or more takes the slow path: the application is
/// activated and the longer wait follows. A text of one word never does.
pub proof fn lemma_slow_path_by_word_count(
    s: SequencerView,
    text: Seq<char>,
    x: i64,
    y: i64,
    evs: Seq<Event>,
)
    requires
        s.phase == Phase::Idle,
        evs.len() == steps_after_capture(is_slow_text(text)),
    ensures
        ({
            let s1 = start(s, Some(text)).0;
            let acts = run(s1, seq![Event::Pointer(x, y)] + evs).1;
            &&& s1.slow == (words(text).len() >= 2)
            &&& acts.contains(ActionView::ActivateTarget(focus_keys())) <==> words(text).len() >= 2
            &&& words(text).len() >= 2 ==> acts[4] == ActionView::Wait(s.delays.linger)
            &&& words(text).len() < 2 ==> forall|i: int|
                0 <= i < acts.len() && (#[trigger] acts[i] is Wait) ==> acts[i] == ActionView::Wait(
                    s.delays.settle,
                )
        }),
{
    let s1 = start(s, Some(text)).0;
    lemma_sequence_runs_through(s1, x, y, evs);
    let acts = run(s1, seq![Event::Pointer(x, y)] + evs).1;
    if words(text).len() >= 2 {
        assert(acts[3] == ActionView::ActivateTarget(focus_keys()));
    } else {
        assert forall|i: int| 0 <= i < acts.len() implies acts[i] != ActionView::ActivateTarget(
            focus_keys(),
        ) by {}
    }
}

/// Sequences never interleave: while one runs, a new request is held off
/// and changes nothing, and a running sequence becomes idle only on the
/// outcome of its pointer restore, or on a failed capture, before anything
/// was changed.
pub proof fn lemma_sequences_exclusive(s: SequencerView, text: Option<Seq<char>>, e: Event)
    requires
        s.phase != Phase::Idle,
    ensures
        start(s, text) == (s, ActionView::Nothing),
        next(s, e).0.phase == Phase::Idle ==> s.phase == Phase::RestoringPointer || (s.phase
            == Phase::Capturing && !(e is Pointer)),
{
}

} // verus!
