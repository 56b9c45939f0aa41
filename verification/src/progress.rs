//! Transfer progress: one state, fed by the network transfer and by the file
//! checkout, and rendered after every update as one overwriting status line.
//! The display has two phases. While objects are still being received it
//! shows the transfer; from the first render that sees the transfer complete
//! it shows delta resolution, after one newline, and never goes back.

use crate::template::text_of;
use crate::text::{decimal, push_decimal, push_right_aligned, right_aligned};
use vstd::prelude::*;
use vstd::string::*;

verus! {

/// Counters of the network transfer, as the transport reports them.
#[derive(Debug, Clone, Copy, PartialEq, Eq, Structural)]
pub struct NetworkProgress {
    pub received_objects: u64,
    pub total_objects: u64,
    pub received_bytes: u64,
    pub indexed_objects: u64,
    pub indexed_deltas: u64,
    pub total_deltas: u64,
}

/// Progress of the checkout: the file at hand, if any, and the file counts.
#[derive(Debug, Clone, PartialEq, Eq)]
pub struct CheckoutProgress {
    pub path: Option<String>,
    pub completed: u64,
    pub total: u64,
}

/// Checkout progress as plain text.
pub struct CheckoutView {
    pub path: Option<Seq<char>>,
    pub completed: u64,
    pub total: u64,
}

impl View for CheckoutProgress {
    type V = CheckoutView;

    open spec fn view(&self) -> CheckoutView {
        CheckoutView { path: text_of(self.path), completed: self.completed, total: self.total }
    }
}

/// `done` of `total` in percent, rounded down; 0 where `total` is 0. The
/// quotient is not capped: a count above its total gives more than 100.
pub open spec fn percent_of(done: nat, total: nat) -> nat {
    if total == 0 {
        0
    } else {
        100 * done / total
    }
}

/// The bytes of one kilobyte.
pub const KILOBYTE: u64 = 1024;

/// One status line.
#[derive(Debug, Clone, PartialEq, Eq)]
pub enum StatusLine {
    /// The transfer: received and indexed objects and checked-out files, each
    /// with its percentage, the kilobytes received, and the file at hand.
    Transfer {
        network_percent: u128,
        kilobytes: u64,
        received_objects: u64,
        total_objects: u64,
        index_percent: u128,
        indexed_objects: u64,
        checkout_percent: u128,
        completed: u64,
        total: u64,
        path: String,
    },
    /// Delta resolution.
    Deltas { resolved: u64, total: u64 },
}

/// A status line as plain text.
pub enum LineView {
    Transfer {
        network_percent: nat,
        kilobytes: nat,
        received_objects: nat,
        total_objects: nat,
        index_percent: nat,
        indexed_objects: nat,
        checkout_percent: nat,
        completed: nat,
        total: nat,
        path: Seq<char>,
    },
    Deltas { resolved: nat, total: nat },
}

impl LineView {
    /// The characters that show the line. It ends in a carriage return, so
    /// that the next line overwrites it.
    pub open spec fn text(self) -> Seq<char> {
        match self {
            LineView::Transfer {
                network_percent,
                kilobytes,
                received_objects,
                total_objects,
                index_percent,
                indexed_objects,
                checkout_percent,
                completed,
                total,
                path,
            } => "net "@ + right_aligned(decimal(network_percent), 3) + "% ("@ + right_aligned(
                decimal(kilobytes),
                4,
            ) + " kb, "@ + right_aligned(decimal(received_objects), 5) + "/"@ + right_aligned(
                decimal(total_objects),
                5,
            ) + ")  /  idx "@ + right_aligned(decimal(index_percent), 3) + "% ("@ + right_aligned(
                decimal(indexed_objects),
                5,
            ) + "/"@ + right_aligned(decimal(total_objects), 5) + ")  /  chk "@ + right_aligned(
                decimal(checkout_percent),
                3,
            ) + "% ("@ + right_aligned(decimal(completed), 4) + "/"@ + right_aligned(
                decimal(total),
                4,
            ) + ") "@ + path + "\r"@,
            LineView::Deltas { resolved, total } => "Resolving deltas "@ + decimal(resolved) + "/"@
                + decimal(total) + "\r"@,
        }
    }
}

impl View for StatusLine {
    type V = LineView;

    open spec fn view(&self) -> LineView {
        match *self {
            StatusLine::Transfer {
                network_percent,
                kilobytes,
                received_objects,
                total_objects,
                index_percent,
                indexed_objects,
                checkout_percent,
                completed,
                total,
                path,
            } => LineView::Transfer {
                network_percent: network_percent as nat,
                kilobytes: kilobytes as nat,
                received_objects: received_objects as nat,
                total_objects: total_objects as nat,
                index_percent: index_percent as nat,
                indexed_objects: indexed_objects as nat,
                checkout_percent: checkout_percent as nat,
                completed: completed as nat,
                total: total as nat,
                path: path@,
            },
            StatusLine::Deltas { resolved, total } => LineView::Deltas {
                resolved: resolved as nat,
                total: total as nat,
            },
        }
    }
}

/// What one render writes: a newline first, where the render is the one that
/// leaves the transfer phase, and then the status line.
#[derive(Debug, Clone, PartialEq, Eq)]
pub struct Frame {
    pub newline: bool,
    pub line: StatusLine,
}

/// A frame as plain text.
pub struct FrameView {
    pub newline: bool,
    pub line: LineView,
}

impl FrameView {
    /// The characters that the frame writes.
    pub open spec fn text(self) -> Seq<char> {
        if self.newline {
            "\n"@ + self.line.text()
        } else {
            self.line.text()
        }
    }
}

impl View for Frame {
    type V = FrameView;

    open spec fn view(&self) -> FrameView {
        FrameView { newline: self.newline, line: self.line@ }
    }
}

/// One update of the progress state.
pub enum ProgressEvent {
    Network(NetworkProgress),
    Checkout(CheckoutView),
}

/// The progress state as plain text.
pub struct TransferView {
    pub network: NetworkProgress,
    pub path: Option<Seq<char>>,
    pub completed: u64,
    pub total: u64,
    /// The newline that ends the transfer phase has been written.
    pub newline: bool,
}

impl TransferView {
    /// The state before any update.
    pub open spec fn initial() -> TransferView {
        TransferView {
            network: NetworkProgress {
                received_objects: 0,
                total_objects: 0,
                received_bytes: 0,
                indexed_objects: 0,
                indexed_deltas: 0,
                total_deltas: 0,
            },
            path: None,
            completed: 0,
            total: 0,
            newline: false,
        }
    }

    /// The state with `event` taken in.
    pub open spec fn record(self, event: ProgressEvent) -> TransferView {
        match event {
            ProgressEvent::Network(network) => TransferView { network, ..self },
            ProgressEvent::Checkout(checkout) => TransferView {
                path: checkout.path,
                completed: checkout.completed,
                total: checkout.total,
                ..self
            },
        }
    }

    /// The transfer phase is over: all objects have been received, or the
    /// display has left the phase before.
    pub open spec fn in_delta_phase(self) -> bool {
        self.newline || self.network.received_objects == self.network.total_objects
    }

    /// The line that a render of this state shows.
    pub open spec fn line(self) -> LineView {
        if self.in_delta_phase() {
            LineView::Deltas {
                resolved: self.network.indexed_deltas as nat,
                total: self.network.total_deltas as nat,
            }
        } else {
            LineView::Transfer {
                network_percent: percent_of(
                    self.network.received_objects as nat,
                    self.network.total_objects as nat,
                ),
                kilobytes: (self.network.received_bytes / KILOBYTE) as nat,
                received_objects: self.network.received_objects as nat,
                total_objects: self.network.total_objects as nat,
                index_percent: percent_of(
                    self.network.indexed_objects as nat,
                    self.network.total_objects as nat,
                ),
                indexed_objects: self.network.indexed_objects as nat,
                checkout_percent: percent_of(self.completed as nat, self.total as nat),
                completed: self.completed as nat,
                total: self.total as nat,
                path: match self.path {
                    Some(path) => path,
                    None => Seq::empty(),
                },
            }
        }
    }

    /// What a render of this state writes.
    pub open spec fn frame(self) -> FrameView {
        FrameView { newline: self.in_delta_phase() && !self.newline, line: self.line() }
    }

    /// The state after a render.
    pub open spec fn rendered(self) -> TransferView {
        TransferView { newline: self.in_delta_phase(), ..self }
    }

    /// The state after `event` has been taken in and rendered.
    pub open spec fn observe(self, event: ProgressEvent) -> TransferView {
        self.record(event).rendered()
    }

    /// The state after each of `events` has been taken in and rendered.
    pub open spec fn after(self, events: Seq<ProgressEvent>) -> TransferView
        decreases events.len(),
    {
        if events.len() == 0 {
            self
        } else {
            self.after(events.drop_last()).observe(events.last())
        }
    }

    /// The frames that are written when each of `events` is taken in and
    /// rendered, one frame for each event.
    pub open spec fn frames(self, events: Seq<ProgressEvent>) -> Seq<FrameView>
        decreases events.len(),
    {
        if events.len() == 0 {
            Seq::empty()
        } else {
            self.frames(events.drop_last()).push(
                self.after(events.drop_last()).record(events.last()).frame(),
            )
        }
    }
}

/// `done` of `total` in percent, rounded down; 0 where `total` is 0.
pub fn percent(done: u64, total: u64) -> (p: u128)
    ensures
        p == percent_of(done as nat, total as nat),
{
    if total == 0 {
        0
    } else {
        100u128 * (done as u128) / (total as u128)
    }
}

/// The progress of one fetch. It has one owner, which feeds it from the
/// transfer and the checkout and renders it after every update.
#[derive(Debug)]
pub struct TransferState {
    network: NetworkProgress,
    path: Option<String>,
    completed: u64,
    total: u64,
    newline: bool,
}

impl View for TransferState {
    type V = TransferView;

    closed spec fn view(&self) -> TransferView {
        TransferView {
            network: self.network,
            path: text_of(self.path),
            completed: self.completed,
            total: self.total,
            newline: self.newline,
        }
    }
}

impl TransferState {
    /// The state before any update: nothing received, nothing checked out.
    pub fn new() -> (state: TransferState)
        ensures
            state@ == TransferView::initial(),
    {
        TransferState {
            network: NetworkProgress {
                received_objects: 0,
                total_objects: 0,
                received_bytes: 0,
                indexed_objects: 0,
                indexed_deltas: 0,
                total_deltas: 0,
            },
            path: None,
            completed: 0,
            total: 0,
            newline: false,
        }
    }

    /// Takes in the counters of the network transfer.
    pub fn record_network(&mut self, network: NetworkProgress)
        ensures
            final(self)@ == old(self)@.record(ProgressEvent::Network(network)),
    {
        self.network = network;
    }

    /// Takes in the progress of the checkout.
    pub fn record_checkout(&mut self, checkout: CheckoutProgress)
        ensures
            final(self)@ == old(self)@.record(ProgressEvent::Checkout(checkout@)),
    {
        self.path = checkout.path;
        self.completed = checkout.completed;
        self.total = checkout.total;
    }

    /// Renders the state: returns what is to be written, and remembers that
    /// the transfer phase has been left once it has.
    pub fn render(&mut self) -> (frame: Frame)
        ensures
            frame@ == old(self)@.frame(),
            final(self)@ == old(self)@.rendered(),
    {
        if self.newline || self.network.received_objects == self.network.total_objects {
            let newline = !self.newline;
            self.newline = true;
            Frame {
                newline,
                line: StatusLine::Deltas {
                    resolved: self.network.indexed_deltas,
                    total: self.network.total_deltas,
                },
            }
        } else {
            let path = match &self.path {
                Some(path) => path.clone(),
                None => String::new(),
            };
            Frame {
                newline: false,
                line: StatusLine::Transfer {
                    network_percent: percent(
                        self.network.received_objects,
                        self.network.total_objects,
                    ),
                    kilobytes: self.network.received_bytes / KILOBYTE,
                    received_objects: self.network.received_objects,
                    total_objects: self.network.total_objects,
                    index_percent: percent(
                        self.network.indexed_objects,
                        self.network.total_objects,
                    ),
                    indexed_objects: self.network.indexed_objects,
                    checkout_percent: percent(self.completed, self.total),
                    completed: self.completed,
                    total: self.total,
                    path,
                },
            }
        }
    }
}

impl StatusLine {
    /// The characters that show the line.
    pub fn to_text(&self) -> (text: String)
        ensures
            text@ == self@.text(),
    {
        match self {
            StatusLine::Transfer {
                network_percent,
                kilobytes,
                received_objects,
                total_objects,
                index_percent,
                indexed_objects,
                checkout_percent,
                completed,
                total,
                path,
            } => {
                let mut text = String::from_str("net ");
                push_right_aligned(&mut text, *network_percent, 3);
                text.append("% (");
                push_right_aligned(&mut text, *kilobytes as u128, 4);
                text.append(" kb, ");
                push_right_aligned(&mut text, *received_objects as u128, 5);
                text.append("/");
                push_right_aligned(&mut text, *total_objects as u128, 5);
                text.append(")  /  idx ");
                push_right_aligned(&mut text, *index_percent, 3);
                text.append("% (");
                push_right_aligned(&mut text, *indexed_objects as u128, 5);
                text.append("/");
                push_right_aligned(&mut text, *total_objects as u128, 5);
                text.append(")  /  chk ");
                push_right_aligned(&mut text, *checkout_percent, 3);
                text.append("% (");
                push_right_aligned(&mut text, *completed as u128, 4);
                text.append("/");
                push_right_aligned(&mut text, *total as u128, 4);
                text.append(") ");
                text.append(path.as_str());
                text.append("\r");
                text
            },
            StatusLine::Deltas { resolved, total } => {
                let mut text = String::from_str("Resolving deltas ");
                push_decimal(&mut text, *resolved as u128);
                text.append("/");
                push_decimal(&mut text, *total as u128);
                text.append("\r");
                text
            },
        }
    }
}

impl Frame {
    /// The characters that the frame writes.
    pub fn to_text(&self) -> (text: String)
        ensures
            text@ == self@.text(),
    {
        let line = self.line.to_text();
        if self.newline {
            let mut text = String::from_str("\n");
            text.append(line.as_str());
            text
        } else {
            line
        }
    }
}

/// A percentage of a count within its total lies between 0 and 100, and the
/// percentage of an empty total is 0.
pub proof fn lemma_percent_bounds(done: nat, total: nat)
    ensures
        total == 0 ==> percent_of(done, total) == 0,
        done <= total ==> percent_of(done, total) <= 100,
        done == total && total > 0 ==> percent_of(done, total) == 100,
{
    if total > 0 {
        if done <= total {
            assert(100 * done / total <= 100) by (nonlinear_arith)
                requires
                    done <= total,
                    total > 0,
            ;
        }
        if done == total {
            assert(100 * done / total == 100) by (nonlinear_arith)
                requires
                    done == total,
                    total > 0,
            ;
        }
    }
}

/// Where no count exceeds its total, every percentage that a transfer line
/// shows lies between 0 and 100.
pub proof fn lemma_shown_percentages_are_bounded(state: TransferView)
    requires
        state.network.received_objects <= state.network.total_objects,
        state.network.indexed_objects <= state.network.total_objects,
        state.completed <= state.total,
    ensures
        state.line() matches LineView::Transfer {
            network_percent,
            index_percent,
            checkout_percent,
            ..
        } ==> network_percent <= 100 && index_percent <= 100 && checkout_percent <= 100,
{
    lemma_percent_bounds(
        state.network.received_objects as nat,
        state.network.total_objects as nat,
    );
    lemma_percent_bounds(state.network.indexed_objects as nat, state.network.total_objects as nat);
    lemma_percent_bounds(state.completed as nat, state.total as nat);
}

/// One frame is written for each event.
pub proof fn lemma_frames_len(state: TransferView, events: Seq<ProgressEvent>)
    ensures
        state.frames(events).len() == events.len(),
    decreases events.len(),
{
    if events.len() > 0 {
        lemma_frames_len(state, events.drop_last());
    }
}

/// The frame written for the event at `index` is the one that the state
/// after the events before it renders once the event is taken in.
pub proof fn lemma_frame_at(state: TransferView, events: Seq<ProgressEvent>, index: int)
    requires
        0 <= index < events.len(),
    ensures
        state.frames(events).len() == events.len(),
        state.frames(events)[index] == state.after(events.subrange(0, index)).record(
            events[index],
        ).frame(),
    decreases events.len(),
{
    let front = events.drop_last();
    lemma_frames_len(state, events);
    lemma_frames_len(state, front);
    if index < front.len() {
        lemma_frame_at(state, front, index);
        assert(front.subrange(0, index) =~= events.subrange(0, index));
        assert(state.frames(events)[index] == state.frames(front)[index]);
    } else {
        assert(events.subrange(0, index) =~= front);
    }
}

/// The state after the first `count + 1` events is the state after the
/// first `count`, with the next event taken in and rendered.
proof fn lemma_after_step(state: TransferView, events: Seq<ProgressEvent>, count: int)
    requires
        0 <= count < events.len(),
    ensures
        state.after(events.subrange(0, count + 1)) == state.after(
            events.subrange(0, count),
        ).observe(events[count]),
{
    let prefix = events.subrange(0, count + 1);
    assert(prefix.drop_last() =~= events.subrange(0, count));
    assert(prefix.last() == events[count]);
}

/// Once the transfer phase has been left, it stays left.
proof fn lemma_phase_latches(
    state: TransferView,
    events: Seq<ProgressEvent>,
    early: int,
    late: int,
)
    requires
        0 <= early <= late <= events.len(),
        state.after(events.subrange(0, early)).newline,
    ensures
        state.after(events.subrange(0, late)).newline,
    decreases late - early,
{
    if early < late {
        lemma_phase_latches(state, events, early, late - 1);
        lemma_after_step(state, events, late - 1);
    }
}

/// The newline that ends the transfer phase is written at most once in a
/// run: of any two frames, at most one carries it.
pub proof fn lemma_newline_is_written_once(
    state: TransferView,
    events: Seq<ProgressEvent>,
    first: int,
    second: int,
)
    requires
        0 <= first < second < events.len(),
    ensures
        !(state.frames(events)[first].newline && state.frames(events)[second].newline),
{
    lemma_frame_at(state, events, first);
    lemma_frame_at(state, events, second);
    if state.frames(events)[first].newline {
        lemma_after_step(state, events, first);
        lemma_phase_latches(state, events, first + 1, second);
    }
}

/// The delta-resolution line is never written before the newline: a frame
/// that shows it carries the newline itself or comes after the frame that
/// did. The index of that frame is returned; by
/// `lemma_newline_is_written_once` it is the only one.
pub proof fn lemma_deltas_follow_the_newline(
    state: TransferView,
    events: Seq<ProgressEvent>,
    index: int,
) -> (newline_at: int)
    requires
        !state.newline,
        0 <= index < events.len(),
        state.frames(events)[index].line is Deltas,
    ensures
        0 <= newline_at <= index,
        state.frames(events)[newline_at].newline,
    decreases index,
{
    lemma_frame_at(state, events, index);
    if state.frames(events)[index].newline {
        index
    } else {
        assert(state.after(events.subrange(0, index)).newline);
        if index == 0 {
            assert(events.subrange(0, 0) =~= Seq::<ProgressEvent>::empty());
            assert(false);
            index
        } else {
            lemma_after_step(state, events, index - 1);
            lemma_frame_at(state, events, index - 1);
            lemma_deltas_follow_the_newline(state, events, index - 1)
        }
    }
}

/// The display never goes back to the transfer phase: after a frame that
/// shows delta resolution, every frame does.
pub proof fn lemma_display_never_regresses(
    state: TransferView,
    events: Seq<ProgressEvent>,
    early: int,
    late: int,
)
    requires
        0 <= early <= late < events.len(),
        state.frames(events)[early].line is Deltas,
    ensures
        state.frames(events)[late].line is Deltas,
{
    lemma_frame_at(state, events, early);
    lemma_frame_at(state, events, late);
    if early < late {
        lemma_after_step(state, events, early);
        lemma_phase_latches(state, events, early + 1, late);
    }
}

} // verus!
