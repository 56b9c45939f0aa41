//! Where progress goes. The fetch reports to a sink as it proceeds, from
//! within the blocking call; the caller hands in a sink that writes to the
//! status stream, or one that records.

use crate::progress::{
    CheckoutProgress, Frame, FrameView, NetworkProgress, ProgressEvent, TransferState,
    TransferView,
};
use vstd::prelude::*;

verus! {

/// The receiving end of progress reports.
pub trait ProgressSink {
    /// The network transfer has moved on.
    fn on_network_progress(&mut self, network: NetworkProgress);

    /// The checkout has moved on.
    fn on_checkout_progress(&mut self, checkout: CheckoutProgress);
}

/// What each frame of `frames` holds.
pub open spec fn frame_views(frames: Seq<Frame>) -> Seq<FrameView> {
    Seq::new(frames.len(), |i: int| frames[i]@)
}

/// A sink that keeps, in place of writing them, the frames that a renderer
/// would have written.
pub struct Recorder {
    state: TransferState,
    frames: Vec<Frame>,
}

impl Recorder {
    /// The progress state that the recorder renders from.
    pub closed spec fn state(self) -> TransferView {
        self.state@
    }

    /// The frames recorded so far, in their order.
    pub closed spec fn recorded(self) -> Seq<FrameView> {
        frame_views(self.frames@)
    }

    /// A recorder that nothing has been reported to.
    pub fn new() -> (recorder: Recorder)
        ensures
            recorder.state() == TransferView::initial(),
            recorder.recorded() == Seq::<FrameView>::empty(),
    {
        let recorder = Recorder { state: TransferState::new(), frames: Vec::new() };
        assert(frame_views(recorder.frames@) =~= Seq::<FrameView>::empty());
        recorder
    }

    /// The frames recorded so far, in their order.
    pub fn frames(&self) -> (frames: &Vec<Frame>)
        ensures
            frame_views(frames@) == self.recorded(),
    {
        &self.frames
    }

    /// Renders the state and keeps the frame.
    fn keep(&mut self)
        ensures
            final(self).state() == old(self).state().rendered(),
            final(self).recorded() == old(self).recorded().push(old(self).state().frame()),
    {
        let ghost kept = frame_views(self.frames@);
        let frame = self.state.render();
        self.frames.push(frame);
        assert(frame_views(self.frames@) =~= kept.push(frame@));
    }
}

impl ProgressSink for Recorder {
    fn on_network_progress(&mut self, network: NetworkProgress)
        ensures
            final(self).state() == old(self).state().observe(ProgressEvent::Network(network)),
            final(self).recorded() == old(self).recorded().push(
                old(self).state().record(ProgressEvent::Network(network)).frame(),
            ),
    {
        self.state.record_network(network);
        self.keep();
    }

    fn on_checkout_progress(&mut self, checkout: CheckoutProgress)
        ensures
            final(self).state() == old(self).state().observe(ProgressEvent::Checkout(checkout@)),
            final(self).recorded() == old(self).recorded().push(
                old(self).state().record(ProgressEvent::Checkout(checkout@)).frame(),
            ),
    {
        self.state.record_checkout(checkout);
        self.keep();
    }
}

/// A recorder holds the frames of the run that was reported to it: where it
/// holds those of `events`, and `event` is reported, it holds those of
/// `events` followed by `event`. A new recorder holds those of no events.
pub proof fn lemma_recorder_follows_the_run(
    before: Recorder,
    after: Recorder,
    events: Seq<ProgressEvent>,
    event: ProgressEvent,
)
    requires
        before.state() == TransferView::initial().after(events),
        before.recorded() == TransferView::initial().frames(events),
        after.state() == before.state().observe(event),
        after.recorded() == before.recorded().push(before.state().record(event).frame()),
    ensures
        after.state() == TransferView::initial().after(events.push(event)),
        after.recorded() == TransferView::initial().frames(events.push(event)),
{
    assert(events.push(event).drop_last() =~= events);
}

} // verus!
