//! An audio sink that discards every sample, for machines without sound
//! hardware and for headless runs.
use vstd::prelude::*;

verus! {

/// Accepts audio at a sample rate and throws it away.
pub struct NullAudioDriver {
    pub sample_rate: u32,
    stopped: bool,
}

/// The sink's state as values.
pub struct NullAudioView {
    pub sample_rate: u32,
    pub stopped: bool,
}

impl View for NullAudioDriver {
    type V = NullAudioView;

    closed spec fn view(&self) -> NullAudioView {
        NullAudioView { sample_rate: self.sample_rate, stopped: self.stopped }
    }
}

impl NullAudioDriver {
    /// A running sink for the given rate.
    pub fn new(sample_rate: u32) -> (d: Self)
        ensures
            d@ == (NullAudioView { sample_rate, stopped: false }),
    {
        NullAudioDriver { sample_rate, stopped: false }
    }

    /// Discard a batch of interleaved samples.
    pub fn push_batch(&self, data: &[i16]) {
    }

    /// Discard one stereo frame.
    pub fn push_stereo_pair(&self, left: i16, right: i16) {
    }

    /// Stop the sink; the rate stays.
    pub fn stop(&mut self)
        ensures
            final(self)@ == (NullAudioView { stopped: true, ..old(self)@ }),
    {
        self.stopped = true;
    }

    /// Whether the sink was stopped.
    pub fn is_stopped(&self) -> (b: bool)
        ensures
            b == self@.stopped,
    {
        self.stopped
    }
}

/// A call on the sink, for stating what a sequence of calls does.
pub enum NullAudioCall {
    /// `push_batch`
    PushBatch,
    /// `push_stereo_pair`
    PushStereoPair,
    /// `stop`
    Stop,
}

/// The sink's state after one call: `stop` sets the stopped flag and keeps
/// the rate; the pushes take `&self` and change nothing.
pub open spec fn null_audio_step(v: NullAudioView, c: NullAudioCall) -> NullAudioView {
    match c {
        NullAudioCall::Stop => NullAudioView { stopped: true, ..v },
        _ => v,
    }
}

/// The sink's state after a sequence of calls, oldest first.
pub open spec fn null_audio_after(v: NullAudioView, calls: Seq<NullAudioCall>) -> NullAudioView
    decreases calls.len(),
{
    if calls.len() == 0 {
        v
    } else {
        null_audio_step(null_audio_after(v, calls.drop_last()), calls.last())
    }
}

/// A sink made by `new(rate)` keeps that rate through any sequence of
/// pushes and stops, and reports itself stopped exactly when a `stop` was
/// among the calls (once or more, anywhere in the sequence).
pub proof fn null_audio_stopped_iff_stop_called(sample_rate: u32, calls: Seq<NullAudioCall>)
    ensures
        null_audio_after(NullAudioView { sample_rate, stopped: false }, calls).sample_rate == sample_rate,
        null_audio_after(NullAudioView { sample_rate, stopped: false }, calls).stopped
            <==> exists|i: int| 0 <= i < calls.len() && #[trigger] calls[i] is Stop,
    decreases calls.len(),
{
    if calls.len() > 0 {
        let rest = calls.drop_last();
        null_audio_stopped_iff_stop_called(sample_rate, rest);
        if null_audio_after(NullAudioView { sample_rate, stopped: false }, rest).stopped {
            let i = choose|i: int| 0 <= i < rest.len() && #[trigger] rest[i] is Stop;
            assert(calls[i] is Stop);
        }
        if calls.last() is Stop {
            assert(calls[calls.len() - 1] is Stop);
        }
        if exists|i: int| 0 <= i < calls.len() && #[trigger] calls[i] is Stop {
            let i = choose|i: int| 0 <= i < calls.len() && #[trigger] calls[i] is Stop;
            if i < calls.len() - 1 {
                assert(rest[i] is Stop);
            }
        }
    }
}

} // verus!
