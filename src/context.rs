//! The view over one callback's I/O buffers and the block's metadata.

use vstd::prelude::*;

use crate::digital::{
    level, level_bit, moded, moded_once, with_direction, with_level, written, written_once, DigitalDirection,
    PINS,
};

verus! {

/// What the native layer reports about the current block: frame and channel
/// counts, sample rates (in the sample type `S`) and status words.
pub struct FrameInfo<S> {
    pub audio_frames: usize,
    pub audio_in_channels: usize,
    pub audio_out_channels: usize,
    pub audio_sample_rate: S,
    pub analog_frames: usize,
    pub analog_in_channels: usize,
    pub analog_out_channels: usize,
    pub analog_sample_rate: S,
    pub digital_frames: usize,
    pub digital_channels: usize,
    pub digital_sample_rate: S,
    pub audio_frames_elapsed: usize,
    pub multiplexer_channels: usize,
    pub multiplexer_starting_channel: usize,
    pub multiplexer_enabled: u32,
    pub flags: u32,
}

/// The buffers of one block: interleaved samples of type `S`, and one packed
/// port word per digital frame.
pub struct Buffers<S> {
    pub audio_in: Vec<S>,
    pub audio_out: Vec<S>,
    pub analog_in: Vec<S>,
    pub analog_out: Vec<S>,
    pub multiplexer_analog_in: Vec<S>,
    pub digital: Vec<u32>,
}

/// The mathematical content of a [`Context`].
pub struct ContextView<S> {
    pub info: FrameInfo<S>,
    pub audio_in: Seq<S>,
    pub audio_out: Seq<S>,
    pub analog_in: Seq<S>,
    pub analog_out: Seq<S>,
    pub multiplexer_analog_in: Seq<S>,
    pub digital: Seq<u32>,
}

impl<S> ContextView<S> {
    /// Every buffer holds `frames × channels` entries, and the digital buffer
    /// one word per digital frame.
    pub open spec fn wf(self) -> bool {
        &&& self.audio_in.len() == self.info.audio_frames * self.info.audio_in_channels
        &&& self.audio_out.len() == self.info.audio_frames * self.info.audio_out_channels
        &&& self.analog_in.len() == self.info.analog_frames * self.info.analog_in_channels
        &&& self.analog_out.len() == self.info.analog_frames * self.info.analog_out_channels
        &&& self.multiplexer_analog_in.len() == self.info.analog_frames * self.info.multiplexer_channels
        &&& self.digital.len() == self.info.digital_frames
    }
}

/// Whether `buffers` have the sizes that `info` gives them.
pub open spec fn fits<S>(info: FrameInfo<S>, buffers: &Buffers<S>) -> bool {
    ContextView {
        info,
        audio_in: buffers.audio_in@,
        audio_out: buffers.audio_out@,
        analog_in: buffers.analog_in@,
        analog_out: buffers.analog_out@,
        multiplexer_analog_in: buffers.multiplexer_analog_in@,
        digital: buffers.digital@,
    }.wf()
}

/// The I/O buffers and metadata of one render, setup or cleanup call.
///
/// Input buffers are read-only; output buffers and the digital buffer are
/// lent out mutably, one borrow at a time.
pub struct Context<S> {
    info: FrameInfo<S>,
    buffers: Buffers<S>,
}

impl<S> View for Context<S> {
    type V = ContextView<S>;

    closed spec fn view(&self) -> ContextView<S> {
        ContextView {
            info: self.info,
            audio_in: self.buffers.audio_in@,
            audio_out: self.buffers.audio_out@,
            analog_in: self.buffers.analog_in@,
            analog_out: self.buffers.analog_out@,
            multiplexer_analog_in: self.buffers.multiplexer_analog_in@,
            digital: self.buffers.digital@,
        }
    }
}

/// `usize` products that fit, as a check.
fn product_is(a: usize, b: usize, n: usize) -> (r: bool)
    ensures
        r == (a * b == n),
{
    if a == 0 || b == 0 {
        n == 0
    } else if a > n / b {
        proof {
            assert(a * b > n) by (nonlinear_arith)
                requires a > n / b, b > 0, a >= 0, n >= 0;
        }
        false
    } else {
        proof {
            assert(a * b <= n) by (nonlinear_arith)
                requires a <= n / b, b > 0, a >= 0, n >= 0;
        }
        a * b == n
    }
}

impl<S> Context<S> {
    /// Builds the view of one block. `None` where a buffer's size is not the
    /// one that `info` gives it.
    pub fn new(info: FrameInfo<S>, buffers: Buffers<S>) -> (r: Option<Self>)
        ensures
            r is Some <==> fits(info, &buffers),
            r is Some ==> r->0@ == (ContextView {
                info,
                audio_in: buffers.audio_in@,
                audio_out: buffers.audio_out@,
                analog_in: buffers.analog_in@,
                analog_out: buffers.analog_out@,
                multiplexer_analog_in: buffers.multiplexer_analog_in@,
                digital: buffers.digital@,
            }),
    {
        let ok = product_is(info.audio_frames, info.audio_in_channels, buffers.audio_in.len())
            && product_is(info.audio_frames, info.audio_out_channels, buffers.audio_out.len())
            && product_is(info.analog_frames, info.analog_in_channels, buffers.analog_in.len())
            && product_is(info.analog_frames, info.analog_out_channels, buffers.analog_out.len())
            && product_is(
            info.analog_frames,
            info.multiplexer_channels,
            buffers.multiplexer_analog_in.len(),
        ) && info.digital_frames == buffers.digital.len();
        if ok {
            Some(Context { info, buffers })
        } else {
            None
        }
    }

    /// Gives the buffers back, as they are now.
    pub fn into_buffers(self) -> (r: Buffers<S>)
        ensures
            r.audio_in@ == self@.audio_in,
            r.audio_out@ == self@.audio_out,
            r.analog_in@ == self@.analog_in,
            r.analog_out@ == self@.analog_out,
            r.multiplexer_analog_in@ == self@.multiplexer_analog_in,
            r.digital@ == self@.digital,
    {
        self.buffers
    }

    /// The block's metadata.
    pub fn info(&self) -> (r: &FrameInfo<S>)
        ensures
            *r == self@.info,
    {
        &self.info
    }

    /// The number of audio frames in the block.
    pub fn audio_frames(&self) -> (r: usize)
        ensures
            r == self@.info.audio_frames,
    {
        self.info.audio_frames
    }

    /// The number of audio input channels.
    pub fn audio_in_channels(&self) -> (r: usize)
        ensures
            r == self@.info.audio_in_channels,
    {
        self.info.audio_in_channels
    }

    /// The number of audio output channels.
    pub fn audio_out_channels(&self) -> (r: usize)
        ensures
            r == self@.info.audio_out_channels,
    {
        self.info.audio_out_channels
    }

    /// The number of analog frames in the block.
    pub fn analog_frames(&self) -> (r: usize)
        ensures
            r == self@.info.analog_frames,
    {
        self.info.analog_frames
    }

    /// The number of analog input channels.
    pub fn analog_in_channels(&self) -> (r: usize)
        ensures
            r == self@.info.analog_in_channels,
    {
        self.info.analog_in_channels
    }

    /// The number of analog output channels.
    pub fn analog_out_channels(&self) -> (r: usize)
        ensures
            r == self@.info.analog_out_channels,
    {
        self.info.analog_out_channels
    }

    /// The number of digital frames in the block.
    pub fn digital_frames(&self) -> (r: usize)
        ensures
            r == self@.info.digital_frames,
    {
        self.info.digital_frames
    }

    /// The number of digital channels.
    pub fn digital_channels(&self) -> (r: usize)
        ensures
            r == self@.info.digital_channels,
    {
        self.info.digital_channels
    }

    /// The number of audio frames since the audio started.
    pub fn audio_frames_elapsed(&self) -> (r: usize)
        ensures
            r == self@.info.audio_frames_elapsed,
    {
        self.info.audio_frames_elapsed
    }

    /// The number of multiplexer channels.
    pub fn multiplexer_channels(&self) -> (r: usize)
        ensures
            r == self@.info.multiplexer_channels,
    {
        self.info.multiplexer_channels
    }

    /// The multiplexer channel that the block starts at.
    pub fn multiplexer_starting_channels(&self) -> (r: usize)
        ensures
            r == self@.info.multiplexer_starting_channel,
    {
        self.info.multiplexer_starting_channel
    }

    /// Whether the audio expander is enabled, as the native layer reports it.
    pub fn multiplexer_enabled(&self) -> (r: u32)
        ensures
            r == self@.info.multiplexer_enabled,
    {
        self.info.multiplexer_enabled
    }

    /// The native layer's status flags.
    pub fn flags(&self) -> (r: u32)
        ensures
            r == self@.info.flags,
    {
        self.info.flags
    }

    /// The audio output samples, to be written.
    pub fn audio_out(&mut self) -> (r: &mut [S])
        ensures
            r@ == old(self)@.audio_out,
            final(self)@ == (ContextView { audio_out: final(r)@, ..old(self)@ }),
    {
        self.buffers.audio_out.as_mut_slice()
    }

    /// The audio input samples.
    pub fn audio_in(&self) -> (r: &[S])
        ensures
            r@ == self@.audio_in,
    {
        self.buffers.audio_in.as_slice()
    }

    /// The port words, one per digital frame.
    pub fn digital(&self) -> (r: &[u32])
        ensures
            r@ == self@.digital,
    {
        self.buffers.digital.as_slice()
    }

    /// The port words, to be written.
    pub fn digital_mut(&mut self) -> (r: &mut [u32])
        ensures
            r@ == old(self)@.digital,
            final(self)@ == (ContextView { digital: final(r)@, ..old(self)@ }),
    {
        self.buffers.digital.as_mut_slice()
    }

    /// The analog output samples, to be written.
    pub fn analog_out(&mut self) -> (r: &mut [S])
        ensures
            r@ == old(self)@.analog_out,
            final(self)@ == (ContextView { analog_out: final(r)@, ..old(self)@ }),
    {
        self.buffers.analog_out.as_mut_slice()
    }

    /// The analog input samples.
    pub fn analog_in(&self) -> (r: &[S])
        ensures
            r@ == self@.analog_in,
    {
        self.buffers.analog_in.as_slice()
    }

    /// The analog input samples of the multiplexer capelet.
    pub fn multiplexer_analog_in(&self) -> (r: &[S])
        ensures
            r@ == self@.multiplexer_analog_in,
    {
        self.buffers.multiplexer_analog_in.as_slice()
    }

    /// The level of pin `channel` at frame `frame`.
    pub fn digital_read(&self, frame: usize, channel: usize) -> (r: bool)
        requires
            frame < self@.digital.len(),
            channel < PINS,
        ensures
            r == level(self@.digital[frame as int], channel),
    {
        let word = self.buffers.digital[frame];
        let bit = (channel + 16) as u32;
        (word >> bit) & 1 == 1
    }

    /// Sets the level of pin `channel` to `value` from frame `frame` to the
    /// end of the block.
    pub fn digital_write(&mut self, frame: usize, channel: usize, value: bool)
        requires
            frame <= old(self)@.digital.len(),
            channel < PINS,
        ensures
            final(self)@ == (ContextView {
                digital: written(old(self)@.digital, frame as int, channel, value),
                ..old(self)@
            }),
            old(self)@.wf() ==> final(self)@.wf(),
    {
        let mask: u32 = 1u32 << ((channel + 16) as u32);
        let n = self.buffers.digital.len();
        let mut i: usize = frame;
        while i < n
            invariant
                frame <= i <= n,
                n == old(self)@.digital.len(),
                mask == 1u32 << level_bit(channel),
                self@ == (ContextView { digital: self@.digital, ..old(self)@ }),
                self@.digital.len() == n,
                forall|j: int|
                    0 <= j < n ==> #[trigger] self@.digital[j] == (if frame <= j < i {
                        with_level(old(self)@.digital[j], channel, value)
                    } else {
                        old(self)@.digital[j]
                    }),
            decreases n - i,
        {
            let word = self.buffers.digital[i];
            let next = if value {
                word | mask
            } else {
                word & !mask
            };
            self.buffers.digital.set(i, next);
            i += 1;
        }
        assert(self@.digital =~= written(old(self)@.digital, frame as int, channel, value));
    }

    /// Sets the level of pin `channel` to `value` at frame `frame` alone.
    pub fn digital_write_once(&mut self, frame: usize, channel: usize, value: bool)
        requires
            frame < old(self)@.digital.len(),
            channel < PINS,
        ensures
            final(self)@ == (ContextView {
                digital: written_once(old(self)@.digital, frame as int, channel, value),
                ..old(self)@
            }),
            old(self)@.wf() ==> final(self)@.wf(),
    {
        let mask: u32 = 1u32 << ((channel + 16) as u32);
        let word = self.buffers.digital[frame];
        let next = if value {
            word | mask
        } else {
            word & !mask
        };
        self.buffers.digital.set(frame, next);
    }

    /// Sets the direction of pin `channel` to `mode` from frame `frame` to
    /// the end of the block.
    pub fn pin_mode(&mut self, frame: usize, channel: usize, mode: DigitalDirection)
        requires
            frame <= old(self)@.digital.len(),
            channel < PINS,
        ensures
            final(self)@ == (ContextView {
                digital: moded(old(self)@.digital, frame as int, channel, mode),
                ..old(self)@
            }),
            old(self)@.wf() ==> final(self)@.wf(),
    {
        let mask: u32 = 1u32 << (channel as u32);
        let n = self.buffers.digital.len();
        let mut i: usize = frame;
        while i < n
            invariant
                frame <= i <= n,
                n == old(self)@.digital.len(),
                mask == 1u32 << (channel as u32),
                self@ == (ContextView { digital: self@.digital, ..old(self)@ }),
                self@.digital.len() == n,
                forall|j: int|
                    0 <= j < n ==> #[trigger] self@.digital[j] == (if frame <= j < i {
                        with_direction(old(self)@.digital[j], channel, mode)
                    } else {
                        old(self)@.digital[j]
                    }),
            decreases n - i,
        {
            let word = self.buffers.digital[i];
            let next = match mode {
                DigitalDirection::INPUT => word | mask,
                DigitalDirection::OUTPUT => word & !mask,
            };
            self.buffers.digital.set(i, next);
            i += 1;
        }
        assert(self@.digital =~= moded(old(self)@.digital, frame as int, channel, mode));
    }

    /// Sets the direction of pin `channel` to `mode` at frame `frame` alone.
    pub fn pin_mode_once(&mut self, frame: usize, channel: usize, mode: DigitalDirection)
        requires
            frame < old(self)@.digital.len(),
            channel < PINS,
        ensures
            final(self)@ == (ContextView {
                digital: moded_once(old(self)@.digital, frame as int, channel, mode),
                ..old(self)@
            }),
            old(self)@.wf() ==> final(self)@.wf(),
    {
        let mask: u32 = 1u32 << (channel as u32);
        let word = self.buffers.digital[frame];
        let next = match mode {
            DigitalDirection::INPUT => word | mask,
            DigitalDirection::OUTPUT => word & !mask,
        };
        self.buffers.digital.set(frame, next);
    }
}

impl<S: Copy> Context<S> {
    /// The audio sample rate.
    pub fn audio_sample_rate(&self) -> (r: S)
        ensures
            r == self@.info.audio_sample_rate,
    {
        self.info.audio_sample_rate
    }

    /// The analog sample rate.
    pub fn analog_sample_rate(&self) -> (r: S)
        ensures
            r == self@.info.analog_sample_rate,
    {
        self.info.analog_sample_rate
    }

    /// The digital sample rate.
    pub fn digital_sample_rate(&self) -> (r: S)
        ensures
            r == self@.info.digital_sample_rate,
    {
        self.info.digital_sample_rate
    }
}

/// Reading the audio output back after a write through it gives the written
/// sample: [`Context::audio_out`] lends the buffer itself, so what is written
/// at `i` is what the next call returns at `i`, and nothing else moves.
pub proof fn lemma_audio_out_round_trip<S>(before: ContextView<S>, lent: Seq<S>, i: int, x: S)
    requires
        lent == before.audio_out,
        0 <= i < lent.len(),
    ensures
        ({
            let after = ContextView { audio_out: lent.update(i, x), ..before };
            &&& after.audio_out[i] == x
            &&& after.audio_out.len() == before.audio_out.len()
            &&& forall|j: int| 0 <= j < lent.len() && j != i ==> after.audio_out[j] == before.audio_out[j]
            &&& after.digital == before.digital
            &&& after.audio_in == before.audio_in
            &&& before.wf() ==> after.wf()
        }),
{
}

} // verus!
