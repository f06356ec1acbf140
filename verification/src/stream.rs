//! The two interfaces that the frame adapter stands between: the per-sample
//! stream that it consumes and produces, and the frame processor that it
//! applies to every frame.
//!
//! Both are described by what they do to a mathematical model. A stream is
//! modelled by the sequence of samples that it has yet to yield, so the model
//! covers streams of any length that end; a processor is modelled by the
//! frame that it writes and the state in which it is left, both as functions
//! of its state and of the frame that it was given.
//!
//! The model of an implementation is given by the specification functions of
//! the trait. Each of them has a default that says nothing, so that code
//! which is not verified can implement a trait by its executable methods
//! alone. Of such an implementation nothing is known: what is proved of an
//! adapter holds of it as far as it behaves as some model says.

use crate::buffer::Buffer;
use std::time::Duration;
use vstd::prelude::*;

verus! {

/// A pull-based stream of audio samples.
///
/// A multi-channel stream yields its samples round-robin: channel 0, channel
/// 1, ..., then channel 0 again. Channel count and sample rate are fixed for
/// the lifetime of the stream. A stream that has ended stays ended.
pub trait SampleStream<T: Copy>: Sized {
    /// The invariant of the implementing type.
    open spec fn wf(&self) -> bool {
        arbitrary()
    }

    /// The samples that the stream has yet to yield, in order.
    open spec fn pending(&self) -> Seq<T> {
        arbitrary()
    }

    /// The channel count.
    open spec fn spec_channels(&self) -> u16 {
        arbitrary()
    }

    /// The sample rate.
    open spec fn spec_sample_rate(&self) -> u32 {
        arbitrary()
    }

    /// The advisory total duration.
    open spec fn spec_total_duration(&self) -> Option<Duration> {
        arbitrary()
    }

    /// The number of channels.
    fn channels(&self) -> (channels: u16)
        requires
            self.wf(),
        ensures
            channels == self.spec_channels(),
    ;

    /// The number of samples per second and channel.
    fn sample_rate(&self) -> (rate: u32)
        requires
            self.wf(),
        ensures
            rate == self.spec_sample_rate(),
    ;

    /// A hint on how many samples can be pulled right away. `None` means
    /// that the stream cannot tell. A count that is given is available, and
    /// a count of zero is given only by a stream that has ended.
    fn current_frame_len(&self) -> (hint: Option<usize>)
        requires
            self.wf(),
        ensures
            hint matches Some(n) ==> n <= self.pending().len() && (n == 0 ==> self.pending().len()
                == 0),
    ;

    /// Pulls one sample: the first pending one, which then is no longer
    /// pending. A stream that has nothing pending yields `None` and stays as
    /// it is, so that it yields `None` ever after.
    fn next(&mut self) -> (sample: Option<T>)
        requires
            old(self).wf(),
        ensures
            final(self).wf(),
            final(self).spec_channels() == old(self).spec_channels(),
            final(self).spec_sample_rate() == old(self).spec_sample_rate(),
            final(self).spec_total_duration() == old(self).spec_total_duration(),
            old(self).pending().len() > 0 ==> sample == Some(old(self).pending()[0])
                && final(self).pending() == old(self).pending().skip(1),
            old(self).pending().len() == 0 ==> sample is None && final(self).pending() == old(
                self,
            ).pending(),
    ;

    /// The advisory total duration of the stream.
    fn total_duration(&self) -> (duration: Option<Duration>)
        requires
            self.wf(),
        ensures
            duration == self.spec_total_duration(),
    ;
}

/// A transformation applied to one frame at a time.
///
/// A processor overwrites every sample of the output that it is given, and
/// never changes the shape of the output. It may keep state from one frame
/// to the next.
pub trait FrameProcessor<T: Copy>: Sized {
    /// Whether the processor can be applied to an input of
    /// `input_channels` channels and an output of `output_channels`.
    open spec fn accepts(&self, input_channels: nat, output_channels: nat) -> bool {
        arbitrary()
    }

    /// The frame that the processor writes when it is given `input` and an
    /// output buffer of `output_channels` channels.
    open spec fn output(&self, input: Seq<Seq<T>>, output_channels: nat) -> Seq<Seq<T>> {
        arbitrary()
    }

    /// The processor after it has processed `input`.
    open spec fn advanced(&self, input: Seq<Seq<T>>, output_channels: nat) -> Self {
        arbitrary()
    }

    /// Processes one frame: reads `input` and overwrites every sample of
    /// `output`, whose shape stays as it is.
    fn process(&mut self, input: &Buffer<T>, output: &mut Buffer<T>)
        requires
            input.wf(),
            old(output).wf(),
            input.spec_samples() == old(output).spec_samples(),
            old(self).accepts(input.spec_channels(), old(output).spec_channels()),
        ensures
            final(output).wf(),
            final(output).spec_channels() == old(output).spec_channels(),
            final(output).spec_samples() == old(output).spec_samples(),
            final(output)@ == old(self).output(input@, old(output).spec_channels()),
            *final(self) == old(self).advanced(input@, old(output).spec_channels()),
            final(self).accepts(input.spec_channels(), old(output).spec_channels()),
    ;
}

/// A finite stream over samples held in memory.
pub struct Samples<T> {
    data: Vec<T>,
    position: usize,
    channels: u16,
    sample_rate: u32,
}

impl<T: Copy> Samples<T> {
    /// Makes a stream that yields `data` from its first sample to its last.
    pub fn new(channels: u16, sample_rate: u32, data: Vec<T>) -> (stream: Self)
        ensures
            stream.wf(),
            stream.pending() == data@,
            stream.spec_channels() == channels,
            stream.spec_sample_rate() == sample_rate,
            stream.spec_total_duration() == None::<Duration>,
    {
        let stream = Samples { data, position: 0, channels, sample_rate };
        assert(stream.data@.skip(0) =~= stream.data@);
        stream
    }
}

impl<T: Copy> SampleStream<T> for Samples<T> {
    closed spec fn wf(&self) -> bool {
        self.position <= self.data@.len()
    }

    closed spec fn pending(&self) -> Seq<T> {
        self.data@.skip(self.position as int)
    }

    closed spec fn spec_channels(&self) -> u16 {
        self.channels
    }

    closed spec fn spec_sample_rate(&self) -> u32 {
        self.sample_rate
    }

    closed spec fn spec_total_duration(&self) -> Option<Duration> {
        None
    }

    fn channels(&self) -> (channels: u16) {
        self.channels
    }

    fn sample_rate(&self) -> (rate: u32) {
        self.sample_rate
    }

    fn current_frame_len(&self) -> (hint: Option<usize>)
        ensures
            hint == Some((self.pending().len()) as usize),
    {
        Some(self.data.len() - self.position)
    }

    fn next(&mut self) -> (sample: Option<T>) {
        if self.position < self.data.len() {
            let value = self.data[self.position];
            self.position = self.position + 1;
            assert(self.pending() =~= old(self).pending().skip(1));
            Some(value)
        } else {
            None
        }
    }

    fn total_duration(&self) -> (duration: Option<Duration>) {
        None
    }
}

/// The processor that copies its input to its output, sample for sample.
/// It applies where input and output have the same number of channels.
pub struct Passthrough;

impl<T: Copy> FrameProcessor<T> for Passthrough {
    open spec fn accepts(&self, input_channels: nat, output_channels: nat) -> bool {
        input_channels == output_channels
    }

    open spec fn output(&self, input: Seq<Seq<T>>, output_channels: nat) -> Seq<Seq<T>> {
        input
    }

    open spec fn advanced(&self, input: Seq<Seq<T>>, output_channels: nat) -> Self {
        *self
    }

    fn process(&mut self, input: &Buffer<T>, output: &mut Buffer<T>) {
        let channels: u16 = input.channels();
        let samples: u32 = input.samples();
        let mut c: u16 = 0;
        while c < channels
            invariant
                input.wf(),
                output.wf(),
                channels == input.spec_channels(),
                samples == input.spec_samples(),
                output.spec_channels() == channels,
                output.spec_samples() == samples,
                c <= channels,
                forall|k: int| 0 <= k < c ==> #[trigger] output@[k] == input@[k],
            decreases channels - c,
        {
            let mut i: u32 = 0;
            while i < samples
                invariant
                    input.wf(),
                    output.wf(),
                    channels == input.spec_channels(),
                    samples == input.spec_samples(),
                    output.spec_channels() == channels,
                    output.spec_samples() == samples,
                    c < channels,
                    i <= samples,
                    forall|k: int| 0 <= k < c ==> #[trigger] output@[k] == input@[k],
                    forall|j: int| 0 <= j < i ==> #[trigger] output@[c as int][j] == input@[c as int][j],
                decreases samples - i,
            {
                let value = input.read(c as usize, i as usize);
                output.write(c as usize, i as usize, value);
                i = i + 1;
            }
            assert(output@[c as int] =~= input@[c as int]);
            c = c + 1;
        }
        assert(output@ =~= input@);
    }
}

} // verus!
