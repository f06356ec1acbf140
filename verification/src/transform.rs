//! The lazy sample-to-frame adapter.
//!
//! A [`Transform`] wraps an upstream sample stream and a frame processor. On
//! demand it pulls one frame's worth of samples from upstream, distributes
//! them over the channels of its input buffer, pads what is missing with
//! silence, applies the processor, and streams the processed frame out
//! again, sample by sample. Nothing is pulled and nothing is processed
//! before a sample is asked for that needs it.
//!
//! A frame is a block of a fixed number of samples for every channel. A
//! round is one sample of every channel, so a frame holds as many rounds as
//! it has samples per channel. A frame that upstream did not fill is yielded
//! as far as its whole rounds reach; upstream has ended when it has not even
//! one whole round left.

use crate::buffer::Buffer;
use crate::error::Error;
use crate::stream::{FrameProcessor, SampleStream};
use std::time::Duration;
use vstd::prelude::*;

verus! {

/// The input frame that is made of `chunk`, a run of round-robin samples:
/// sample `i * channels + c` of the chunk is sample `i` of channel `c`, and
/// every position that the chunk does not reach holds `silence`.
pub open spec fn loaded_frame<T>(chunk: Seq<T>, channels: nat, samples: nat, silence: T) -> Seq<
    Seq<T>,
> {
    Seq::new(
        channels,
        |c: int|
            Seq::new(
                samples,
                |i: int|
                    if i * channels + c < chunk.len() {
                        chunk[i * channels + c]
                    } else {
                        silence
                    },
            ),
    )
}

/// The first `count` samples of `frame` in stream order: round-robin over
/// its `channels` channels.
pub open spec fn interleaved<T>(frame: Seq<Seq<T>>, channels: nat, count: nat) -> Seq<T> {
    Seq::new(count, |p: int| frame[p % (channels as int)][p / (channels as int)])
}

/// The number of whole rounds in `count` round-robin samples of `channels`
/// channels, a round being one sample of every channel.
pub open spec fn whole_rounds(count: nat, channels: nat) -> nat {
    if channels == 0 {
        0
    } else {
        count / channels
    }
}

/// The smaller of two natural numbers.
pub open spec fn at_most(a: nat, b: nat) -> nat {
    if a <= b {
        a
    } else {
        b
    }
}

/// Places a stream position in the frame: position `i * channels + c`
/// comes before position `round * channels + channel`, with both channels
/// below `channels`, exactly if it does so in the order by round, then by
/// channel.
pub proof fn lemma_position_order(i: int, c: int, round: int, channel: int, channels: int)
    requires
        0 <= c < channels,
        0 <= channel < channels,
    ensures
        (i * channels + c < round * channels + channel) <==> (i < round || (i == round && c
            < channel)),
{
    if i < round {
        assert(i * channels + channels <= round * channels) by (nonlinear_arith)
            requires
                i + 1 <= round,
                0 < channels,
        ;
    } else if i > round {
        assert(round * channels + channels <= i * channels) by (nonlinear_arith)
            requires
                round + 1 <= i,
                0 < channels,
        ;
    }
}

/// Pulls one frame from `input` into `buffer`.
///
/// Up to `buffer.samples() * buffer.channels()` samples are pulled, fewer
/// only if the stream ends first. They are distributed round-robin over the
/// channels, and every position that was not reached is set to `silence`.
/// The result is the number of whole rounds that were pulled, a round being
/// one sample of every channel.
pub fn read_frame<T: Copy, S: SampleStream<T>>(
    input: &mut S,
    buffer: &mut Buffer<T>,
    silence: T,
) -> (rounds: u32)
    requires
        old(input).wf(),
        old(buffer).wf(),
    ensures
        final(input).wf(),
        final(input).spec_channels() == old(input).spec_channels(),
        final(input).spec_sample_rate() == old(input).spec_sample_rate(),
        final(input).spec_total_duration() == old(input).spec_total_duration(),
        final(buffer).wf(),
        final(buffer).spec_channels() == old(buffer).spec_channels(),
        final(buffer).spec_samples() == old(buffer).spec_samples(),
        ({
            let channels = old(buffer).spec_channels();
            let samples = old(buffer).spec_samples();
            let pulled = at_most(old(input).pending().len(), channels * samples);
            &&& final(input).pending() == old(input).pending().skip(pulled as int)
            &&& final(buffer)@ == loaded_frame(
                old(input).pending().take(pulled as int),
                channels,
                samples,
                silence,
            )
            &&& rounds == whole_rounds(pulled, channels)
            &&& rounds <= samples
        }),
{
    let channels: u16 = buffer.channels();
    let samples: u32 = buffer.samples();
    let ghost upstream = input.pending();
    let mut round: u32 = 0;
    let mut channel: u16 = 0;
    let mut exhausted = false;
    while round < samples && !exhausted
        invariant
            input.wf(),
            input.spec_channels() == old(input).spec_channels(),
            input.spec_sample_rate() == old(input).spec_sample_rate(),
            input.spec_total_duration() == old(input).spec_total_duration(),
            buffer.wf(),
            buffer.spec_channels() == channels,
            buffer.spec_samples() == samples,
            channels == old(buffer).spec_channels(),
            samples == old(buffer).spec_samples(),
            upstream == old(input).pending(),
            round <= samples,
            channel < channels,
            round == samples ==> channel == 0,
            round * channels + channel <= upstream.len(),
            input.pending() == upstream.skip(round * channels + channel),
            exhausted ==> round < samples && round * channels + channel == upstream.len(),
            forall|c: int, i: int|
                0 <= c < channels && 0 <= i < samples && (i < round || (i == round && c < channel))
                    ==> #[trigger] buffer@[c][i] == upstream[i * channels + c],
        decreases (if exhausted { 0int } else { 1int }), samples - round, channels - channel,
    {
        let ghost before = buffer@;
        let ghost at = round * channels + channel;
        match input.next() {
            Some(value) => {
                buffer.write(channel as usize, round as usize, value);
                assert(upstream.skip(at).skip(1) =~= upstream.skip(at + 1));
                assert(value == upstream[at]);
                assert forall|c: int, i: int|
                    0 <= c < channels && 0 <= i < samples && (i < round || (i == round && c
                        <= channel)) implies #[trigger] buffer@[c][i] == upstream[i * channels
                    + c] by {
                    if i == round && c == channel {
                    } else {
                        assert(before[c][i] == upstream[i * channels + c]);
                    }
                }
                channel = channel + 1;
                if channel == channels {
                    channel = 0;
                    assert((round + 1) * channels == round * channels + channels)
                        by (nonlinear_arith);
                    round = round + 1;
                }
            },
            None => {
                exhausted = true;
            },
        }
    }
    let rounds = round;
    let ghost pulled = (round * channels + channel) as nat;
    let ghost chunk = upstream.take(pulled as int);
    proof {
        assert(samples * channels == channels * samples) by (nonlinear_arith);
        if !exhausted {
            assert(round * channels == samples * channels);
        } else {
            assert(round * channels + channel <= samples * channels) by (nonlinear_arith)
                requires
                    round < samples,
                    channel < channels,
            ;
        }
        assert(pulled == at_most(upstream.len(), (channels * samples) as nat));
        vstd::arithmetic::div_mod::lemma_fundamental_div_mod_converse(
            pulled as int,
            channels as int,
            round as int,
            channel as int,
        );
        assert forall|c: int, i: int|
            0 <= c < channels && 0 <= i < samples && pulled <= i * channels + c && (i < round || (i
                == round && c < channel)) implies #[trigger] buffer@[c][i] == silence by {
            lemma_position_order(i, c, round as int, channel as int, channels as int);
        }
        assert forall|c: int, i: int|
            0 <= c < channels && 0 <= i < samples && i * channels + c < pulled implies #[trigger] buffer@[c][i]
            == upstream[i * channels + c] by {
            lemma_position_order(i, c, round as int, channel as int, channels as int);
        }
    }
    // What the stream did not reach is silence.
    while round < samples
        invariant
            buffer.wf(),
            buffer.spec_channels() == channels,
            buffer.spec_samples() == samples,
            round <= samples,
            channel < channels,
            round == samples ==> channel == 0,
            pulled <= round * channels + channel,
            pulled <= upstream.len(),
            forall|c: int, i: int|
                0 <= c < channels && 0 <= i < samples && i * channels + c < pulled
                    ==> #[trigger] buffer@[c][i] == upstream[i * channels + c],
            forall|c: int, i: int|
                0 <= c < channels && 0 <= i < samples && pulled <= i * channels + c && (i < round
                    || (i == round && c < channel)) ==> #[trigger] buffer@[c][i] == silence,
        decreases samples - round, channels - channel,
    {
        let ghost before = buffer@;
        buffer.write(channel as usize, round as usize, silence);
        assert forall|c: int, i: int|
            0 <= c < channels && 0 <= i < samples && i * channels + c < pulled implies #[trigger] buffer@[c][i]
            == upstream[i * channels + c] by {
            assert(before[c][i] == upstream[i * channels + c]);
            lemma_position_order(i, c, round as int, channel as int, channels as int);
        }
        assert forall|c: int, i: int|
            0 <= c < channels && 0 <= i < samples && pulled <= i * channels + c && (i < round || (i
                == round && c <= channel)) implies #[trigger] buffer@[c][i] == silence by {
            if i == round && c == channel {
            } else {
                assert(before[c][i] == silence);
            }
        }
        channel = channel + 1;
        if channel == channels {
            channel = 0;
            assert((round + 1) * channels == round * channels + channels) by (nonlinear_arith);
            round = round + 1;
        }
    }
    proof {
        let loaded = loaded_frame(chunk, channels as nat, samples as nat, silence);
        assert(buffer@.len() == loaded.len());
        assert forall|c: int| 0 <= c < channels implies #[trigger] buffer@[c] =~= loaded[c] by {
            assert(buffer@[c].len() == buffer@[0].len());
            assert forall|i: int| 0 <= i < samples implies buffer@[c][i] == loaded[c][i] by {
                if i * channels + c < pulled {
                    assert(buffer@[c][i] == upstream[i * channels + c]);
                } else {
                    assert(i < round || (i == round && c < channel));
                    assert(buffer@[c][i] == silence);
                }
            }
        }
        assert(buffer@ =~= loaded);
    }
    rounds
}

/// The mathematical state of a [`Transform`]: everything that decides which
/// samples it yields and what its processor is shown.
pub struct TransformView<T, P> {
    /// The frame processor, in its current state.
    pub processor: P,
    /// The output frame, as the processor last wrote it.
    pub output: Seq<Seq<T>>,
    /// The number of samples of the current frame, or `None` once the
    /// stream has ended.
    pub frame_size: Option<nat>,
    /// The number of samples of the current frame that were yielded.
    pub position: nat,
    /// The samples that upstream has yet to yield.
    pub upstream: Seq<T>,
    /// The input frames that the processor was shown so far, oldest first.
    pub presented: Seq<Seq<Seq<T>>>,
    /// The number of output channels.
    pub channels: nat,
    /// The number of channels of the upstream.
    pub input_channels: nat,
    /// The number of samples per channel and frame.
    pub frame_length: nat,
    /// The sample that stands for silence.
    pub silence: T,
}

impl<T: Copy, P: FrameProcessor<T>> TransformView<T, P> {
    /// The invariant of the state.
    pub open spec fn wf(self) -> bool {
        &&& self.channels >= 1
        &&& self.input_channels >= 1
        &&& match self.frame_size {
            Some(size) => self.position <= size,
            None => self.position == 0 && self.upstream.len() == 0,
        }
    }

    /// The state before anything was pulled: an empty frame whose successor
    /// is still to be made.
    pub open spec fn is_fresh(self) -> bool {
        &&& self.wf()
        &&& self.frame_size == Some(0nat)
        &&& self.presented.len() == 0
    }

    /// How many samples the next frame takes from upstream: as many as fill
    /// the input frame, or all that are left.
    pub open spec fn pulled(self) -> nat {
        at_most(self.upstream.len(), self.input_channels * self.frame_length)
    }

    /// How many whole rounds of samples the next frame holds.
    pub open spec fn rounds(self) -> nat {
        whole_rounds(self.pulled(), self.input_channels)
    }

    /// The input frame that the processor is shown next.
    pub open spec fn next_input(self) -> Seq<Seq<T>> {
        loaded_frame(
            self.upstream.take(self.pulled() as int),
            self.input_channels,
            self.frame_length,
            self.silence,
        )
    }

    /// The state after the next frame was made. If upstream has not even
    /// one whole round of samples left, the stream has ended. Otherwise the
    /// processor was shown the next input frame, once, and its output is the
    /// current frame.
    pub open spec fn advance(self) -> Self {
        if self.rounds() == 0 {
            TransformView { frame_size: None, position: 0, upstream: Seq::empty(), ..self }
        } else {
            TransformView {
                processor: self.processor.advanced(self.next_input(), self.channels),
                output: self.processor.output(self.next_input(), self.channels),
                frame_size: Some(self.channels * self.rounds()),
                position: 0,
                upstream: self.upstream.skip(self.pulled() as int),
                presented: self.presented.push(self.next_input()),
                ..self
            }
        }
    }

    /// One pull: the sample that is yielded, and the state afterwards.
    ///
    /// While the current frame has samples left, the next of them is
    /// yielded and nothing else changes. When it has none left, the next
    /// frame is made and its first sample is yielded. Once the stream has
    /// ended, nothing is yielded and nothing changes.
    pub open spec fn next(self) -> (Option<T>, Self) {
        match self.frame_size {
            None => (None, self),
            Some(size) => if self.position < size {
                (
                    Some(
                        self.output[(self.position % self.channels) as int][(self.position
                            / self.channels) as int],
                    ),
                    TransformView { position: self.position + 1, ..self },
                )
            } else {
                let made = self.advance();
                match made.frame_size {
                    None => (None, made),
                    Some(_) => (Some(made.output[0][0]), TransformView { position: 1, ..made }),
                }
            },
        }
    }

    /// The samples of the current frame that are yet to be yielded.
    pub open spec fn buffered(self) -> Seq<T> {
        match self.frame_size {
            None => Seq::empty(),
            Some(size) => interleaved(self.output, self.channels, size).skip(self.position as int),
        }
    }

    /// The samples of the frames that are yet to be made.
    pub open spec fn ahead(self) -> Seq<T>
        decreases self.upstream.len(),
    {
        if self.rounds() == 0 {
            Seq::empty()
        } else {
            let made = self.advance();
            interleaved(made.output, self.channels, self.channels * self.rounds()) + made.ahead()
        }
    }

    /// All the samples that are yet to be yielded.
    pub open spec fn pending(self) -> Seq<T> {
        self.buffered() + self.ahead()
    }

    /// The state after `calls` pulls.
    pub open spec fn after(self, calls: nat) -> Self
        decreases calls,
    {
        if calls == 0 {
            self
        } else {
            self.next().1.after((calls - 1) as nat)
        }
    }
}

/// A node of the frame chain.
///
/// The chain is strictly forward: a materialized frame owns the node that
/// follows it, and nothing else does.
pub enum Frame<S> {
    /// A frame that was made: its samples wait in the output buffer.
    Data(FrameData<S>),
    /// The end of the stream: no frame follows.
    End,
    /// A frame that is yet to be made, holding the upstream it will be
    /// pulled from.
    Input(S),
}

/// A materialized frame of the chain.
pub struct FrameData<S> {
    /// The number of samples of the frame, all channels together.
    pub frame_size: u64,
    /// The number of channels of the frame.
    pub channels: u16,
    /// The sample rate of the frame.
    pub sampling_rate: u32,
    /// The node that follows.
    pub next: Box<Frame<S>>,
}

impl<S> Frame<S> {
    /// The number of materialized frames from this node on.
    pub open spec fn depth(&self) -> nat
        decreases self,
    {
        match self {
            Frame::Data(data) => 1 + data.next.depth(),
            _ => 0,
        }
    }

    /// Makes a materialized node whose successor is `next`.
    pub fn data(frame_size: u64, channels: u16, sampling_rate: u32, next: Frame<S>) -> (frame:
        Self)
        ensures
            frame == Frame::Data(
                FrameData { frame_size, channels, sampling_rate, next: Box::new(next) },
            ),
            frame.depth() == 1 + next.depth(),
    {
        Frame::Data(FrameData { frame_size, channels, sampling_rate, next: Box::new(next) })
    }
}

impl<S> Drop for FrameData<S> {
    /// Takes the chain apart node by node.
    ///
    /// Left to itself, releasing a frame would release its successor from
    /// within, and that one its own, as deep as the chain is long. Instead
    /// the frame detaches its successor, becomes it, and lets go of what it
    /// was, which by then has no successor; it repeats this until what
    /// follows is no materialized frame. In the end nothing follows the
    /// frame, so that releasing its fields goes no deeper.
    fn drop(&mut self)
        ensures
            *final(self).next is End,
        opens_invariants none
        no_unwind
    {
        loop
            ensures
                *self.next is End,
            decreases self.next.depth(),
        {
            let mut next = Frame::End;
            std::mem::swap(&mut *self.next, &mut next);
            match next {
                Frame::Data(mut following) => {
                    std::mem::swap(self, &mut following);
                    // What is let go of here is the node that this one was,
                    // and nothing hangs off it any more.
                    assert(*following.next is End);
                },
                _ => {
                    break ;
                },
            }
        }
    }
}

/// The lazy adapter from samples to frames and back.
///
/// It is itself a sample stream, so adapters can be stacked.
pub struct Transform<T, S, P> {
    function: P,
    input_buffer: Buffer<T>,
    output_buffer: Buffer<T>,
    current_frame: Frame<S>,
    position_in_frame: u64,
    sample_rate: u32,
    total_duration: Option<Duration>,
    silence: T,
    presented: Ghost<Seq<Seq<Seq<T>>>>,
}

/// Wraps `input` in an adapter that applies `function` to every frame of
/// `frame_size` samples per channel and yields `output_channels` channels.
///
/// Nothing is pulled from `input` and `function` is not applied before the
/// first sample is asked for. `silence` is the sample that pads a frame
/// which upstream does not fill.
///
/// This fails only where the memory for the two frame buffers cannot be
/// had, and then with [`Error::OutOfMemory`].
pub fn transform<T: Copy, S: SampleStream<T>, P: FrameProcessor<T>>(
    input: S,
    function: P,
    output_channels: u16,
    frame_size: u32,
    silence: T,
) -> (result: Result<Transform<T, S, P>, Error>)
    requires
        input.wf(),
        input.spec_channels() >= 1,
        output_channels >= 1,
        function.accepts(input.spec_channels() as nat, output_channels as nat),
    ensures
        result matches Ok(transform) ==> {
            &&& transform.wf()
            &&& transform@.is_fresh()
            &&& transform@.processor == function
            &&& transform@.upstream == input.pending()
            &&& transform@.channels == output_channels
            &&& transform@.input_channels == input.spec_channels()
            &&& transform@.frame_length == frame_size
            &&& transform@.silence == silence
            &&& transform@.position == 0
            &&& transform@.output == crate::buffer::uniform_frame(
                output_channels as nat,
                frame_size as nat,
                silence,
            )
            &&& transform.spec_channels() == output_channels
            &&& transform.spec_sample_rate() == input.spec_sample_rate()
            &&& transform.spec_total_duration() == input.spec_total_duration()
        },
        result matches Err(error) ==> error == Error::OutOfMemory,
{
    let input_buffer = match Buffer::allocate(input.channels(), frame_size, silence) {
        Ok(buffer) => buffer,
        Err(error) => {
            return Err(error);
        },
    };
    let output_buffer = match Buffer::allocate(output_channels, frame_size, silence) {
        Ok(buffer) => buffer,
        Err(error) => {
            return Err(error);
        },
    };
    let sample_rate = input.sample_rate();
    let total_duration = input.total_duration();
    Ok(
        Transform {
            function,
            input_buffer,
            output_buffer,
            current_frame: Frame::Data(
                FrameData {
                    frame_size: 0,
                    channels: output_channels,
                    sampling_rate: sample_rate,
                    next: Box::new(Frame::Input(input)),
                },
            ),
            position_in_frame: 0,
            sample_rate,
            total_duration,
            silence,
            presented: Ghost(Seq::empty()),
        },
    )
}

impl<T: Copy, S: SampleStream<T>, P: FrameProcessor<T>> Transform<T, S, P> {
    /// The mathematical state of the adapter.
    pub closed spec fn view(&self) -> TransformView<T, P> {
        TransformView {
            processor: self.function,
            output: self.output_buffer@,
            frame_size: match self.current_frame {
                Frame::Data(data) => Some(data.frame_size as nat),
                _ => None,
            },
            position: self.position_in_frame as nat,
            upstream: match self.current_frame {
                Frame::Data(data) => match *data.next {
                    Frame::Input(input) => input.pending(),
                    _ => Seq::empty(),
                },
                _ => Seq::empty(),
            },
            presented: self.presented@,
            channels: self.output_buffer.spec_channels(),
            input_channels: self.input_buffer.spec_channels(),
            frame_length: self.input_buffer.spec_samples(),
            silence: self.silence,
        }
    }

    /// Whether the chain is as the adapter keeps it: the current node is a
    /// materialized frame followed by the frame that is yet to be made, or
    /// it is the end.
    closed spec fn chain_wf(&self) -> bool {
        match self.current_frame {
            Frame::Data(data) => {
                &&& data.channels == self.output_buffer.spec_channels()
                &&& data.sampling_rate == self.sample_rate
                &&& data.frame_size <= self.output_buffer.spec_channels()
                    * self.output_buffer.spec_samples()
                &&& match *data.next {
                    Frame::Input(input) => {
                        &&& input.wf()
                        &&& input.spec_channels() == self.input_buffer.spec_channels()
                    },
                    _ => false,
                }
            },
            Frame::End => true,
            Frame::Input(_) => false,
        }
    }

    /// Makes the next frame and moves on to it.
    ///
    /// One frame is pulled from upstream, unless upstream says that it has
    /// ended. If the frame holds no whole round of samples, the stream has
    /// ended and the processor is left alone. Otherwise the processor is
    /// applied once, to the input frame, and its output becomes the current
    /// frame; what is left of upstream waits in the node that follows.
    ///
    /// The hint of upstream is asked for this one thing only. How much is
    /// pulled does not depend on it: a frame is short only where upstream
    /// ended.
    fn next_frame(&mut self)
        requires
            old(self).wf(),
            old(self)@.frame_size is Some,
        ensures
            final(self).wf(),
            final(self)@ == old(self)@.advance(),
            final(self).spec_channels() == old(self).spec_channels(),
            final(self).spec_sample_rate() == old(self).spec_sample_rate(),
            final(self).spec_total_duration() == old(self).spec_total_duration(),
    {
        let mut next = Frame::End;
        match &mut self.current_frame {
            Frame::Data(data) => {
                std::mem::swap(&mut *data.next, &mut next);
            },
            _ => {},
        }
        let made = match next {
            Frame::Input(mut input) => {
                let ended = match input.current_frame_len() {
                    Some(available) => available == 0,
                    None => false,
                };
                let rounds = if ended {
                    proof {
                        lemma_nothing_ahead_of_nothing(old(self)@);
                    }
                    0
                } else {
                    read_frame(&mut input, &mut self.input_buffer, self.silence)
                };
                if rounds == 0 {
                    Frame::End
                } else {
                    let channels = self.output_buffer.channels();
                    self.function.process(&self.input_buffer, &mut self.output_buffer);
                    proof {
                        self.presented@ = self.presented@.push(self.input_buffer@);
                        assert(channels * rounds <= channels * self.output_buffer.spec_samples())
                            by (nonlinear_arith)
                            requires
                                rounds <= self.output_buffer.spec_samples(),
                        ;
                        assert(channels * rounds <= 0xffff * 0xffff_ffff) by (nonlinear_arith)
                            requires
                                channels <= 0xffff,
                                rounds <= 0xffff_ffff,
                        ;
                    }
                    Frame::Data(
                        FrameData {
                            frame_size: channels as u64 * rounds as u64,
                            channels,
                            sampling_rate: self.sample_rate,
                            next: Box::new(Frame::Input(input)),
                        },
                    )
                }
            },
            other => other,
        };
        self.current_frame = made;
        self.position_in_frame = 0;
    }
}

impl<T: Copy, S: SampleStream<T>, P: FrameProcessor<T>> SampleStream<T> for Transform<T, S, P> {
    /// The invariant of the adapter: its buffers have the shapes they were
    /// made with, its processor accepts them, its chain is as it keeps it,
    /// and its state is well-formed.
    closed spec fn wf(&self) -> bool {
        &&& self.input_buffer.wf()
        &&& self.output_buffer.wf()
        &&& self.input_buffer.spec_samples() == self.output_buffer.spec_samples()
        &&& self.function.accepts(
            self.input_buffer.spec_channels(),
            self.output_buffer.spec_channels(),
        )
        &&& self.chain_wf()
        &&& self@.wf()
    }

    open spec fn pending(&self) -> Seq<T> {
        self@.pending()
    }

    closed spec fn spec_channels(&self) -> u16 {
        self.output_buffer.spec_channels() as u16
    }

    closed spec fn spec_sample_rate(&self) -> u32 {
        self.sample_rate
    }

    closed spec fn spec_total_duration(&self) -> Option<Duration> {
        self.total_duration
    }

    /// The number of output channels, as given when the adapter was made.
    fn channels(&self) -> (channels: u16)
        ensures
            channels == self@.channels,
    {
        self.output_buffer.channels()
    }

    /// The sample rate of upstream, as it was when the adapter was made.
    fn sample_rate(&self) -> (rate: u32) {
        self.sample_rate
    }

    /// The number of samples of the current frame that are yet to be
    /// yielded, where there are any; zero once the stream has ended; and
    /// `None` where the next sample needs a frame that is yet to be made,
    /// or where the count does not fit the result.
    fn current_frame_len(&self) -> (hint: Option<usize>)
        ensures
            hint == (match self@.frame_size {
                None => Some(0usize),
                Some(size) => if self@.position < size && size - self@.position <= usize::MAX {
                    Some((size - self@.position) as usize)
                } else {
                    None
                },
            }),
    {
        match &self.current_frame {
            Frame::Data(data) => {
                let left: u64 = data.frame_size - self.position_in_frame;
                if left > 0 && left <= usize::MAX as u64 {
                    proof {
                        lemma_pending_covers_buffered(self@);
                    }
                    Some(left as usize)
                } else {
                    None
                }
            },
            _ => {
                proof {
                    lemma_pending_of_ended(self@);
                }
                Some(0)
            },
        }
    }

    /// Yields the next sample.
    ///
    /// A sample of the current frame is yielded without any other work.
    /// Only when the current frame has none left is the next frame made,
    /// which pulls from upstream and applies the processor once. Once the
    /// stream has ended, `None` is yielded and nothing changes.
    fn next(&mut self) -> (sample: Option<T>)
        ensures
            (sample, final(self)@) == old(self)@.next(),
            final(self)@.wf(),
    {
        proof {
            lemma_next_yields_pending(self@);
        }
        let frame_size = match &self.current_frame {
            Frame::Data(data) => Some(data.frame_size),
            _ => None,
        };
        match frame_size {
            None => None,
            Some(size) => {
                let channels = self.output_buffer.channels() as u64;
                if self.position_in_frame < size {
                    let position = self.position_in_frame;
                    proof {
                        lemma_position_in_frame(
                            position as int,
                            channels as int,
                            self.output_buffer.spec_samples() as int,
                        );
                    }
                    let sample = self.output_buffer.read(
                        (position % channels) as usize,
                        (position / channels) as usize,
                    );
                    self.position_in_frame = position + 1;
                    Some(sample)
                } else {
                    self.next_frame();
                    match &self.current_frame {
                        Frame::Data(_) => {
                            proof {
                                lemma_made_frame_is_not_empty(old(self)@);
                                let channels = self@.channels;
                                let rounds = old(self)@.rounds();
                                let samples = self.output_buffer.spec_samples();
                                assert(samples >= 1) by (nonlinear_arith)
                                    requires
                                        1 <= channels * rounds,
                                        channels * rounds <= channels * samples,
                                ;
                            }
                            let sample = self.output_buffer.read(0, 0);
                            self.position_in_frame = 1;
                            Some(sample)
                        },
                        _ => None,
                    }
                }
            },
        }
    }

    /// The total duration that upstream reported when the adapter was made.
    fn total_duration(&self) -> (duration: Option<Duration>) {
        self.total_duration
    }
}

/// A position below `channels * samples` lies in channel `position %
/// channels`, at sample `position / channels`, which is below `samples`.
pub proof fn lemma_position_in_frame(position: int, channels: int, samples: int)
    requires
        0 <= position < channels * samples,
        0 < channels,
    ensures
        0 <= position % channels < channels,
        0 <= position / channels < samples,
{
    vstd::arithmetic::div_mod::lemma_fundamental_div_mod(position, channels);
    vstd::arithmetic::div_mod::lemma_mod_bound(position, channels);
    assert(position / channels < samples) by (nonlinear_arith)
        requires
            0 <= position < channels * samples,
            0 < channels,
            position == channels * (position / channels) + position % channels,
            0 <= position % channels,
    ;
    assert(0 <= position / channels) by (nonlinear_arith)
        requires
            0 <= position,
            0 < channels,
            position == channels * (position / channels) + position % channels,
            position % channels < channels,
    ;
}

/// What is buffered is pending: the samples left in the current frame are
/// the first of all the samples yet to be yielded.
pub proof fn lemma_pending_covers_buffered<T: Copy, P: FrameProcessor<T>>(
    view: TransformView<T, P>,
)
    requires
        view.wf(),
    ensures
        view.frame_size matches Some(size) ==> size - view.position <= view.pending().len(),
{
    if view.frame_size is Some {
        assert(view.buffered().len() == view.frame_size->0 - view.position);
    }
}

/// A stream that has ended has nothing pending.
pub proof fn lemma_pending_of_ended<T: Copy, P: FrameProcessor<T>>(view: TransformView<T, P>)
    requires
        view.wf(),
        view.frame_size is None,
    ensures
        view.pending().len() == 0,
{
    lemma_nothing_ahead_of_nothing(view);
}

/// With no upstream sample left, no frame is ahead.
pub proof fn lemma_nothing_ahead_of_nothing<T: Copy, P: FrameProcessor<T>>(
    view: TransformView<T, P>,
)
    requires
        view.input_channels >= 1,
        view.upstream.len() == 0,
    ensures
        view.rounds() == 0,
        view.ahead().len() == 0,
{
    assert(view.pulled() == 0);
    assert(0nat / view.input_channels == 0) by (nonlinear_arith)
        requires
            view.input_channels >= 1,
    ;
}

/// A frame that is made holds at least one sample.
pub proof fn lemma_made_frame_is_not_empty<T: Copy, P: FrameProcessor<T>>(
    view: TransformView<T, P>,
)
    requires
        view.channels >= 1,
        view.rounds() > 0,
    ensures
        view.channels * view.rounds() >= 1,
{
    assert(view.channels * view.rounds() >= 1) by (nonlinear_arith)
        requires
            view.channels >= 1,
            view.rounds() >= 1,
    ;
}

/// A pull yields the first pending sample and leaves the rest pending; with
/// nothing pending it yields nothing and leaves nothing pending. Either way
/// the state stays well-formed.
pub proof fn lemma_next_yields_pending<T: Copy, P: FrameProcessor<T>>(view: TransformView<T, P>)
    requires
        view.wf(),
    ensures
        view.next().1.wf(),
        view.pending().len() > 0 ==> view.next().0 == Some(view.pending()[0])
            && view.next().1.pending() == view.pending().skip(1),
        view.pending().len() == 0 ==> view.next().0 is None && view.next().1.pending().len() == 0,
{
    match view.frame_size {
        None => {
            lemma_nothing_ahead_of_nothing(view);
        },
        Some(size) => {
            let frame = interleaved(view.output, view.channels, size);
            if view.position < size {
                let after = view.next().1;
                assert(after.rounds() == view.rounds());
                assert(after.advance() == view.advance());
                assert(after.ahead() == view.ahead());
                assert(after.buffered() =~= view.buffered().skip(1));
                assert(view.pending()[0] == frame[view.position as int]);
                assert(after.pending() =~= view.pending().skip(1));
            } else {
                assert(view.buffered().len() == 0);
                assert(view.pending() =~= view.ahead());
                let made = view.advance();
                if view.rounds() == 0 {
                    lemma_nothing_ahead_of_nothing(made);
                } else {
                    lemma_made_frame_is_not_empty(view);
                    let count = view.channels * view.rounds();
                    let first = interleaved(made.output, view.channels, count);
                    let after = view.next().1;
                    assert(after == TransformView { position: 1, ..made });
                    assert(after.rounds() == made.rounds());
                    assert(after.advance() == made.advance());
                    assert(after.ahead() == made.ahead());
                    assert(0int % (view.channels as int) == 0 && 0int / (view.channels as int)
                        == 0) by (nonlinear_arith)
                        requires
                            view.channels >= 1,
                    ;
                    assert(first[0] == made.output[0][0]);
                    assert(view.ahead() == first + made.ahead());
                    assert(after.buffered() =~= first.skip(1));
                    assert(after.pending() =~= view.pending().skip(1));
                }
            }
        },
    }
}

} // verus!
