//! Multi-channel audio frames.
//!
//! A [`Buffer`] holds one block of audio: a fixed number of channels, each
//! with the same fixed number of samples, stored channel after channel. It is
//! the unit that a frame processor reads and writes.
//!
//! The buffer never looks inside a sample. It is generic in the sample type,
//! and the value that stands for silence is handed to it where one is needed.

use crate::error::Error;
use std::collections::TryReserveError;
use vstd::prelude::*;

verus! {

/// Whether `frame` has the shape of an audio frame: at least one channel, no
/// more channels or samples than the accessors can report, and every channel
/// of the same length.
pub open spec fn is_frame<T>(frame: Seq<Seq<T>>) -> bool {
    &&& 1 <= frame.len() <= u16::MAX
    &&& frame[0].len() <= u32::MAX
    &&& forall|c: int| 0 <= c < frame.len() ==> (#[trigger] frame[c]).len() == frame[0].len()
}

/// The frame of `channels` channels and `samples` samples per channel in
/// which every sample is `value`.
pub open spec fn uniform_frame<T>(channels: nat, samples: nat, value: T) -> Seq<Seq<T>> {
    Seq::new(channels, |c: int| Seq::new(samples, |i: int| value))
}

/// The sample sequences of nested vectors, row by row.
pub open spec fn rows<T>(data: Seq<Vec<T>>) -> Seq<Seq<T>> {
    Seq::new(data.len(), |c: int| data[c]@)
}

/// Says how an attempt to reserve memory ended: well, or with
/// [`Error::OutOfMemory`].
pub fn reserved(outcome: Result<(), TryReserveError>) -> (result: Result<(), Error>)
    ensures
        outcome is Ok ==> result == Ok::<(), Error>(()),
        outcome is Err ==> result == Err::<(), Error>(Error::OutOfMemory),
{
    match outcome {
        Ok(_) => Ok(()),
        Err(_) => Err(Error::OutOfMemory),
    }
}

/// A non-interleaved block of audio of a fixed shape.
///
/// The channel count and the number of samples per channel are fixed when
/// the buffer is made; afterwards only the samples change.
pub struct Buffer<T> {
    data: Vec<Vec<T>>,
}

impl<T: Copy> Buffer<T> {
    /// The samples, channel by channel: `self@[c][i]` is sample `i` of
    /// channel `c`.
    pub closed spec fn view(&self) -> Seq<Seq<T>> {
        rows(self.data@)
    }

    /// The invariant of the type: the samples form a frame.
    pub open spec fn wf(&self) -> bool {
        is_frame(self@)
    }

    /// The channel count as a specification value.
    pub open spec fn spec_channels(&self) -> nat {
        self@.len()
    }

    /// The number of samples per channel as a specification value.
    pub open spec fn spec_samples(&self) -> nat {
        self@[0].len()
    }

    /// Makes a buffer of `channels` channels and `frame_length` samples per
    /// channel, every sample set to `silence`.
    ///
    /// This fails only where the memory for the samples cannot be had, and
    /// then with [`Error::OutOfMemory`].
    pub fn allocate(channels: u16, frame_length: u32, silence: T) -> (result: Result<Self, Error>)
        requires
            channels >= 1,
        ensures
            result matches Ok(buffer) ==> buffer.wf() && buffer@ == uniform_frame(
                channels as nat,
                frame_length as nat,
                silence,
            ),
            result matches Err(error) ==> error == Error::OutOfMemory,
    {
        let mut data: Vec<Vec<T>> = Vec::new();
        if reserved(data.try_reserve(channels as usize)).is_err() {
            return Err(Error::OutOfMemory);
        }
        let mut c: u16 = 0;
        while c < channels
            invariant
                c <= channels,
                data@.len() == c,
                forall|k: int|
                    0 <= k < c ==> (#[trigger] data@[k])@ == Seq::new(
                        frame_length as nat,
                        |i: int| silence,
                    ),
            decreases channels - c,
        {
            let mut channel: Vec<T> = Vec::new();
            if reserved(channel.try_reserve(frame_length as usize)).is_err() {
                return Err(Error::OutOfMemory);
            }
            let mut i: u32 = 0;
            while i < frame_length
                invariant
                    i <= frame_length,
                    channel@.len() == i,
                    forall|k: int| 0 <= k < i ==> channel@[k] == silence,
                decreases frame_length - i,
            {
                channel.push(silence);
                i = i + 1;
            }
            assert(channel@ =~= Seq::new(frame_length as nat, |i: int| silence));
            data.push(channel);
            c = c + 1;
        }
        let buffer = Buffer { data };
        assert(buffer@ =~= uniform_frame(channels as nat, frame_length as nat, silence));
        Ok(buffer)
    }

    /// Wraps channel data that is already laid out channel by channel.
    ///
    /// The data must have the shape of a frame: at least one channel, all
    /// channels equally long.
    pub fn from(value: Vec<Vec<T>>) -> (buffer: Self)
        requires
            is_frame(rows(value@)),
        ensures
            buffer.wf(),
            buffer@ == rows(value@),
    {
        Buffer { data: value }
    }

    /// The channel data, channel by channel, for reading.
    pub fn data(&self) -> (data: &Vec<Vec<T>>)
        ensures
            rows(data@) == self@,
    {
        &self.data
    }

    /// The number of channels.
    pub fn channels(&self) -> (channels: u16)
        requires
            self.wf(),
        ensures
            channels == self.spec_channels(),
            channels >= 1,
    {
        self.data.len() as u16
    }

    /// The number of samples in each channel.
    pub fn samples(&self) -> (samples: u32)
        requires
            self.wf(),
        ensures
            samples == self.spec_samples(),
    {
        self.data[0].len() as u32
    }

    /// Reads sample `sample_index` of channel `channel_index`.
    pub fn read(&self, channel_index: usize, sample_index: usize) -> (value: T)
        requires
            channel_index < self@.len(),
            sample_index < self@[channel_index as int].len(),
        ensures
            value == self@[channel_index as int][sample_index as int],
    {
        self.data[channel_index][sample_index]
    }

    /// Overwrites sample `sample_index` of channel `channel_index` with
    /// `value`. Every other sample, and the shape, stay as they are.
    pub fn write(&mut self, channel_index: usize, sample_index: usize, value: T)
        requires
            channel_index < old(self)@.len(),
            sample_index < old(self)@[channel_index as int].len(),
        ensures
            final(self)@ == old(self)@.update(
                channel_index as int,
                old(self)@[channel_index as int].update(sample_index as int, value),
            ),
            old(self).wf() ==> final(self).wf(),
    {
        self.data[channel_index][sample_index] = value;
        assert(self@ =~= old(self)@.update(
            channel_index as int,
            old(self)@[channel_index as int].update(sample_index as int, value),
        ));
        assert(old(self).wf() ==> self.wf()) by {
            if old(self).wf() {
                assert forall|c: int| 0 <= c < self@.len() implies (#[trigger] self@[c]).len()
                    == self@[0].len() by {
                    assert(old(self)@[c].len() == old(self)@[0].len());
                }
            }
        }
    }

    /// Overwrites channel `channel_index` with `samples`, which must be as
    /// many as the channel holds. Every other channel, and the shape, stay
    /// as they are.
    pub fn copy_channel_from(&mut self, channel_index: usize, samples: &[T])
        requires
            old(self).wf(),
            channel_index < old(self).spec_channels(),
            samples@.len() == old(self).spec_samples(),
        ensures
            final(self).wf(),
            final(self)@ == old(self)@.update(channel_index as int, samples@),
    {
        let length = samples.len();
        let mut i: usize = 0;
        while i < length
            invariant
                self.wf(),
                self@.len() == old(self)@.len(),
                channel_index < self@.len(),
                length == samples@.len(),
                self@[channel_index as int].len() == length,
                i <= length,
                forall|c: int|
                    0 <= c < self@.len() && c != channel_index ==> #[trigger] self@[c] == old(
                        self,
                    )@[c],
                forall|k: int|
                    0 <= k < i ==> #[trigger] self@[channel_index as int][k] == samples@[k],
            decreases length - i,
        {
            self.write(channel_index, i, samples[i]);
            i = i + 1;
        }
        assert(self@[channel_index as int] =~= samples@);
        assert(self@ =~= old(self)@.update(channel_index as int, samples@));
    }
}

/// The layout code of a single speaker.
pub const SPEAKER_LAYOUT_MONO: u32 = 0;

/// The layout code of a pair of speakers, left and right.
pub const SPEAKER_LAYOUT_STEREO: u32 = 1;

/// The layout code of four speakers.
pub const SPEAKER_LAYOUT_QUADRAPHONIC: u32 = 2;

/// The layout code of a 5.1 surround set.
pub const SPEAKER_LAYOUT_SURROUND_5_1: u32 = 3;

/// The layout code of a 7.1 surround set.
pub const SPEAKER_LAYOUT_SURROUND_7_1: u32 = 4;

/// The layout code of a layout that lists its speakers.
pub const SPEAKER_LAYOUT_CUSTOM: u32 = 5;

/// Describes a standard or custom speaker layout. A custom layout lists the
/// direction of each speaker, in whatever type the caller keeps directions.
pub enum SpeakerLayout<V> {
    /// Mono.
    Mono,
    /// Stereo (left, right).
    Stereo,
    /// Front left, front right, rear left, rear right.
    Quadraphonic,
    /// Front left, front right, front center, LFE, rear left, rear right.
    Surround5_1,
    /// Front left, front right, front center, LFE, rear left, rear right,
    /// side left, side right.
    Surround7_1,
    /// User-defined speaker layout.
    Custom(Vec<V>),
}

/// A speaker layout as the native library takes it: the code of its kind
/// and the number of speakers listed.
#[derive(Debug, Clone, Copy, PartialEq, Eq, Structural)]
pub struct SpeakerLayoutSettings {
    /// The code of the kind of layout.
    pub kind: u32,
    /// The number of speakers that a custom layout lists; zero for a
    /// standard layout, whose speakers the native library knows.
    pub speakers: i32,
}

impl<V> SpeakerLayout<V> {
    /// The layout as the native library takes it.
    pub open spec fn spec_settings(&self) -> SpeakerLayoutSettings {
        match self {
            SpeakerLayout::Mono => SpeakerLayoutSettings { kind: SPEAKER_LAYOUT_MONO, speakers: 0 },
            SpeakerLayout::Stereo => SpeakerLayoutSettings {
                kind: SPEAKER_LAYOUT_STEREO,
                speakers: 0,
            },
            SpeakerLayout::Quadraphonic => SpeakerLayoutSettings {
                kind: SPEAKER_LAYOUT_QUADRAPHONIC,
                speakers: 0,
            },
            SpeakerLayout::Surround5_1 => SpeakerLayoutSettings {
                kind: SPEAKER_LAYOUT_SURROUND_5_1,
                speakers: 0,
            },
            SpeakerLayout::Surround7_1 => SpeakerLayoutSettings {
                kind: SPEAKER_LAYOUT_SURROUND_7_1,
                speakers: 0,
            },
            SpeakerLayout::Custom(speakers) => SpeakerLayoutSettings {
                kind: SPEAKER_LAYOUT_CUSTOM,
                speakers: speakers@.len() as i32,
            },
        }
    }

    /// Returns the layout as the native library takes it. The count of a
    /// custom layout's speakers wraps around where it does not fit, as a
    /// cast does.
    pub fn settings(&self) -> (settings: SpeakerLayoutSettings)
        ensures
            settings == self.spec_settings(),
    {
        match self {
            SpeakerLayout::Mono => SpeakerLayoutSettings { kind: SPEAKER_LAYOUT_MONO, speakers: 0 },
            SpeakerLayout::Stereo => SpeakerLayoutSettings {
                kind: SPEAKER_LAYOUT_STEREO,
                speakers: 0,
            },
            SpeakerLayout::Quadraphonic => SpeakerLayoutSettings {
                kind: SPEAKER_LAYOUT_QUADRAPHONIC,
                speakers: 0,
            },
            SpeakerLayout::Surround5_1 => SpeakerLayoutSettings {
                kind: SPEAKER_LAYOUT_SURROUND_5_1,
                speakers: 0,
            },
            SpeakerLayout::Surround7_1 => SpeakerLayoutSettings {
                kind: SPEAKER_LAYOUT_SURROUND_7_1,
                speakers: 0,
            },
            SpeakerLayout::Custom(speakers) => SpeakerLayoutSettings {
                kind: SPEAKER_LAYOUT_CUSTOM,
                speakers: speakers.len() as i32,
            },
        }
    }
}

} // verus!
