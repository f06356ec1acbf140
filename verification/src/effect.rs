//! The settings of the audio effects.
//!
//! An effect of the native library is made from a handful of integers: the
//! sampling rate and the frame size that it will work at, and what else its
//! kind asks for. The types here hold those integers as the native library
//! takes them. They also say which buffers an effect can be applied to: the
//! native code reads and writes one frame of the size it was made for, so a
//! buffer of another length must never reach it.

use crate::buffer::{Buffer, SpeakerLayout, SpeakerLayoutSettings};
use vstd::prelude::*;

verus! {

/// The sampling rate and frame size that an effect works at, as the native
/// library takes them: signed 32-bit integers.
#[derive(Debug, Clone, Copy, PartialEq, Eq, Structural)]
pub struct AudioSettings {
    /// Samples per second.
    pub sampling_rate: i32,
    /// Samples per channel and frame.
    pub frame_size: i32,
}

impl AudioSettings {
    /// The settings for the given rate and frame length. A value that does
    /// not fit the native integer wraps around, as a cast does.
    pub fn new(sample_rate: u32, frame_length: u32) -> (settings: Self)
        ensures
            settings == (AudioSettings {
                sampling_rate: sample_rate as i32,
                frame_size: frame_length as i32,
            }),
    {
        AudioSettings { sampling_rate: sample_rate as i32, frame_size: frame_length as i32 }
    }

    /// Whether `buffer` holds frames of the size that these settings name.
    pub open spec fn spec_fits<T: Copy>(&self, buffer: &Buffer<T>) -> bool {
        buffer.spec_samples() == self.frame_size
    }

    /// Tells whether `buffer` holds frames of the size that these settings
    /// name. Only such a buffer may be handed to an effect that was made
    /// with them.
    pub fn fits<T: Copy>(&self, buffer: &Buffer<T>) -> (fits: bool)
        requires
            buffer.wf(),
        ensures
            fits == self.spec_fits(buffer),
    {
        self.frame_size >= 0 && buffer.samples() == self.frame_size as u32
    }
}

/// The code of nearest-neighbor HRTF filtering.
pub const HRTF_INTERPOLATION_NEAREST: u32 = 0;

/// The code of bilinear HRTF filtering.
pub const HRTF_INTERPOLATION_BILINEAR: u32 = 1;

/// The code of the HRTF that is built into the native library.
pub const HRTF_TYPE_DEFAULT: u32 = 0;

/// The code for an HRTF whose volume is not normalized.
pub const HRTF_NORM_NONE: u32 = 0;

/// The code of a reflection effect that convolves with the impulse
/// response.
pub const REFLECTION_EFFECT_CONVOLUTION: u32 = 0;

/// The flag that makes a direct effect apply distance attenuation.
pub const DIRECT_EFFECT_APPLY_DISTANCE_ATTENUATION: u32 = 1;

/// The flag that makes a direct effect apply air absorption.
pub const DIRECT_EFFECT_APPLY_AIR_ABSORPTION: u32 = 2;

/// The flag that makes a direct effect apply directivity.
pub const DIRECT_EFFECT_APPLY_DIRECTIVITY: u32 = 4;

/// Techniques for interpolating HRTF data.
///
/// This is used when rendering a point source whose position relative to
/// the listener is not contained in the measured HRTF data.
#[derive(Debug, Clone, Copy, PartialEq, Eq, Structural)]
pub enum HrtfInterpolation {
    /// Nearest-neighbor filtering, i.e., no interpolation.
    Nearest,
    /// Bilinear filtering.
    Bilinear,
}

impl HrtfInterpolation {
    /// The code of the technique in the native library.
    pub open spec fn spec_code(self) -> u32 {
        match self {
            HrtfInterpolation::Nearest => HRTF_INTERPOLATION_NEAREST,
            HrtfInterpolation::Bilinear => HRTF_INTERPOLATION_BILINEAR,
        }
    }

    /// Returns the code of the technique in the native library.
    pub fn code(self) -> (code: u32)
        ensures
            code == self.spec_code(),
    {
        match self {
            HrtfInterpolation::Nearest => HRTF_INTERPOLATION_NEAREST,
            HrtfInterpolation::Bilinear => HRTF_INTERPOLATION_BILINEAR,
        }
    }
}

/// The settings of a head-related transfer function.
#[derive(Debug, Clone, Copy, PartialEq, Eq, Structural)]
pub struct Hrtf {
    /// The rate and frame size that the HRTF is made for.
    pub audio_settings: AudioSettings,
    /// The code of the kind of HRTF.
    pub kind: u32,
    /// The code of the volume normalization.
    pub normalization: u32,
}

impl Hrtf {
    /// The settings of the built-in HRTF, not normalized, for the given rate
    /// and frame size.
    pub fn new(sampling_rate: u32, frame_size: u32) -> (hrtf: Self)
        ensures
            hrtf == (Hrtf {
                audio_settings: AudioSettings {
                    sampling_rate: sampling_rate as i32,
                    frame_size: frame_size as i32,
                },
                kind: HRTF_TYPE_DEFAULT,
                normalization: HRTF_NORM_NONE,
            }),
    {
        Hrtf {
            audio_settings: AudioSettings::new(sampling_rate, frame_size),
            kind: HRTF_TYPE_DEFAULT,
            normalization: HRTF_NORM_NONE,
        }
    }
}

/// Pans a single-channel point source to a multi-channel speaker layout
/// based on the 3D position of the source relative to the listener.
#[derive(Debug, Clone, Copy, PartialEq, Eq, Structural)]
pub struct PanningEffect {
    /// The rate and frame size that the effect works at.
    pub audio_settings: AudioSettings,
    /// The speaker layout that the effect renders to.
    pub speaker_layout: SpeakerLayoutSettings,
}

impl PanningEffect {
    /// The settings of a panning effect.
    pub fn new<V>(sample_rate: u32, frame_length: u32, speaker_layout: &SpeakerLayout<V>) -> (effect: Self)
        ensures
            effect == (PanningEffect {
                audio_settings: AudioSettings {
                    sampling_rate: sample_rate as i32,
                    frame_size: frame_length as i32,
                },
                speaker_layout: speaker_layout.spec_settings(),
            }),
    {
        PanningEffect {
            audio_settings: AudioSettings::new(sample_rate, frame_length),
            speaker_layout: speaker_layout.settings(),
        }
    }

    /// Whether the effect can be applied from `input` to `output`: both
    /// hold frames of the size that the effect was made for.
    pub open spec fn spec_accepts<T: Copy>(&self, input: &Buffer<T>, output: &Buffer<T>) -> bool {
        self.audio_settings.spec_fits(input) && self.audio_settings.spec_fits(output)
    }

    /// Tells whether the effect can be applied from `input` to `output`.
    pub fn accepts<T: Copy>(&self, input: &Buffer<T>, output: &Buffer<T>) -> (accepts: bool)
        requires
            input.wf(),
            output.wf(),
        ensures
            accepts == self.spec_accepts(input, output),
    {
        self.audio_settings.fits(input) && self.audio_settings.fits(output)
    }
}

/// Spatializes a point source using an HRTF, based on the 3D position of
/// the source relative to the listener.
#[derive(Debug, Clone, Copy, PartialEq, Eq, Structural)]
pub struct BinauralEffect {
    /// The rate and frame size that the effect works at.
    pub audio_settings: AudioSettings,
    /// The HRTF that the effect renders with.
    pub hrtf: Hrtf,
}

impl BinauralEffect {
    /// The settings of a binaural effect.
    pub fn new(sample_rate: u32, frame_length: u32, hrtf: &Hrtf) -> (effect: Self)
        ensures
            effect == (BinauralEffect {
                audio_settings: AudioSettings {
                    sampling_rate: sample_rate as i32,
                    frame_size: frame_length as i32,
                },
                hrtf: *hrtf,
            }),
    {
        BinauralEffect {
            audio_settings: AudioSettings::new(sample_rate, frame_length),
            hrtf: *hrtf,
        }
    }

    /// Whether the effect can be applied from `input` to `output`: both
    /// hold frames of the size that the effect was made for.
    pub open spec fn spec_accepts<T: Copy>(&self, input: &Buffer<T>, output: &Buffer<T>) -> bool {
        self.audio_settings.spec_fits(input) && self.audio_settings.spec_fits(output)
    }

    /// Tells whether the effect can be applied from `input` to `output`.
    pub fn accepts<T: Copy>(&self, input: &Buffer<T>, output: &Buffer<T>) -> (accepts: bool)
        requires
            input.wf(),
            output.wf(),
        ensures
            accepts == self.spec_accepts(input, output),
    {
        self.audio_settings.fits(input) && self.audio_settings.fits(output)
    }
}

/// Spatializes multi-channel speaker-based audio using HRTF-based binaural
/// rendering.
#[derive(Debug, Clone, Copy, PartialEq, Eq, Structural)]
pub struct VirtualSurroundEffect {
    /// The rate and frame size that the effect works at.
    pub audio_settings: AudioSettings,
    /// The speaker layout of the audio that the effect takes.
    pub speaker_layout: SpeakerLayoutSettings,
    /// The HRTF that the effect renders with.
    pub hrtf: Hrtf,
}

impl VirtualSurroundEffect {
    /// The settings of a virtual surround effect.
    pub fn new<V>(sample_rate: u32, frame_length: u32, speaker_layout: &SpeakerLayout<V>, hrtf: &Hrtf) -> (effect: Self)
        ensures
            effect == (VirtualSurroundEffect {
                audio_settings: AudioSettings {
                    sampling_rate: sample_rate as i32,
                    frame_size: frame_length as i32,
                },
                speaker_layout: speaker_layout.spec_settings(),
                hrtf: *hrtf,
            }),
    {
        VirtualSurroundEffect {
            audio_settings: AudioSettings::new(sample_rate, frame_length),
            speaker_layout: speaker_layout.settings(),
            hrtf: *hrtf,
        }
    }

    /// Whether the effect can be applied from `input` to `output`: both
    /// hold frames of the size that the effect was made for.
    pub open spec fn spec_accepts<T: Copy>(&self, input: &Buffer<T>, output: &Buffer<T>) -> bool {
        self.audio_settings.spec_fits(input) && self.audio_settings.spec_fits(output)
    }

    /// Tells whether the effect can be applied from `input` to `output`.
    pub fn accepts<T: Copy>(&self, input: &Buffer<T>, output: &Buffer<T>) -> (accepts: bool)
        requires
            input.wf(),
            output.wf(),
        ensures
            accepts == self.spec_accepts(input, output),
    {
        self.audio_settings.fits(input) && self.audio_settings.fits(output)
    }
}

/// Encodes a point source into ambisonics.
#[derive(Debug, Clone, Copy, PartialEq, Eq, Structural)]
pub struct AmbisonicsEncodeEffect {
    /// The rate and frame size that the effect works at.
    pub audio_settings: AudioSettings,
    /// The highest ambisonic order that the effect supports.
    pub max_order: i32,
}

impl AmbisonicsEncodeEffect {
    /// The settings of an ambisonics encode effect.
    pub fn new(sample_rate: u32, frame_length: u32, maximum_order: u8) -> (effect: Self)
        ensures
            effect == (AmbisonicsEncodeEffect {
                audio_settings: AudioSettings {
                    sampling_rate: sample_rate as i32,
                    frame_size: frame_length as i32,
                },
                max_order: maximum_order as i32,
            }),
    {
        AmbisonicsEncodeEffect {
            audio_settings: AudioSettings::new(sample_rate, frame_length),
            max_order: maximum_order as i32,
        }
    }

    /// Whether the effect can be applied from `input` to `output`: both
    /// hold frames of the size that the effect was made for.
    pub open spec fn spec_accepts<T: Copy>(&self, input: &Buffer<T>, output: &Buffer<T>) -> bool {
        self.audio_settings.spec_fits(input) && self.audio_settings.spec_fits(output)
    }

    /// Tells whether the effect can be applied from `input` to `output`.
    pub fn accepts<T: Copy>(&self, input: &Buffer<T>, output: &Buffer<T>) -> (accepts: bool)
        requires
            input.wf(),
            output.wf(),
        ensures
            accepts == self.spec_accepts(input, output),
    {
        self.audio_settings.fits(input) && self.audio_settings.fits(output)
    }
}

/// Renders ambisonic audio by panning it to a standard speaker layout.
#[derive(Debug, Clone, Copy, PartialEq, Eq, Structural)]
pub struct AmbisonicsPanningEffect {
    /// The rate and frame size that the effect works at.
    pub audio_settings: AudioSettings,
    /// The speaker layout that the effect renders to.
    pub speaker_layout: SpeakerLayoutSettings,
    /// The highest ambisonic order that the effect supports.
    pub max_order: i32,
}

impl AmbisonicsPanningEffect {
    /// The settings of an ambisonics panning effect.
    pub fn new<V>(sample_rate: u32, frame_length: u32, speaker_layout: &SpeakerLayout<V>, maximum_order: u8) -> (effect: Self)
        ensures
            effect == (AmbisonicsPanningEffect {
                audio_settings: AudioSettings {
                    sampling_rate: sample_rate as i32,
                    frame_size: frame_length as i32,
                },
                speaker_layout: speaker_layout.spec_settings(),
                max_order: maximum_order as i32,
            }),
    {
        AmbisonicsPanningEffect {
            audio_settings: AudioSettings::new(sample_rate, frame_length),
            speaker_layout: speaker_layout.settings(),
            max_order: maximum_order as i32,
        }
    }

    /// Whether the effect can be applied from `input` to `output`: both
    /// hold frames of the size that the effect was made for.
    pub open spec fn spec_accepts<T: Copy>(&self, input: &Buffer<T>, output: &Buffer<T>) -> bool {
        self.audio_settings.spec_fits(input) && self.audio_settings.spec_fits(output)
    }

    /// Tells whether the effect can be applied from `input` to `output`.
    pub fn accepts<T: Copy>(&self, input: &Buffer<T>, output: &Buffer<T>) -> (accepts: bool)
        requires
            input.wf(),
            output.wf(),
        ensures
            accepts == self.spec_accepts(input, output),
    {
        self.audio_settings.fits(input) && self.audio_settings.fits(output)
    }
}

/// Renders ambisonic audio using HRTF-based binaural rendering.
#[derive(Debug, Clone, Copy, PartialEq, Eq, Structural)]
pub struct AmbisonicsBinauralEffect {
    /// The rate and frame size that the effect works at.
    pub audio_settings: AudioSettings,
    /// The HRTF that the effect renders with.
    pub hrtf: Hrtf,
    /// The highest ambisonic order that the effect supports.
    pub max_order: i32,
}

impl AmbisonicsBinauralEffect {
    /// The settings of an ambisonics binaural effect.
    pub fn new(sample_rate: u32, frame_length: u32, hrtf: &Hrtf, maximum_order: u8) -> (effect: Self)
        ensures
            effect == (AmbisonicsBinauralEffect {
                audio_settings: AudioSettings {
                    sampling_rate: sample_rate as i32,
                    frame_size: frame_length as i32,
                },
                hrtf: *hrtf,
                max_order: maximum_order as i32,
            }),
    {
        AmbisonicsBinauralEffect {
            audio_settings: AudioSettings::new(sample_rate, frame_length),
            hrtf: *hrtf,
            max_order: maximum_order as i32,
        }
    }

    /// Whether the effect can be applied from `input` to `output`: both
    /// hold frames of the size that the effect was made for.
    pub open spec fn spec_accepts<T: Copy>(&self, input: &Buffer<T>, output: &Buffer<T>) -> bool {
        self.audio_settings.spec_fits(input) && self.audio_settings.spec_fits(output)
    }

    /// Tells whether the effect can be applied from `input` to `output`.
    pub fn accepts<T: Copy>(&self, input: &Buffer<T>, output: &Buffer<T>) -> (accepts: bool)
        requires
            input.wf(),
            output.wf(),
        ensures
            accepts == self.spec_accepts(input, output),
    {
        self.audio_settings.fits(input) && self.audio_settings.fits(output)
    }
}

/// Applies a rotation to an ambisonic sound field.
#[derive(Debug, Clone, Copy, PartialEq, Eq, Structural)]
pub struct AmbisonicsRotationEffect {
    /// The rate and frame size that the effect works at.
    pub audio_settings: AudioSettings,
    /// The highest ambisonic order that the effect supports.
    pub max_order: i32,
}

impl AmbisonicsRotationEffect {
    /// The settings of an ambisonics rotation effect.
    pub fn new(sample_rate: u32, frame_length: u32, maximum_order: u8) -> (effect: Self)
        ensures
            effect == (AmbisonicsRotationEffect {
                audio_settings: AudioSettings {
                    sampling_rate: sample_rate as i32,
                    frame_size: frame_length as i32,
                },
                max_order: maximum_order as i32,
            }),
    {
        AmbisonicsRotationEffect {
            audio_settings: AudioSettings::new(sample_rate, frame_length),
            max_order: maximum_order as i32,
        }
    }

    /// Whether the effect can be applied from `input` to `output`: both
    /// hold frames of the size that the effect was made for.
    pub open spec fn spec_accepts<T: Copy>(&self, input: &Buffer<T>, output: &Buffer<T>) -> bool {
        self.audio_settings.spec_fits(input) && self.audio_settings.spec_fits(output)
    }

    /// Tells whether the effect can be applied from `input` to `output`.
    pub fn accepts<T: Copy>(&self, input: &Buffer<T>, output: &Buffer<T>) -> (accepts: bool)
        requires
            input.wf(),
            output.wf(),
        ensures
            accepts == self.spec_accepts(input, output),
    {
        self.audio_settings.fits(input) && self.audio_settings.fits(output)
    }
}

/// Renders ambisonic audio by rotating the sound field and decoding it,
/// to a speaker layout or binaurally.
#[derive(Debug, Clone, Copy, PartialEq, Eq, Structural)]
pub struct AmbisonicsDecodeEffect {
    /// The rate and frame size that the effect works at.
    pub audio_settings: AudioSettings,
    /// The speaker layout that the effect renders to.
    pub speaker_layout: SpeakerLayoutSettings,
    /// The HRTF that the effect renders with.
    pub hrtf: Hrtf,
    /// The highest ambisonic order that the effect supports.
    pub max_order: i32,
}

impl AmbisonicsDecodeEffect {
    /// The settings of an ambisonics decode effect.
    pub fn new<V>(sample_rate: u32, frame_length: u32, speaker_layout: &SpeakerLayout<V>, hrtf: &Hrtf, maximum_order: u8) -> (effect: Self)
        ensures
            effect == (AmbisonicsDecodeEffect {
                audio_settings: AudioSettings {
                    sampling_rate: sample_rate as i32,
                    frame_size: frame_length as i32,
                },
                speaker_layout: speaker_layout.spec_settings(),
                hrtf: *hrtf,
                max_order: maximum_order as i32,
            }),
    {
        AmbisonicsDecodeEffect {
            audio_settings: AudioSettings::new(sample_rate, frame_length),
            speaker_layout: speaker_layout.settings(),
            hrtf: *hrtf,
            max_order: maximum_order as i32,
        }
    }

    /// Whether the effect can be applied from `input` to `output`: both
    /// hold frames of the size that the effect was made for.
    pub open spec fn spec_accepts<T: Copy>(&self, input: &Buffer<T>, output: &Buffer<T>) -> bool {
        self.audio_settings.spec_fits(input) && self.audio_settings.spec_fits(output)
    }

    /// Tells whether the effect can be applied from `input` to `output`.
    pub fn accepts<T: Copy>(&self, input: &Buffer<T>, output: &Buffer<T>) -> (accepts: bool)
        requires
            input.wf(),
            output.wf(),
        ensures
            accepts == self.spec_accepts(input, output),
    {
        self.audio_settings.fits(input) && self.audio_settings.fits(output)
    }
}

/// Filters and attenuates an audio signal based on what a simulation
/// found for the direct path from source to listener.
#[derive(Debug, Clone, Copy, PartialEq, Eq, Structural)]
pub struct DirectEffect {
    /// The rate and frame size that the effect works at.
    pub audio_settings: AudioSettings,
    /// The number of channels that the effect works on.
    pub channels: i32,
}

impl DirectEffect {
    /// The settings of a direct effect.
    pub fn new(sample_rate: u32, frame_length: u32, channels: u16) -> (effect: Self)
        ensures
            effect == (DirectEffect {
                audio_settings: AudioSettings {
                    sampling_rate: sample_rate as i32,
                    frame_size: frame_length as i32,
                },
                channels: channels as i32,
            }),
    {
        DirectEffect {
            audio_settings: AudioSettings::new(sample_rate, frame_length),
            channels: channels as i32,
        }
    }

    /// Whether the effect can be applied from `input` to `output`: both
    /// hold frames of the size that the effect was made for.
    pub open spec fn spec_accepts<T: Copy>(&self, input: &Buffer<T>, output: &Buffer<T>) -> bool {
        self.audio_settings.spec_fits(input) && self.audio_settings.spec_fits(output)
    }

    /// Tells whether the effect can be applied from `input` to `output`.
    pub fn accepts<T: Copy>(&self, input: &Buffer<T>, output: &Buffer<T>) -> (accepts: bool)
        requires
            input.wf(),
            output.wf(),
        ensures
            accepts == self.spec_accepts(input, output),
    {
        self.audio_settings.fits(input) && self.audio_settings.fits(output)
    }
}

/// Applies the result of a reflection simulation to an audio signal by
/// convolution.
#[derive(Debug, Clone, Copy, PartialEq, Eq, Structural)]
pub struct ReflectionEffect {
    /// The rate and frame size that the effect works at.
    pub audio_settings: AudioSettings,
    /// The code of the kind of reflection effect.
    pub kind: u32,
    /// The length of the impulse response, in samples.
    pub ir_size: i32,
    /// The number of channels that the effect works on.
    pub channels: i32,
}

impl ReflectionEffect {
    /// The settings of a convolution reflection effect whose impulse response
    /// is `ir_size` samples long.
    pub fn new(sample_rate: u32, frame_length: u32, channels: u16, ir_size: i32) -> (effect: Self)
        ensures
            effect == (ReflectionEffect {
                audio_settings: AudioSettings {
                    sampling_rate: sample_rate as i32,
                    frame_size: frame_length as i32,
                },
                kind: REFLECTION_EFFECT_CONVOLUTION,
                ir_size: ir_size,
                channels: channels as i32,
            }),
    {
        ReflectionEffect {
            audio_settings: AudioSettings::new(sample_rate, frame_length),
            kind: REFLECTION_EFFECT_CONVOLUTION,
            ir_size: ir_size,
            channels: channels as i32,
        }
    }

    /// Whether the effect can be applied from `input` to `output`: both
    /// hold frames of the size that the effect was made for.
    pub open spec fn spec_accepts<T: Copy>(&self, input: &Buffer<T>, output: &Buffer<T>) -> bool {
        self.audio_settings.spec_fits(input) && self.audio_settings.spec_fits(output)
    }

    /// Tells whether the effect can be applied from `input` to `output`.
    pub fn accepts<T: Copy>(&self, input: &Buffer<T>, output: &Buffer<T>) -> (accepts: bool)
        requires
            input.wf(),
            output.wf(),
        ensures
            accepts == self.spec_accepts(input, output),
    {
        self.audio_settings.fits(input) && self.audio_settings.fits(output)
    }
}

/// Applies the result of a pathing simulation to an audio signal.
#[derive(Debug, Clone, Copy, PartialEq, Eq, Structural)]
pub struct PathEffect {
    /// The rate and frame size that the effect works at.
    pub audio_settings: AudioSettings,
    /// The highest ambisonic order that the effect supports.
    pub max_order: i32,
}

impl PathEffect {
    /// The settings of a path effect.
    pub fn new(sample_rate: u32, frame_length: u32, maximum_order: u8) -> (effect: Self)
        ensures
            effect == (PathEffect {
                audio_settings: AudioSettings {
                    sampling_rate: sample_rate as i32,
                    frame_size: frame_length as i32,
                },
                max_order: maximum_order as i32,
            }),
    {
        PathEffect {
            audio_settings: AudioSettings::new(sample_rate, frame_length),
            max_order: maximum_order as i32,
        }
    }

    /// Whether the effect can be applied from `input` to `output`: both
    /// hold frames of the size that the effect was made for.
    pub open spec fn spec_accepts<T: Copy>(&self, input: &Buffer<T>, output: &Buffer<T>) -> bool {
        self.audio_settings.spec_fits(input) && self.audio_settings.spec_fits(output)
    }

    /// Tells whether the effect can be applied from `input` to `output`.
    pub fn accepts<T: Copy>(&self, input: &Buffer<T>, output: &Buffer<T>) -> (accepts: bool)
        requires
            input.wf(),
            output.wf(),
        ensures
            accepts == self.spec_accepts(input, output),
    {
        self.audio_settings.fits(input) && self.audio_settings.fits(output)
    }
}

impl AmbisonicsDecodeEffect {
    /// The native flag for the `binaural` parameter of an application of
    /// the effect: one to decode binaurally, zero to decode to the speaker
    /// layout.
    pub fn binaural_flag(binaural: bool) -> (flag: u32)
        ensures
            flag == (if binaural {
                1u32
            } else {
                0u32
            }),
    {
        if binaural {
            1
        } else {
            0
        }
    }
}

impl DirectEffect {
    /// The flags with which the effect is applied: distance attenuation,
    /// air absorption and directivity, and nothing else.
    pub fn apply_flags() -> (flags: u32)
        ensures
            flags == DIRECT_EFFECT_APPLY_DISTANCE_ATTENUATION | DIRECT_EFFECT_APPLY_AIR_ABSORPTION
                | DIRECT_EFFECT_APPLY_DIRECTIVITY,
            flags == 7,
    {
        assert(1u32 | 2u32 | 4u32 == 7u32) by (bit_vector);
        DIRECT_EFFECT_APPLY_DISTANCE_ATTENUATION | DIRECT_EFFECT_APPLY_AIR_ABSORPTION
            | DIRECT_EFFECT_APPLY_DIRECTIVITY
    }
}

} // verus!
