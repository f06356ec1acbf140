use steamaudio::ambisonics_channels;
use steamaudio::buffer::{Buffer, SpeakerLayout, SpeakerLayoutSettings};
use steamaudio::effect::{
    AmbisonicsBinauralEffect, AmbisonicsDecodeEffect, AmbisonicsEncodeEffect,
    AmbisonicsPanningEffect, AmbisonicsRotationEffect, AudioSettings, BinauralEffect,
    DirectEffect, Hrtf, HrtfInterpolation, PanningEffect, PathEffect, ReflectionEffect,
    VirtualSurroundEffect,
};
use steamaudio::context::{Context, LogLevel};
use steamaudio::error::{check, Error};
use steamaudio::fmod::{fmod_create_settings, SimulationSettings};
use steamaudio::simulation::{Simulator, Source};

#[test]
fn ambisonics_channels_is_the_square_of_order_plus_one() {
    assert_eq!(ambisonics_channels(0), 1);
    assert_eq!(ambisonics_channels(1), 4);
    assert_eq!(ambisonics_channels(2), 9);
    assert_eq!(ambisonics_channels(3), 16);
    assert_eq!(ambisonics_channels(254), 65025);
}

#[test]
fn check_passes_the_value_on_success() {
    assert_eq!(check(0, 17u8), Ok(17));
    assert_eq!(check(0, "handle"), Ok("handle"));
}

#[test]
fn check_maps_each_status_to_its_error() {
    assert_eq!(check(1, ()), Err(Error::Failure));
    assert_eq!(check(2, ()), Err(Error::OutOfMemory));
    assert_eq!(check(3, ()), Err(Error::Initialization));
}

#[test]
fn errors_describe_themselves() {
    assert_eq!(Error::Failure.to_string(), "An unspecified error occurred.");
    assert_eq!(Error::OutOfMemory.to_string(), "The system ran out of memory.");
    assert_eq!(
        Error::Initialization.to_string(),
        "An error occurred while initializing an external dependency."
    );
}

#[test]
fn fmod_settings_are_the_documented_ones() {
    assert_eq!(
        fmod_create_settings(44100, 1024),
        SimulationSettings {
            flags: 3,
            scene_type: 0,
            reflection_type: 0,
            max_num_occlusion_samples: 8,
            max_num_rays: 4096,
            num_diffuse_samples: 32,
            max_duration_ms: 2000,
            max_order: 1,
            max_num_sources: 8,
            num_threads: 2,
            ray_batch_size: 0,
            num_vis_samples: 0,
            sampling_rate: 44100,
            frame_size: 1024,
        }
    );
}

#[test]
fn fmod_settings_wrap_a_rate_that_does_not_fit() {
    let settings = fmod_create_settings(u32::MAX, 0x8000_0000);
    assert_eq!(settings.sampling_rate, -1);
    assert_eq!(settings.frame_size, i32::MIN);
}

#[test]
fn audio_settings_hold_rate_and_frame_size() {
    assert_eq!(
        AudioSettings::new(48000, 512),
        AudioSettings { sampling_rate: 48000, frame_size: 512 }
    );
}

#[test]
fn audio_settings_fit_buffers_of_their_frame_size_only() {
    let settings = AudioSettings::new(48000, 4);
    assert!(settings.fits(&Buffer::allocate(2, 4, 0.0f32).unwrap()));
    assert!(!settings.fits(&Buffer::allocate(2, 3, 0.0f32).unwrap()));
    assert!(!settings.fits(&Buffer::allocate(2, 5, 0.0f32).unwrap()));
    let wrapped = AudioSettings::new(48000, u32::MAX);
    assert!(!wrapped.fits(&Buffer::allocate(1, 4, 0.0f32).unwrap()));
}

#[test]
fn hrtf_interpolation_codes() {
    assert_eq!(HrtfInterpolation::Nearest.code(), 0);
    assert_eq!(HrtfInterpolation::Bilinear.code(), 1);
}

#[test]
fn hrtf_settings_are_the_default_ones() {
    assert_eq!(
        Hrtf::new(44100, 1024),
        Hrtf {
            audio_settings: AudioSettings { sampling_rate: 44100, frame_size: 1024 },
            kind: 0,
            normalization: 0,
        }
    );
}

#[test]
fn effects_hold_their_settings() {
    let audio_settings = AudioSettings { sampling_rate: 44100, frame_size: 256 };
    let stereo: SpeakerLayout<[f32; 3]> = SpeakerLayout::Stereo;
    let stereo_settings = SpeakerLayoutSettings { kind: 1, speakers: 0 };
    let hrtf = Hrtf::new(44100, 256);
    assert_eq!(
        PanningEffect::new(44100, 256, &stereo),
        PanningEffect { audio_settings, speaker_layout: stereo_settings }
    );
    assert_eq!(BinauralEffect::new(44100, 256, &hrtf), BinauralEffect { audio_settings, hrtf });
    assert_eq!(
        VirtualSurroundEffect::new(44100, 256, &stereo, &hrtf),
        VirtualSurroundEffect { audio_settings, speaker_layout: stereo_settings, hrtf }
    );
    assert_eq!(
        AmbisonicsEncodeEffect::new(44100, 256, 2),
        AmbisonicsEncodeEffect { audio_settings, max_order: 2 }
    );
    assert_eq!(
        AmbisonicsPanningEffect::new(44100, 256, &stereo, 3),
        AmbisonicsPanningEffect { audio_settings, speaker_layout: stereo_settings, max_order: 3 }
    );
    assert_eq!(
        AmbisonicsBinauralEffect::new(44100, 256, &hrtf, 1),
        AmbisonicsBinauralEffect { audio_settings, hrtf, max_order: 1 }
    );
    assert_eq!(
        AmbisonicsRotationEffect::new(44100, 256, 255),
        AmbisonicsRotationEffect { audio_settings, max_order: 255 }
    );
    assert_eq!(
        AmbisonicsDecodeEffect::new(44100, 256, &stereo, &hrtf, 2),
        AmbisonicsDecodeEffect {
            audio_settings,
            speaker_layout: stereo_settings,
            hrtf,
            max_order: 2
        }
    );
    assert_eq!(
        DirectEffect::new(44100, 256, 65535),
        DirectEffect { audio_settings, channels: 65535 }
    );
    assert_eq!(
        ReflectionEffect::new(44100, 256, 9, 88200),
        ReflectionEffect { audio_settings, kind: 0, ir_size: 88200, channels: 9 }
    );
    assert_eq!(PathEffect::new(44100, 256, 2), PathEffect { audio_settings, max_order: 2 });
}

#[test]
fn effects_accept_buffers_of_their_frame_size_only() {
    let effect = DirectEffect::new(44100, 8, 1);
    let good = Buffer::allocate(1, 8, 0.0f32).unwrap();
    let short = Buffer::allocate(1, 7, 0.0f32).unwrap();
    assert!(effect.accepts(&good, &good));
    assert!(!effect.accepts(&good, &short));
    assert!(!effect.accepts(&short, &good));
    let encode = AmbisonicsEncodeEffect::new(44100, 8, 2);
    assert!(encode.accepts(&good, &Buffer::allocate(9, 8, 0.0f32).unwrap()));
    assert!(!encode.accepts(&good, &Buffer::allocate(9, 16, 0.0f32).unwrap()));
}

#[test]
fn effect_flags() {
    assert_eq!(DirectEffect::apply_flags(), 7);
    assert_eq!(AmbisonicsDecodeEffect::binaural_flag(true), 1);
    assert_eq!(AmbisonicsDecodeEffect::binaural_flag(false), 0);
}

#[test]
fn simulator_tracks_reflection_inputs() {
    let mut simulator = Simulator::new();
    assert_eq!(simulator, Simulator { num_rays: 0, num_bounces: 0, order: 0 });
    assert_eq!(simulator.set_listener(), 7);
    assert_eq!(simulator.set_reflections(4096, 16, 2), 2);
    assert_eq!(simulator, Simulator { num_rays: 4096, num_bounces: 16, order: 2 });
}

#[test]
fn source_collects_what_direct_simulation_computes() {
    let mut source = Source::new();
    assert_eq!(source, Source { flags: 0, direct_flags: 0, occlusion_type: 0 });
    assert_eq!(source.set_source(), 7);
    assert_eq!(source.set_distance_attenuation(), 1);
    assert_eq!(source, Source { flags: 1, direct_flags: 1, occlusion_type: 0 });
    assert_eq!(source.set_air_absorption(), 1);
    assert_eq!(source, Source { flags: 1, direct_flags: 3, occlusion_type: 0 });
    assert_eq!(source.set_directivity(), 1);
    assert_eq!(source.direct_flags, 7);
    assert_eq!(source.set_occlusion(), 1);
    assert_eq!(source.direct_flags, 15);
    assert_eq!(source.set_transmission(), 1);
    assert_eq!(source.direct_flags, 31);
    assert_eq!(source.set_reflections(), 1);
    assert_eq!(source, Source { flags: 3, direct_flags: 31, occlusion_type: 0 });
}

#[test]
fn source_setters_are_idempotent() {
    let mut source = Source::new();
    source.set_occlusion();
    let once = source;
    source.set_occlusion();
    assert_eq!(source, once);
}

#[test]
fn context_packs_the_version_into_one_number() {
    assert_eq!(Context::new(4, 1, 2), Context { version: 0x0004_0102, simd_level: 4 });
    assert_eq!(Context::new(0, 0, 0).version, 0);
    assert_eq!(Context::new(1, 2, 3).version, 65536 + 512 + 3);
}

#[test]
fn log_levels_are_told_apart_by_code() {
    assert_eq!(LogLevel::from_code(0), LogLevel::Info);
    assert_eq!(LogLevel::from_code(1), LogLevel::Warning);
    assert_eq!(LogLevel::from_code(2), LogLevel::Error);
    assert_eq!(LogLevel::from_code(3), LogLevel::Debug);
}
