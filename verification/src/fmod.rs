//! The settings with which the FMOD integration runs its simulation.

use crate::effect::REFLECTION_EFFECT_CONVOLUTION;
use crate::simulation::{SIMULATION_FLAGS_DIRECT, SIMULATION_FLAGS_REFLECTIONS};
use vstd::prelude::*;

verus! {

/// The code of the scene type that needs no ray tracer but the built-in
/// one.
pub const SCENE_TYPE_DEFAULT: u32 = 0;

/// The settings of a simulator.
#[derive(Debug, Clone, Copy, PartialEq, Eq, Structural)]
pub struct SimulationSettings {
    /// The kinds of simulation that the simulator will be used for.
    pub flags: u32,
    /// The code of the kind of scene, which selects the ray tracer.
    pub scene_type: u32,
    /// The code of the kind of reflection effect that will render the
    /// simulated reflections.
    pub reflection_type: u32,
    /// The most rays that are traced to find how far a source is occluded.
    pub max_num_occlusion_samples: i32,
    /// The most rays that are traced from the listener.
    pub max_num_rays: i32,
    /// The number of directions that are sampled for a diffuse reflection.
    pub num_diffuse_samples: i32,
    /// The longest impulse response that is simulated, in milliseconds.
    pub max_duration_ms: u32,
    /// The highest ambisonic order of the impulse responses.
    pub max_order: i32,
    /// The most sources for which reflections are simulated.
    pub max_num_sources: i32,
    /// The number of threads that simulate.
    pub num_threads: i32,
    /// The number of rays in a batch handed to a custom ray tracer.
    pub ray_batch_size: i32,
    /// The number of point samples that baking takes in a probe.
    pub num_vis_samples: i32,
    /// Samples per second.
    pub sampling_rate: i32,
    /// Samples per channel and frame.
    pub frame_size: i32,
}

/// The simulation settings of the FMOD integration for the given sampling
/// rate and frame size, as a specification value.
pub open spec fn spec_fmod_create_settings(sampling_rate: u32, frame_size: u32)
    -> SimulationSettings {
    SimulationSettings {
        flags: SIMULATION_FLAGS_DIRECT | SIMULATION_FLAGS_REFLECTIONS,
        scene_type: SCENE_TYPE_DEFAULT,
        reflection_type: REFLECTION_EFFECT_CONVOLUTION,
        max_num_occlusion_samples: 8,
        max_num_rays: 4096,
        num_diffuse_samples: 32,
        max_duration_ms: 2000,
        max_order: 1,
        max_num_sources: 8,
        num_threads: 2,
        ray_batch_size: 0,
        num_vis_samples: 0,
        sampling_rate: sampling_rate as i32,
        frame_size: frame_size as i32,
    }
}

/// Returns the simulation settings of the FMOD integration for the given
/// sampling rate and frame size: direct simulation and reflections, rendered
/// by convolution, in the default scene type, with impulse responses of up
/// to two seconds and first order. A rate or size that does not fit the
/// native integer wraps around, as a cast does.
pub fn fmod_create_settings(sampling_rate: u32, frame_size: u32) -> (settings: SimulationSettings)
    ensures
        settings == spec_fmod_create_settings(sampling_rate, frame_size),
        settings.flags == 3,
{
    assert(1u32 | 2u32 == 3u32) by (bit_vector);
    SimulationSettings {
        flags: SIMULATION_FLAGS_DIRECT | SIMULATION_FLAGS_REFLECTIONS,
        scene_type: SCENE_TYPE_DEFAULT,
        reflection_type: REFLECTION_EFFECT_CONVOLUTION,
        max_num_occlusion_samples: 8,
        max_num_rays: 4096,
        num_diffuse_samples: 32,
        max_duration_ms: 2000,
        max_order: 1,
        max_num_sources: 8,
        num_threads: 2,
        ray_batch_size: 0,
        num_vis_samples: 0,
        sampling_rate: sampling_rate as i32,
        frame_size: frame_size as i32,
    }
}

} // verus!
