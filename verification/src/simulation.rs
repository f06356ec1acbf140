//! The inputs of a sound propagation simulation.
//!
//! The native simulator keeps, for itself and for every source, a record of
//! inputs, and is told with a set of flags which part of a record has
//! changed. The types here hold the integer part of those records, and
//! every setter returns the flags with which the native simulator is to be
//! told of the change.

use vstd::prelude::*;

verus! {

/// The flag of direct simulation.
pub const SIMULATION_FLAGS_DIRECT: u32 = 1;

/// The flag of reflection simulation.
pub const SIMULATION_FLAGS_REFLECTIONS: u32 = 2;

/// The flag of pathing simulation.
pub const SIMULATION_FLAGS_PATHING: u32 = 4;

/// The flag that enables distance attenuation in direct simulation.
pub const DIRECT_SIMULATION_DISTANCE_ATTENUATION: u32 = 1;

/// The flag that enables air absorption in direct simulation.
pub const DIRECT_SIMULATION_AIR_ABSORPTION: u32 = 2;

/// The flag that enables directivity in direct simulation.
pub const DIRECT_SIMULATION_DIRECTIVITY: u32 = 4;

/// The flag that enables occlusion in direct simulation.
pub const DIRECT_SIMULATION_OCCLUSION: u32 = 8;

/// The flag that enables transmission in direct simulation.
pub const DIRECT_SIMULATION_TRANSMISSION: u32 = 16;

/// The code of occlusion found by tracing a single ray.
pub const OCCLUSION_TYPE_RAYCAST: u32 = 0;

/// The inputs that a simulator shares between its sources, as far as they
/// are integers.
#[derive(Debug, Clone, Copy, PartialEq, Eq, Structural)]
pub struct Simulator {
    /// The number of rays to trace from the listener.
    pub num_rays: i32,
    /// The number of times each ray is reflected.
    pub num_bounces: i32,
    /// The ambisonic order of the impulse responses.
    pub order: i32,
}

impl Simulator {
    /// The shared inputs of a simulator that was just made: all zero.
    pub fn new() -> (simulator: Self)
        ensures
            simulator == (Simulator { num_rays: 0, num_bounces: 0, order: 0 }),
    {
        Simulator { num_rays: 0, num_bounces: 0, order: 0 }
    }

    /// Returns the flags with which the native simulator is told of a new
    /// listener: the listener matters to direct simulation, to reflections
    /// and to pathing.
    pub fn set_listener(&self) -> (flags: u32)
        ensures
            flags == SIMULATION_FLAGS_DIRECT | SIMULATION_FLAGS_REFLECTIONS
                | SIMULATION_FLAGS_PATHING,
            flags == 7,
    {
        assert(1u32 | 2u32 | 4u32 == 7u32) by (bit_vector);
        SIMULATION_FLAGS_DIRECT | SIMULATION_FLAGS_REFLECTIONS | SIMULATION_FLAGS_PATHING
    }

    /// Sets how reflections are simulated: the number of rays, the number
    /// of bounces and the ambisonic order. Returns the flags with which the
    /// native simulator is told of the change, which are those of
    /// reflection simulation. A count that does not fit the native integer
    /// wraps around, as a cast does.
    pub fn set_reflections(&mut self, rays: u32, bounces: u32, order: u8) -> (flags: u32)
        ensures
            *final(self) == (Simulator {
                num_rays: rays as i32,
                num_bounces: bounces as i32,
                order: order as i32,
            }),
            flags == SIMULATION_FLAGS_REFLECTIONS,
    {
        self.num_rays = rays as i32;
        self.num_bounces = bounces as i32;
        self.order = order as i32;
        SIMULATION_FLAGS_REFLECTIONS
    }
}

/// The inputs of one sound source of a simulation, as far as they are
/// integers: which kinds of simulation the source takes part in, and what
/// direct simulation computes for it.
#[derive(Debug, Clone, Copy, PartialEq, Eq, Structural)]
pub struct Source {
    /// The kinds of simulation that the source takes part in.
    pub flags: u32,
    /// What direct simulation computes for the source.
    pub direct_flags: u32,
    /// The code of the way in which occlusion is found.
    pub occlusion_type: u32,
}

impl Source {
    /// The inputs of a source that was just made: it takes part in nothing.
    pub fn new() -> (source: Self)
        ensures
            source == (Source { flags: 0, direct_flags: 0, occlusion_type: 0 }),
    {
        Source { flags: 0, direct_flags: 0, occlusion_type: 0 }
    }

    /// Whether direct simulation computes for the source all that `flag`
    /// names.
    pub open spec fn computes(&self, flag: u32) -> bool {
        self.direct_flags & flag == flag
    }

    /// Returns the flags with which the native simulator is told of a new
    /// position and orientation of the source, which matter to direct
    /// simulation, to reflections and to pathing.
    pub fn set_source(&self) -> (flags: u32)
        ensures
            flags == SIMULATION_FLAGS_DIRECT | SIMULATION_FLAGS_REFLECTIONS
                | SIMULATION_FLAGS_PATHING,
            flags == 7,
    {
        assert(1u32 | 2u32 | 4u32 == 7u32) by (bit_vector);
        SIMULATION_FLAGS_DIRECT | SIMULATION_FLAGS_REFLECTIONS | SIMULATION_FLAGS_PATHING
    }

    /// Turns on, in direct simulation, what `flag` names, and with it
    /// direct simulation itself. What was on stays on.
    fn enable_direct(&mut self, flag: u32)
        ensures
            final(self).flags == old(self).flags | SIMULATION_FLAGS_DIRECT,
            final(self).direct_flags == old(self).direct_flags | flag,
            final(self).occlusion_type == old(self).occlusion_type,
            final(self).computes(flag),
            forall|other: u32| old(self).computes(other) ==> final(self).computes(other),
    {
        let ghost before = self.direct_flags;
        self.flags = self.flags | SIMULATION_FLAGS_DIRECT;
        self.direct_flags = self.direct_flags | flag;
        assert((before | flag) & flag == flag) by (bit_vector);
        assert forall|other: u32| before & other == other implies (before | flag) & other
            == other by {
            assert(before & other == other ==> (before | flag) & other == other) by (bit_vector);
        }
    }

    /// Applies frequency-independent distance attenuation. Returns the
    /// flags with which the native simulator is told of the change.
    pub fn set_distance_attenuation(&mut self) -> (flags: u32)
        ensures
            final(self).flags == old(self).flags | SIMULATION_FLAGS_DIRECT,
            final(self).direct_flags == old(self).direct_flags
                | DIRECT_SIMULATION_DISTANCE_ATTENUATION,
            final(self).occlusion_type == old(self).occlusion_type,
            final(self).computes(DIRECT_SIMULATION_DISTANCE_ATTENUATION),
            forall|other: u32| old(self).computes(other) ==> final(self).computes(other),
            flags == SIMULATION_FLAGS_DIRECT,
    {
        self.enable_direct(DIRECT_SIMULATION_DISTANCE_ATTENUATION);
        SIMULATION_FLAGS_DIRECT
    }

    /// Applies frequency-dependent air absorption as a function of
    /// distance. Returns the flags with which the native simulator is told
    /// of the change.
    pub fn set_air_absorption(&mut self) -> (flags: u32)
        ensures
            final(self).flags == old(self).flags | SIMULATION_FLAGS_DIRECT,
            final(self).direct_flags == old(self).direct_flags | DIRECT_SIMULATION_AIR_ABSORPTION,
            final(self).occlusion_type == old(self).occlusion_type,
            final(self).computes(DIRECT_SIMULATION_AIR_ABSORPTION),
            forall|other: u32| old(self).computes(other) ==> final(self).computes(other),
            flags == SIMULATION_FLAGS_DIRECT,
    {
        self.enable_direct(DIRECT_SIMULATION_AIR_ABSORPTION);
        SIMULATION_FLAGS_DIRECT
    }

    /// Applies attenuation due to the directivity pattern of the source.
    /// Returns the flags with which the native simulator is told of the
    /// change.
    pub fn set_directivity(&mut self) -> (flags: u32)
        ensures
            final(self).flags == old(self).flags | SIMULATION_FLAGS_DIRECT,
            final(self).direct_flags == old(self).direct_flags | DIRECT_SIMULATION_DIRECTIVITY,
            final(self).occlusion_type == old(self).occlusion_type,
            final(self).computes(DIRECT_SIMULATION_DIRECTIVITY),
            forall|other: u32| old(self).computes(other) ==> final(self).computes(other),
            flags == SIMULATION_FLAGS_DIRECT,
    {
        self.enable_direct(DIRECT_SIMULATION_DIRECTIVITY);
        SIMULATION_FLAGS_DIRECT
    }

    /// Applies occlusion, found by tracing a single ray. Returns the flags
    /// with which the native simulator is told of the change.
    pub fn set_occlusion(&mut self) -> (flags: u32)
        ensures
            final(self).flags == old(self).flags | SIMULATION_FLAGS_DIRECT,
            final(self).direct_flags == old(self).direct_flags | DIRECT_SIMULATION_OCCLUSION,
            final(self).occlusion_type == OCCLUSION_TYPE_RAYCAST,
            final(self).computes(DIRECT_SIMULATION_OCCLUSION),
            forall|other: u32| old(self).computes(other) ==> final(self).computes(other),
            flags == SIMULATION_FLAGS_DIRECT,
    {
        self.enable_direct(DIRECT_SIMULATION_OCCLUSION);
        self.occlusion_type = OCCLUSION_TYPE_RAYCAST;
        SIMULATION_FLAGS_DIRECT
    }

    /// Applies transmission along with occlusion. Returns the flags with
    /// which the native simulator is told of the change.
    pub fn set_transmission(&mut self) -> (flags: u32)
        ensures
            final(self).flags == old(self).flags | SIMULATION_FLAGS_DIRECT,
            final(self).direct_flags == old(self).direct_flags | DIRECT_SIMULATION_TRANSMISSION,
            final(self).occlusion_type == old(self).occlusion_type,
            final(self).computes(DIRECT_SIMULATION_TRANSMISSION),
            forall|other: u32| old(self).computes(other) ==> final(self).computes(other),
            flags == SIMULATION_FLAGS_DIRECT,
    {
        self.enable_direct(DIRECT_SIMULATION_TRANSMISSION);
        SIMULATION_FLAGS_DIRECT
    }

    /// Lets the source take part in reflection simulation. Returns the
    /// flags with which the native simulator is told of the change, which
    /// are those of direct simulation.
    pub fn set_reflections(&mut self) -> (flags: u32)
        ensures
            final(self).flags == old(self).flags | SIMULATION_FLAGS_REFLECTIONS,
            final(self).direct_flags == old(self).direct_flags,
            final(self).occlusion_type == old(self).occlusion_type,
            flags == SIMULATION_FLAGS_DIRECT,
    {
        self.flags = self.flags | SIMULATION_FLAGS_REFLECTIONS;
        SIMULATION_FLAGS_DIRECT
    }
}

} // verus!
