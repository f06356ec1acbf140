//! The settings of the context of the native library, and the levels at
//! which it logs.

use vstd::prelude::*;

verus! {

/// The code of the widest SIMD instruction set that the native library may
/// use, AVX-512.
pub const SIMD_LEVEL_AVX512: u32 = 4;

/// The code of an informational log message.
pub const LOG_LEVEL_INFO: u32 = 0;

/// The code of a warning.
pub const LOG_LEVEL_WARNING: u32 = 1;

/// The code of an error message.
pub const LOG_LEVEL_ERROR: u32 = 2;

/// The code of a debugging message.
pub const LOG_LEVEL_DEBUG: u32 = 3;

/// The severity of a message that the native library logs.
#[derive(Debug, Clone, Copy, PartialEq, Eq, Structural)]
pub enum LogLevel {
    /// An informational message.
    Info,
    /// A warning.
    Warning,
    /// An error.
    Error,
    /// A debugging message.
    Debug,
}

impl LogLevel {
    /// The severity that a code of the native library stands for.
    pub open spec fn spec_from_code(level: u32) -> LogLevel {
        if level == LOG_LEVEL_INFO {
            LogLevel::Info
        } else if level == LOG_LEVEL_WARNING {
            LogLevel::Warning
        } else if level == LOG_LEVEL_ERROR {
            LogLevel::Error
        } else {
            LogLevel::Debug
        }
    }

    /// Returns the severity that a code of the native library stands for.
    /// The code must be one of the four that the native library defines.
    pub fn from_code(level: u32) -> (severity: LogLevel)
        requires
            level <= LOG_LEVEL_DEBUG,
        ensures
            severity == Self::spec_from_code(level),
    {
        if level == LOG_LEVEL_INFO {
            LogLevel::Info
        } else if level == LOG_LEVEL_WARNING {
            LogLevel::Warning
        } else if level == LOG_LEVEL_ERROR {
            LogLevel::Error
        } else {
            LogLevel::Debug
        }
    }
}

/// The settings with which a context of the native library is made.
#[derive(Debug, Clone, Copy, PartialEq, Eq, Structural)]
pub struct Context {
    /// The version of the interface that the caller was built against, in
    /// one number.
    pub version: u32,
    /// The code of the widest SIMD instruction set that may be used.
    pub simd_level: u32,
}

impl Context {
    /// A version in one number: the major version from bit 16 on, the
    /// minor version in bits 8 to 15, the patch version in the lowest byte.
    pub open spec fn spec_version(major: u32, minor: u32, patch: u32) -> u32 {
        major << 16 | minor << 8 | patch
    }

    /// The settings of a context for version `major.minor.patch` of the
    /// interface, with every SIMD instruction set allowed.
    pub fn new(major: u32, minor: u32, patch: u32) -> (context: Self)
        ensures
            context == (Context {
                version: Self::spec_version(major, minor, patch),
                simd_level: SIMD_LEVEL_AVX512,
            }),
    {
        Context { version: major << 16 | minor << 8 | patch, simd_level: SIMD_LEVEL_AVX512 }
    }

    /// The parts of a version can be read back from the one number, where
    /// the minor and the patch version each fit a byte and the major
    /// version fits the sixteen bits above them.
    pub proof fn lemma_version_parts(major: u32, minor: u32, patch: u32)
        requires
            major < 0x1_0000,
            minor < 0x100,
            patch < 0x100,
        ensures
            Self::spec_version(major, minor, patch) >> 16 == major,
            (Self::spec_version(major, minor, patch) >> 8) & 0xff == minor,
            Self::spec_version(major, minor, patch) & 0xff == patch,
    {
        assert((major << 16 | minor << 8 | patch) >> 16 == major) by (bit_vector)
            requires
                major < 0x1_0000,
                minor < 0x100,
                patch < 0x100,
        ;
        assert(((major << 16 | minor << 8 | patch) >> 8) & 0xff == minor) by (bit_vector)
            requires
                major < 0x1_0000,
                minor < 0x100,
                patch < 0x100,
        ;
        assert((major << 16 | minor << 8 | patch) & 0xff == patch) by (bit_vector)
            requires
                major < 0x1_0000,
                minor < 0x100,
                patch < 0x100,
        ;
    }
}

} // verus!
