use vstd::prelude::*;

verus! {

/// The closed set of failure kinds this library reports.
///
/// Constructors and setters return one of these; nothing here panics on a
/// recoverable condition.
#[derive(Debug, PartialEq)]
pub enum Error {
    /// A mipmap-dependent minification filter was requested on a texture
    /// built without mipmaps.
    NoMipmaps,
    /// The render context was initialized a second time.
    AlreadyInitialized,
    /// A texture buffer's length does not equal `width * height * 4`.
    InvalidTextureDimensions,
    /// A shader stage failed to compile; carries the driver's diagnostic log.
    CompileShaderStageFailed(String),
    /// A shader program failed to link; carries the driver's diagnostic log.
    LinkShaderProgramFailed(String),
}

/// A driver-level error code, as reported by the driver's error query.
#[derive(Debug, Copy, Clone, PartialEq, Eq, Structural)]
pub enum GlError {
    NoError,
    InvalidEnum,
    InvalidValue,
    InvalidOperation,
    InvalidFramebufferOperation,
    OutOfMemory,
    StackUnderflow,
    StackOverflow,
    Unknown(u32),
}

impl GlError {
    /// The error variant denoted by a raw driver error code.
    pub open spec fn from_native_spec(raw: u32) -> GlError {
        if raw == 0 {
            GlError::NoError
        } else if raw == 0x0500 {
            GlError::InvalidEnum
        } else if raw == 0x0501 {
            GlError::InvalidValue
        } else if raw == 0x0502 {
            GlError::InvalidOperation
        } else if raw == 0x0506 {
            GlError::InvalidFramebufferOperation
        } else if raw == 0x0505 {
            GlError::OutOfMemory
        } else if raw == 0x0504 {
            GlError::StackUnderflow
        } else if raw == 0x0503 {
            GlError::StackOverflow
        } else {
            GlError::Unknown(raw)
        }
    }

    /// The raw driver code denoting this error variant.
    pub open spec fn native_spec(self) -> u32 {
        match self {
            GlError::NoError => 0,
            GlError::InvalidEnum => 0x0500,
            GlError::InvalidValue => 0x0501,
            GlError::InvalidOperation => 0x0502,
            GlError::InvalidFramebufferOperation => 0x0506,
            GlError::OutOfMemory => 0x0505,
            GlError::StackUnderflow => 0x0504,
            GlError::StackOverflow => 0x0503,
            GlError::Unknown(n) => n,
        }
    }

    /// Classifies a raw driver error code.
    pub fn new(raw: u32) -> (e: GlError)
        ensures
            e == GlError::from_native_spec(raw),
    {
        match raw {
            0 => GlError::NoError,
            0x0500 => GlError::InvalidEnum,
            0x0501 => GlError::InvalidValue,
            0x0502 => GlError::InvalidOperation,
            0x0506 => GlError::InvalidFramebufferOperation,
            0x0505 => GlError::OutOfMemory,
            0x0504 => GlError::StackUnderflow,
            0x0503 => GlError::StackOverflow,
            n => GlError::Unknown(n),
        }
    }

    /// The raw driver code for this error variant.
    pub fn get_native(&self) -> (raw: u32)
        ensures
            raw == self.native_spec(),
    {
        match self {
            GlError::NoError => 0,
            GlError::InvalidEnum => 0x0500,
            GlError::InvalidValue => 0x0501,
            GlError::InvalidOperation => 0x0502,
            GlError::InvalidFramebufferOperation => 0x0506,
            GlError::OutOfMemory => 0x0505,
            GlError::StackUnderflow => 0x0504,
            GlError::StackOverflow => 0x0503,
            GlError::Unknown(n) => *n,
        }
    }
}

} // verus!
