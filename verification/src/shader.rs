use vstd::prelude::*;

use crate::error::Error;

verus! {

/// The pipeline stage a shader's source text is compiled for.
#[derive(Debug, Copy, Clone, PartialEq, Eq, Structural)]
pub enum StageKind {
    Vertex,
    Geometry,
    Fragment,
}

impl StageKind {
    /// The driver enumerant for this stage.
    pub open spec fn native_spec(self) -> u32 {
        match self {
            StageKind::Vertex => 0x8B31,
            StageKind::Geometry => 0x8DD9,
            StageKind::Fragment => 0x8B30,
        }
    }

    /// The driver enumerant for this stage.
    pub fn get_native(&self) -> (raw: u32)
        ensures
            raw == self.native_spec(),
    {
        match self {
            StageKind::Vertex => 0x8B31,
            StageKind::Geometry => 0x8DD9,
            StageKind::Fragment => 0x8B30,
        }
    }
}

/// How many bytes of a driver diagnostic log an error carries at most.
pub const MAX_LOG_BYTES: usize = 511;

/// Truncates a driver diagnostic log to the bytes an error may carry:
/// the whole log when it is short enough, else its first `MAX_LOG_BYTES`
/// bytes.
pub fn truncate_log(log: &Vec<u8>) -> (t: Vec<u8>)
    ensures
        log@.len() <= MAX_LOG_BYTES ==> t@ == log@,
        log@.len() > MAX_LOG_BYTES ==> t@ == log@.subrange(0, MAX_LOG_BYTES as int),
{
    let mut t: Vec<u8> = Vec::new();
    let mut i: usize = 0;
    while i < log.len() && i < MAX_LOG_BYTES
        invariant
            i <= log@.len(),
            i <= MAX_LOG_BYTES,
            t@ == log@.subrange(0, i as int),
        decreases MAX_LOG_BYTES - i,
    {
        t.push(log[i]);
        proof {
            assert(t@ =~= log@.subrange(0, i + 1));
        }
        i = i + 1;
    }
    proof {
        if log@.len() <= MAX_LOG_BYTES {
            assert(t@ =~= log@);
        }
    }
    t
}

/// One compiled shader stage, owning its driver handle.
#[derive(Debug)]
pub struct Stage {
    handle: u32,
}

impl View for Stage {
    type V = u32;

    closed spec fn view(&self) -> u32 {
        self.handle
    }
}

impl Stage {
    /// Judges one stage compilation from what the driver reported: on
    /// success, a stage owning the compiled handle; on failure,
    /// `CompileShaderStageFailed` carrying the diagnostic log, and the
    /// handle is not retained.
    pub fn from_compile_status(handle: u32, success: bool, log: String) -> (r: Result<
        Stage,
        Error,
    >)
        ensures
            success ==> (r matches Ok(s) && s@ == handle),
            !success ==> r == Err::<Stage, Error>(Error::CompileShaderStageFailed(log)),
    {
        if success {
            Ok(Stage { handle })
        } else {
            Err(Error::CompileShaderStageFailed(log))
        }
    }

    /// The compiled stage's driver handle.
    pub fn handle(&self) -> (h: u32)
        ensures
            h == self@,
    {
        self.handle
    }
}

/// A user-space mirror of which program the driver has active. It stays
/// truthful only while every program bind goes through it.
#[derive(Debug)]
pub struct ProgramState {
    active_program: u32,
}

impl View for ProgramState {
    type V = u32;

    closed spec fn view(&self) -> u32 {
        self.active_program
    }
}

impl ProgramState {
    /// A fresh mirror: program zero — no program — active. The caller must
    /// have reset the driver to match.
    pub fn new() -> (p: ProgramState)
        ensures
            p@ == 0,
    {
        ProgramState { active_program: 0 }
    }

    /// The handle the mirror holds active.
    pub fn active_program(&self) -> (h: u32)
        ensures
            h == self@,
    {
        self.active_program
    }
}

/// One linked shader program, owning its driver handle. The stages it was
/// linked from are not retained past construction.
#[derive(Debug)]
pub struct Shader {
    handle: u32,
}

impl View for Shader {
    type V = u32;

    closed spec fn view(&self) -> u32 {
        self.handle
    }
}

impl Shader {
    /// Judges one program link from what the driver reported: on success, a
    /// program owning the linked handle; on failure,
    /// `LinkShaderProgramFailed` carrying the diagnostic log, and no partial
    /// program is left behind.
    pub fn from_link_status(handle: u32, success: bool, log: String) -> (r: Result<Shader, Error>)
        ensures
            success ==> (r matches Ok(s) && s@ == handle),
            !success ==> r == Err::<Shader, Error>(Error::LinkShaderProgramFailed(log)),
    {
        if success {
            Ok(Shader { handle })
        } else {
            Err(Error::LinkShaderProgramFailed(log))
        }
    }

    /// Makes this program the one draw calls use. Reports `true` — the
    /// caller must issue the driver's use-program call — exactly when a
    /// different program was active, and the mirror then holds this one.
    pub fn bind(&self, programs: &mut ProgramState) -> (changed: bool)
        ensures
            changed == (old(programs)@ != self@),
            final(programs)@ == self@,
    {
        let changed = programs.active_program != self.handle;
        if changed {
            programs.active_program = self.handle;
        }
        changed
    }

    /// The linked program's driver handle.
    pub fn handle(&self) -> (h: u32)
        ensures
            h == self@,
    {
        self.handle
    }
}

} // verus!
