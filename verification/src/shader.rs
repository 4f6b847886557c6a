//! Shader program lifecycle decisions.
//!
//! The driver compiles each stage and links the program; it reports a boolean
//! status and a diagnostic log for every step. The shell performs those calls
//! and hands the reports here as plain values; this module decides, exactly
//! and verifiably, whether the build succeeded and which error it failed with.

use vstd::prelude::*;

verus! {

/// One of the two shader stages a program is built from.
#[derive(Clone, Copy, Debug, PartialEq, Eq, Structural)]
pub enum Stage {
    Vertex,
    Fragment,
}

/// The driver's report on one compile or link step: a success flag and the
/// diagnostic log bytes that accompany it.
#[derive(Clone, Debug, PartialEq, Eq)]
pub struct StageReport {
    pub ok: bool,
    pub log: Vec<u8>,
}

/// Why a shader program build failed: one stage did not compile, or the
/// compiled stages did not link.
#[derive(Clone, Debug, PartialEq, Eq)]
pub enum BuildError {
    ShaderCompileError { stage: Stage, log: Vec<u8> },
    ProgramLinkError { log: Vec<u8> },
}

/// Handle of a linked, executable shader program. Zero is the driver's
/// reserved "no object" name, so a handle is always non-zero.
#[derive(Clone, Copy, Debug, PartialEq, Eq, Structural)]
pub struct ProgramHandle {
    pub raw: u32,
}

impl ProgramHandle {
    pub open spec fn well_formed(self) -> bool {
        self.raw != 0
    }
}

/// The result a whole build resolves to, given the three driver reports in
/// build order: vertex compile, fragment compile, link. The first failing
/// step decides the error and contributes its own log.
pub open spec fn build_spec(
    program_id: u32,
    vertex: StageReport,
    fragment: StageReport,
    link: StageReport,
) -> Result<ProgramHandle, BuildError> {
    if !vertex.ok {
        Err(BuildError::ShaderCompileError { stage: Stage::Vertex, log: vertex.log })
    } else if !fragment.ok {
        Err(BuildError::ShaderCompileError { stage: Stage::Fragment, log: fragment.log })
    } else if !link.ok {
        Err(BuildError::ProgramLinkError { log: link.log })
    } else {
        Ok(ProgramHandle { raw: program_id })
    }
}

/// Decide one compile step: succeed exactly when the driver said the stage
/// compiled, and otherwise fail with that stage's name and its log.
pub fn check_compile(stage: Stage, report: StageReport) -> (r: Result<(), BuildError>)
    ensures
        r is Ok <==> report.ok,
        !report.ok ==> r == Err::<(), BuildError>(
            BuildError::ShaderCompileError { stage, log: report.log },
        ),
{
    if report.ok {
        Ok(())
    } else {
        Err(BuildError::ShaderCompileError { stage, log: report.log })
    }
}

/// Decide the link step: succeed exactly when the driver said the program
/// linked, and otherwise fail with the link log.
pub fn check_link(report: StageReport) -> (r: Result<(), BuildError>)
    ensures
        r is Ok <==> report.ok,
        !report.ok ==> r == Err::<(), BuildError>(BuildError::ProgramLinkError { log: report.log }),
{
    if report.ok {
        Ok(())
    } else {
        Err(BuildError::ProgramLinkError { log: report.log })
    }
}

/// Resolve a whole program build from the driver's three reports.
///
/// The build succeeds, yielding the program handle, exactly when both stages
/// compiled and the program linked. A failed vertex compile names the vertex
/// stage; a vertex success with a failed fragment compile names the fragment
/// stage; compiles without a link name no stage. Each error carries the
/// failing step's own log, unchanged.
pub fn resolve_build(
    program_id: u32,
    vertex: StageReport,
    fragment: StageReport,
    link: StageReport,
) -> (r: Result<ProgramHandle, BuildError>)
    requires
        program_id != 0,
    ensures
        r == build_spec(program_id, vertex, fragment, link),
        r is Ok <==> vertex.ok && fragment.ok && link.ok,
        r matches Ok(h) ==> h.raw == program_id && h.well_formed(),
{
    match check_compile(Stage::Vertex, vertex) {
        Err(e) => Err(e),
        Ok(()) => match check_compile(Stage::Fragment, fragment) {
            Err(e) => Err(e),
            Ok(()) => match check_link(link) {
                Err(e) => Err(e),
                Ok(()) => Ok(ProgramHandle { raw: program_id }),
            },
        },
    }
}

impl BuildError {
    /// The human-readable header line of this error's diagnostic: it names
    /// the failing step; the driver's log follows it.
    pub fn diagnostic_header(&self) -> (r: &'static str)
        ensures
            self matches BuildError::ShaderCompileError { stage: Stage::Vertex, .. } ==> r@
                == "ERROR::SHADER::VERTEX::COMPILATION_FAILED\n"@,
            self matches BuildError::ShaderCompileError { stage: Stage::Fragment, .. } ==> r@
                == "ERROR::SHADER::FRAGMENT::COMPILATION_FAILED\n"@,
            self matches BuildError::ProgramLinkError { .. } ==> r@
                == "ERROR::SHADER::PROGRAM::COMPILATION_FAILED\n"@,
    {
        match self {
            BuildError::ShaderCompileError { stage: Stage::Vertex, .. } => {
                "ERROR::SHADER::VERTEX::COMPILATION_FAILED\n"
            },
            BuildError::ShaderCompileError { stage: Stage::Fragment, .. } => {
                "ERROR::SHADER::FRAGMENT::COMPILATION_FAILED\n"
            },
            BuildError::ProgramLinkError { .. } => "ERROR::SHADER::PROGRAM::COMPILATION_FAILED\n",
        }
    }

    /// The driver log this error carries.
    pub fn log(&self) -> (r: &Vec<u8>)
        ensures
            self matches BuildError::ShaderCompileError { log, .. } ==> r@ == log@,
            self matches BuildError::ProgramLinkError { log } ==> r@ == log@,
    {
        match self {
            BuildError::ShaderCompileError { log, .. } => log,
            BuildError::ProgramLinkError { log } => log,
        }
    }
}

} // verus!
