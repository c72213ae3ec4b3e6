//! The shader-program build protocol.
//!
//! Building a program is a little dialogue with the graphics API:
//! compile each stage in turn, give up and destroy the stages compiled
//! so far as soon as one fails, then link the survivors into a program
//! and destroy the per-stage objects.  `ProgramBuild` keeps the state of
//! that dialogue — which stage comes next, which stage objects exist —
//! while the renderer performs the API calls and reports each outcome.
//! The helpers below shape the diagnostics: an API info log arrives as a
//! fixed-size byte buffer terminated by a zero byte, and the error
//! messages carry a fixed prefix in front of it.

use vstd::prelude::*;
use vstd::string::StringExecFns;

verus! {

/// Byte capacity of the buffer handed to the API for an info log.
pub const INFO_LOG_BUFFER_LEN: usize = 512;

/// The pipeline stage a shader source belongs to.
#[derive(Clone, Copy, Debug, PartialEq, Eq, Structural)]
pub enum ShaderKind {
    Vertex,
    Fragment,
    Geometry,
}

/// One shader stage waiting to be compiled: its pipeline stage and its
/// source text.
#[derive(Debug)]
pub struct StageSource {
    pub kind: ShaderKind,
    pub source: String,
}

/// Handle of a shader program that has been linked on the GPU.
#[derive(Clone, Copy, Debug, PartialEq, Eq, Structural)]
pub struct ShaderProgram {
    id: u32,
}

impl ShaderProgram {
    /// The numeric name of the program.
    pub closed spec fn spec_id(&self) -> u32 {
        self.id
    }

    /// Wrap the numeric name the GPU handed out.
    pub fn new(id: u32) -> (r: Self)
        ensures
            r.spec_id() == id,
    {
        ShaderProgram { id }
    }

    /// The numeric name of the program.
    pub fn id(&self) -> (r: u32)
        ensures
            r == self.spec_id(),
    {
        self.id
    }
}

/// State of one program build: the stages to compile, in order, and the
/// stage objects compiled so far.
pub struct ProgramBuild {
    stages: Vec<StageSource>,
    shader_ids: Vec<u32>,
}

impl ProgramBuild {
    /// The stages this build compiles, in order.
    pub closed spec fn spec_stages(&self) -> Seq<StageSource> {
        self.stages@
    }

    /// The stage objects compiled so far, in stage order.
    pub closed spec fn compiled_ids(&self) -> Seq<u32> {
        self.shader_ids@
    }

    /// At most one stage object per stage.
    pub open spec fn wf(&self) -> bool {
        self.compiled_ids().len() <= self.spec_stages().len()
    }

    /// A build of the mandatory vertex and fragment stages, plus the
    /// geometry stage when one is given, in that order.
    pub fn new(
        vertex_shader: &str,
        fragment_shader: &str,
        geometry_shader: Option<&str>,
    ) -> (r: Self)
        ensures
            r.wf(),
            r.compiled_ids().len() == 0,
            r.spec_stages().len() == (if geometry_shader is Some {
                3int
            } else {
                2int
            }),
            r.spec_stages()[0].kind == ShaderKind::Vertex,
            r.spec_stages()[0].source@ == vertex_shader@,
            r.spec_stages()[1].kind == ShaderKind::Fragment,
            r.spec_stages()[1].source@ == fragment_shader@,
            (match geometry_shader {
                Some(g) => r.spec_stages()[2].kind == ShaderKind::Geometry
                    && r.spec_stages()[2].source@ == g@,
                None => true,
            }),
    {
        let mut stages: Vec<StageSource> = Vec::new();
        stages.push(StageSource {
            kind: ShaderKind::Vertex,
            source: String::from_str(vertex_shader),
        });
        stages.push(StageSource {
            kind: ShaderKind::Fragment,
            source: String::from_str(fragment_shader),
        });
        match geometry_shader {
            Some(g) => stages.push(StageSource {
                kind: ShaderKind::Geometry,
                source: String::from_str(g),
            }),
            None => (),
        }
        ProgramBuild { stages, shader_ids: Vec::new() }
    }

    /// The stage to compile next, or `None` once every stage has its
    /// object and the build is ready to link.
    pub fn next_stage(&self) -> (r: Option<&StageSource>)
        requires
            self.wf(),
        ensures
            (match r {
                Some(s) => self.compiled_ids().len() < self.spec_stages().len() && *s
                    == self.spec_stages()[self.compiled_ids().len() as int],
                None => self.compiled_ids().len() == self.spec_stages().len(),
            }),
    {
        if self.shader_ids.len() < self.stages.len() {
            Some(&self.stages[self.shader_ids.len()])
        } else {
            None
        }
    }

    /// Record the stage object the API compiled for the current stage.
    pub fn stage_compiled(&mut self, shader_id: u32)
        requires
            old(self).wf(),
            old(self).compiled_ids().len() < old(self).spec_stages().len(),
        ensures
            final(self).wf(),
            final(self).spec_stages() == old(self).spec_stages(),
            final(self).compiled_ids() == old(self).compiled_ids().push(shader_id),
    {
        self.shader_ids.push(shader_id);
    }

    /// The stage objects compiled so far: the ones to destroy when a
    /// stage fails to compile, and the ones to attach and then destroy
    /// when the build links.
    pub fn shader_ids(&self) -> (r: &Vec<u32>)
        ensures
            r@ == self.compiled_ids(),
    {
        &self.shader_ids
    }
}

/// Length of the message inside an info-log buffer: the bytes before
/// the first zero byte, or the whole buffer when no byte is zero.
pub fn nul_terminated_length(buf: &Vec<u8>) -> (r: usize)
    ensures
        r <= buf@.len(),
        forall|j: int| 0 <= j < r ==> buf@[j] != 0,
        r < buf@.len() ==> buf@[r as int] == 0,
{
    let mut i: usize = 0;
    while i < buf.len()
        invariant
            i <= buf@.len(),
            forall|j: int| 0 <= j < i ==> buf@[j] != 0,
        decreases buf@.len() - i,
    {
        if buf[i] == 0 {
            return i;
        }
        i = i + 1;
    }
    i
}

/// The diagnostic reported when a shader stage fails to compile, with
/// the API's info log appended.
pub fn compile_error_message(log: &str) -> (r: String)
    ensures
        r@ == "ERROR::SHADER::COMPILATION_FAILED:\n"@ + log@,
{
    let mut r = String::from_str("ERROR::SHADER::COMPILATION_FAILED:\n");
    r.append(log);
    r
}

/// The diagnostic reported when the program fails to link, with the
/// API's info log appended.
pub fn link_error_message(log: &str) -> (r: String)
    ensures
        r@ == "ERROR::SHADER::PROGRAM::LINKING_FAILED:\n"@ + log@,
{
    let mut r = String::from_str("ERROR::SHADER::PROGRAM::LINKING_FAILED:\n");
    r.append(log);
    r
}

} // verus!
