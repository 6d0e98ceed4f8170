//! Shader-program setup, staged: read two sources, compile two stages,
//! link once.
//!
//! Reading the files, compiling, and linking happen outside the library,
//! each reporting plain success or failure. The order of the stages and
//! the rule that the first failure ends the whole setup are decided here:
//! the build is a small step machine, and a failed build asks for no
//! further operation, so no later stage can run and no partial program can
//! come into being.

use vstd::prelude::*;

verus! {

/// Why shader setup failed: the first stage that went wrong.
#[derive(Clone, Copy, PartialEq, Eq, Structural, Debug)]
pub enum ShaderError {
    /// The vertex source file could not be read.
    VertexSourceUnreadable,
    /// The fragment source file could not be read.
    FragmentSourceUnreadable,
    /// The vertex stage did not compile.
    VertexCompileFailed,
    /// The fragment stage did not compile.
    FragmentCompileFailed,
    /// The two compiled stages did not link.
    LinkFailed,
}

/// The next outside operation a build asks for.
#[derive(Clone, Copy, PartialEq, Eq, Structural, Debug)]
pub enum BuildOp {
    /// Read the vertex source file as text.
    ReadVertexSource,
    /// Read the fragment source file as text.
    ReadFragmentSource,
    /// Compile the vertex stage.
    CompileVertex,
    /// Compile the fragment stage.
    CompileFragment,
    /// Link the two compiled stages into one program.
    LinkProgram,
}

/// The state of a shader-program build.
#[derive(Clone, Copy, PartialEq, Eq, Structural, Debug)]
pub enum ShaderBuild {
    /// Waiting for the vertex source to be read.
    AwaitVertexSource,
    /// Waiting for the fragment source to be read.
    AwaitFragmentSource,
    /// Waiting for the vertex stage to compile.
    AwaitVertexCompile,
    /// Waiting for the fragment stage to compile.
    AwaitFragmentCompile,
    /// Waiting for the program to link.
    AwaitLink,
    /// Every stage succeeded; the program is linked and usable.
    Ready,
    /// A stage failed; the build is over and nothing further runs.
    Failed(ShaderError),
}

/// A build that is over, well or badly.
pub open spec fn is_terminal(b: ShaderBuild) -> bool {
    b == ShaderBuild::Ready || b is Failed
}

/// The operation each state waits for; a finished build asks for none.
pub open spec fn spec_next_op(b: ShaderBuild) -> Option<BuildOp> {
    match b {
        ShaderBuild::AwaitVertexSource => Some(BuildOp::ReadVertexSource),
        ShaderBuild::AwaitFragmentSource => Some(BuildOp::ReadFragmentSource),
        ShaderBuild::AwaitVertexCompile => Some(BuildOp::CompileVertex),
        ShaderBuild::AwaitFragmentCompile => Some(BuildOp::CompileFragment),
        ShaderBuild::AwaitLink => Some(BuildOp::LinkProgram),
        ShaderBuild::Ready => None,
        ShaderBuild::Failed(_) => None,
    }
}

/// How one outside outcome moves the build along: success goes to the
/// next stage, the first failure ends the build with that stage's error,
/// and a finished build never moves again.
pub open spec fn spec_step(b: ShaderBuild, ok: bool) -> ShaderBuild {
    match b {
        ShaderBuild::AwaitVertexSource => if ok {
            ShaderBuild::AwaitFragmentSource
        } else {
            ShaderBuild::Failed(ShaderError::VertexSourceUnreadable)
        },
        ShaderBuild::AwaitFragmentSource => if ok {
            ShaderBuild::AwaitVertexCompile
        } else {
            ShaderBuild::Failed(ShaderError::FragmentSourceUnreadable)
        },
        ShaderBuild::AwaitVertexCompile => if ok {
            ShaderBuild::AwaitFragmentCompile
        } else {
            ShaderBuild::Failed(ShaderError::VertexCompileFailed)
        },
        ShaderBuild::AwaitFragmentCompile => if ok {
            ShaderBuild::AwaitLink
        } else {
            ShaderBuild::Failed(ShaderError::FragmentCompileFailed)
        },
        ShaderBuild::AwaitLink => if ok {
            ShaderBuild::Ready
        } else {
            ShaderBuild::Failed(ShaderError::LinkFailed)
        },
        ShaderBuild::Ready => ShaderBuild::Ready,
        ShaderBuild::Failed(e) => ShaderBuild::Failed(e),
    }
}

/// A fresh build: the vertex source is read first.
pub fn build_start() -> (b: ShaderBuild)
    ensures
        b == ShaderBuild::AwaitVertexSource,
{
    ShaderBuild::AwaitVertexSource
}

/// The outside operation to perform next, if the build is not over.
pub fn next_op(b: &ShaderBuild) -> (op: Option<BuildOp>)
    ensures
        op == spec_next_op(*b),
{
    match b {
        ShaderBuild::AwaitVertexSource => Some(BuildOp::ReadVertexSource),
        ShaderBuild::AwaitFragmentSource => Some(BuildOp::ReadFragmentSource),
        ShaderBuild::AwaitVertexCompile => Some(BuildOp::CompileVertex),
        ShaderBuild::AwaitFragmentCompile => Some(BuildOp::CompileFragment),
        ShaderBuild::AwaitLink => Some(BuildOp::LinkProgram),
        ShaderBuild::Ready => None,
        ShaderBuild::Failed(_) => None,
    }
}

/// Record the outcome of the operation the build was waiting for.
pub fn apply_outcome(b: ShaderBuild, ok: bool) -> (r: ShaderBuild)
    ensures
        r == spec_step(b, ok),
{
    match b {
        ShaderBuild::AwaitVertexSource => if ok {
            ShaderBuild::AwaitFragmentSource
        } else {
            ShaderBuild::Failed(ShaderError::VertexSourceUnreadable)
        },
        ShaderBuild::AwaitFragmentSource => if ok {
            ShaderBuild::AwaitVertexCompile
        } else {
            ShaderBuild::Failed(ShaderError::FragmentSourceUnreadable)
        },
        ShaderBuild::AwaitVertexCompile => if ok {
            ShaderBuild::AwaitFragmentCompile
        } else {
            ShaderBuild::Failed(ShaderError::VertexCompileFailed)
        },
        ShaderBuild::AwaitFragmentCompile => if ok {
            ShaderBuild::AwaitLink
        } else {
            ShaderBuild::Failed(ShaderError::FragmentCompileFailed)
        },
        ShaderBuild::AwaitLink => if ok {
            ShaderBuild::Ready
        } else {
            ShaderBuild::Failed(ShaderError::LinkFailed)
        },
        ShaderBuild::Ready => ShaderBuild::Ready,
        ShaderBuild::Failed(e) => ShaderBuild::Failed(e),
    }
}

/// A build asks for an operation exactly as long as it is not over, and a
/// build that is over never changes again: in particular a failed read of
/// a source file ends the setup before any compile or link can run.
pub proof fn lemma_finished_build_is_final(b: ShaderBuild, ok: bool)
    ensures
        is_terminal(b) <==> spec_next_op(b) is None,
        is_terminal(b) ==> spec_step(b, ok) == b,
        !is_terminal(b) && !ok ==> spec_step(b, ok) is Failed,
{
}

} // verus!
