//! Build-mode policy: the single debug/release switch fans out into the
//! compile policy (debug labels, bounds-check strictness, workgroup
//! zero-initialization), the per-stage compile options, and the choice of
//! output location for packaged artifacts.

use vstd::prelude::*;
use crate::stage::Stage;

verus! {

/// The one build-mode switch of the whole compiler.
#[derive(Clone, Copy, PartialEq, Eq, Structural, Debug)]
pub enum BuildMode {
    Debug,
    Release,
}

/// How out-of-range accesses inside generated code are handled.
#[derive(Clone, Copy, PartialEq, Eq, Structural, Debug)]
pub enum BoundsCheck {
    /// Trap on any out-of-range access.
    Strict,
    /// Out-of-range reads return zero; out-of-range writes are skipped.
    ReadZeroSkipWrite,
    /// No checks are emitted; out-of-range access is undefined.
    Unchecked,
}

/// The policy bundle applied uniformly to every shader of one build.
#[derive(Clone, Copy, PartialEq, Eq, Structural, Debug)]
pub struct CompilePolicy {
    pub emit_debug_labels: bool,
    pub bounds_check: BoundsCheck,
    pub zero_init_workgroup_memory: bool,
}

/// Stage-specific compile options. The entry point name is fixed (see
/// [`entry_point_name`]) and so is not a field.
#[derive(Clone, Copy, PartialEq, Eq, Structural, Debug)]
pub struct CompileOptions {
    pub stage: Stage,
    /// Major number of the target bytecode version.
    pub target_major: u32,
    /// Minor number of the target bytecode version.
    pub target_minor: u32,
}

/// Where a packaged artifact is written.
#[derive(Clone, Copy, PartialEq, Eq, Structural, Debug)]
pub enum OutputLocation {
    /// Transient per-build scratch space; never shipped.
    BuildScratch,
    /// Persistent resource directory intended for packaging.
    Resource,
}

/// The policy a build mode selects: debug builds label their output and
/// guard indexed accesses, release builds do neither; workgroup memory
/// zero-initialization is off in both modes.
pub open spec fn spec_policy_for(mode: BuildMode) -> CompilePolicy {
    match mode {
        BuildMode::Debug => CompilePolicy {
            emit_debug_labels: true,
            bounds_check: BoundsCheck::ReadZeroSkipWrite,
            zero_init_workgroup_memory: false,
        },
        BuildMode::Release => CompilePolicy {
            emit_debug_labels: false,
            bounds_check: BoundsCheck::Unchecked,
            zero_init_workgroup_memory: false,
        },
    }
}

/// Select the compile policy for a build mode.
pub fn policy_for(mode: BuildMode) -> (r: CompilePolicy)
    ensures
        r == spec_policy_for(mode),
{
    match mode {
        BuildMode::Debug => CompilePolicy {
            emit_debug_labels: true,
            bounds_check: BoundsCheck::ReadZeroSkipWrite,
            zero_init_workgroup_memory: false,
        },
        BuildMode::Release => CompilePolicy {
            emit_debug_labels: false,
            bounds_check: BoundsCheck::Unchecked,
            zero_init_workgroup_memory: false,
        },
    }
}

/// The options derived from a stage: the stage itself and the fixed target
/// bytecode version.
pub open spec fn spec_options_for(stage: Stage) -> CompileOptions {
    CompileOptions { stage, target_major: 1, target_minor: 0 }
}

/// Derive the compile options for one stage.
pub fn options_for(stage: Stage) -> (r: CompileOptions)
    ensures
        r == spec_options_for(stage),
{
    CompileOptions { stage, target_major: 1, target_minor: 0 }
}

/// The bytes of the fixed entry point name, `main`.
pub open spec fn spec_entry_point_name() -> Seq<u8> {
    seq![109, 97, 105, 110]
}

/// The fixed entry point name every artifact declares.
pub fn entry_point_name() -> (r: Vec<u8>)
    ensures
        r@ == spec_entry_point_name(),
{
    let mut v: Vec<u8> = Vec::new();
    v.push(109);
    v.push(97);
    v.push(105);
    v.push(110);
    proof {
        assert(v@ =~= spec_entry_point_name());
    }
    v
}

/// The output location a build mode selects: debug artifacts stay in build
/// scratch so they can never leak into shipped resources.
pub open spec fn spec_output_location(mode: BuildMode) -> OutputLocation {
    match mode {
        BuildMode::Debug => OutputLocation::BuildScratch,
        BuildMode::Release => OutputLocation::Resource,
    }
}

/// Select the output location for a build mode.
pub fn output_location(mode: BuildMode) -> (r: OutputLocation)
    ensures
        r == spec_output_location(mode),
{
    match mode {
        BuildMode::Debug => OutputLocation::BuildScratch,
        BuildMode::Release => OutputLocation::Resource,
    }
}

} // verus!
