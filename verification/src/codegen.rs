//! Back end: lowers a validated module and its analysis metadata into the
//! target bytecode stream, a sequence of 32-bit words. The stream is a
//! pure function of its inputs: a header naming version, stage, policy and
//! entry point, one word per instruction with a guard word in front of
//! each indexed access when bounds checks are on, and, in debug builds
//! only, a trailing debug section mapping the artifact back to its source
//! name and line numbers.

use vstd::prelude::*;
use crate::parse::{Instr, LineInstr, ParsedModule};
use crate::policy::{BoundsCheck, BuildMode, CompileOptions, CompilePolicy, spec_policy_for};
use crate::stage::Stage;
use crate::validate::{spec_count_loads, spec_validate, lemma_validate_bounds, ValidationError, ValidationInfo};

verus! {

/// First word of every artifact.
pub const ARTIFACT_MAGIC: u32 = 0x53484452;

/// First word of the debug section.
pub const DEBUG_SECTION_MARK: u32 = 0xD1A60001;

/// Word naming the fixed entry point, the bytes of `main` packed together.
pub const ENTRY_POINT_TAG: u32 = 0x6D61696E;

/// The word encoding of a stage.
pub open spec fn spec_stage_code(s: Stage) -> u32 {
    match s {
        Stage::Vertex => 1,
        Stage::Fragment => 2,
        Stage::Compute => 3,
    }
}

/// The two-bit encoding of a bounds-check policy.
pub open spec fn spec_bounds_code(b: BoundsCheck) -> u32 {
    match b {
        BoundsCheck::Unchecked => 0,
        BoundsCheck::Strict => 1,
        BoundsCheck::ReadZeroSkipWrite => 2,
    }
}

/// The header flags word: bit 0 debug labels, bits 1-2 the bounds-check
/// mode, bit 3 workgroup zero-initialization.
pub open spec fn spec_flags_word(p: CompilePolicy) -> u32 {
    (if p.emit_debug_labels {
        1u32
    } else {
        0u32
    }) | (spec_bounds_code(p.bounds_check) << 1u32) | (if p.zero_init_workgroup_memory {
        8u32
    } else {
        0u32
    })
}

/// The word an instruction lowers to: opcode in the top byte, operands in
/// the bytes below it.
pub open spec fn spec_instr_word(i: Instr) -> u32 {
    match i {
        Instr::Mov { dst, src } => 0x01000000u32 | ((dst as u32) << 16u32) | ((src as u32)
            << 8u32),
        Instr::Add { dst, lhs, rhs } => 0x02000000u32 | ((dst as u32) << 16u32) | ((lhs as u32)
            << 8u32) | (rhs as u32),
        Instr::Mul { dst, lhs, rhs } => 0x03000000u32 | ((dst as u32) << 16u32) | ((lhs as u32)
            << 8u32) | (rhs as u32),
        Instr::Load { dst, binding, index } => 0x04000000u32 | ((dst as u32) << 16u32) | ((
        binding as u32) << 8u32) | (index as u32),
        Instr::Out { src } => 0x05000000u32 | ((src as u32) << 16u32),
    }
}

/// The guard word emitted in front of an indexed access when bounds checks
/// are on: a trap guard under `Strict`, a clamping guard under
/// `ReadZeroSkipWrite`.
pub open spec fn spec_guard_word(binding: u8, index: u8, bc: BoundsCheck) -> u32 {
    match bc {
        BoundsCheck::Strict => 0x06000000u32 | ((binding as u32) << 8u32) | (index as u32),
        _ => 0x07000000u32 | ((binding as u32) << 8u32) | (index as u32),
    }
}

/// The words one instruction contributes to the body.
pub open spec fn spec_instr_words(i: Instr, bc: BoundsCheck) -> Seq<u32> {
    match i {
        Instr::Load { dst, binding, index } => if bc is Unchecked {
            seq![spec_instr_word(i)]
        } else {
            seq![spec_guard_word(binding, index, bc), spec_instr_word(i)]
        },
        _ => seq![spec_instr_word(i)],
    }
}

/// The body of the artifact: each instruction's words, in order.
pub open spec fn spec_body_words(instrs: Seq<LineInstr>, bc: BoundsCheck) -> Seq<u32>
    decreases instrs.len(),
{
    if instrs.len() == 0 {
        Seq::empty()
    } else {
        spec_body_words(instrs.drop_last(), bc) + spec_instr_words(instrs.last().instr, bc)
    }
}

/// Body length: one word per instruction, plus one guard word per indexed
/// access whenever bounds checks are on.
pub proof fn lemma_body_words_len(instrs: Seq<LineInstr>, bc: BoundsCheck)
    ensures
        spec_body_words(instrs, bc).len() == instrs.len() + (if bc is Unchecked {
            0nat
        } else {
            spec_count_loads(instrs)
        }),
    decreases instrs.len(),
{
    if instrs.len() != 0 {
        lemma_body_words_len(instrs.drop_last(), bc);
    }
}

/// The debug section: a mark, the length of the source name, the name's
/// bytes one per word, then the source line of each instruction.
pub open spec fn spec_debug_words(name: Seq<u8>, instrs: Seq<LineInstr>) -> Seq<u32> {
    seq![DEBUG_SECTION_MARK, name.len() as u32] + name.map_values(|b: u8| b as u32)
        + instrs.map_values(|li: LineInstr| li.line)
}

/// The whole artifact word stream for one compiled shader.
pub open spec fn spec_artifact_words(
    name: Seq<u8>,
    instrs: Seq<LineInstr>,
    options: CompileOptions,
    policy: CompilePolicy,
) -> Seq<u32> {
    seq![
        ARTIFACT_MAGIC,
        (options.target_major << 16u32) | options.target_minor,
        spec_stage_code(options.stage),
        spec_flags_word(policy),
        ENTRY_POINT_TAG,
        instrs.len() as u32,
    ] + spec_body_words(instrs, policy.bounds_check) + (if policy.emit_debug_labels {
        spec_debug_words(name, instrs)
    } else {
        Seq::empty()
    })
}

/// The target bytecode for exactly one (source, policy) pair: an ordered
/// sequence of 32-bit words.
#[derive(Debug)]
pub struct CompiledArtifact {
    pub words: Vec<u32>,
}

/// The word encoding of a stage.
fn stage_code(s: Stage) -> (r: u32)
    ensures
        r == spec_stage_code(s),
{
    match s {
        Stage::Vertex => 1,
        Stage::Fragment => 2,
        Stage::Compute => 3,
    }
}

/// The header flags word.
fn flags_word(p: &CompilePolicy) -> (r: u32)
    ensures
        r == spec_flags_word(*p),
{
    let dbg: u32 = if p.emit_debug_labels {
        1
    } else {
        0
    };
    let bc: u32 = match p.bounds_check {
        BoundsCheck::Unchecked => 0,
        BoundsCheck::Strict => 1,
        BoundsCheck::ReadZeroSkipWrite => 2,
    };
    let zi: u32 = if p.zero_init_workgroup_memory {
        8
    } else {
        0
    };
    dbg | (bc << 1u32) | zi
}

/// The word an instruction lowers to.
fn instr_word(i: Instr) -> (r: u32)
    ensures
        r == spec_instr_word(i),
{
    match i {
        Instr::Mov { dst, src } => 0x01000000u32 | ((dst as u32) << 16u32) | ((src as u32)
            << 8u32),
        Instr::Add { dst, lhs, rhs } => 0x02000000u32 | ((dst as u32) << 16u32) | ((lhs as u32)
            << 8u32) | (rhs as u32),
        Instr::Mul { dst, lhs, rhs } => 0x03000000u32 | ((dst as u32) << 16u32) | ((lhs as u32)
            << 8u32) | (rhs as u32),
        Instr::Load { dst, binding, index } => 0x04000000u32 | ((dst as u32) << 16u32) | ((
        binding as u32) << 8u32) | (index as u32),
        Instr::Out { src } => 0x05000000u32 | ((src as u32) << 16u32),
    }
}

/// Lower a validated module into its artifact word stream. The metadata
/// must be the one validation produced for this very module: generating
/// code from a module without its matching analysis is meaningless.
pub fn generate(
    name: &[u8],
    module: &ParsedModule,
    info: &ValidationInfo,
    options: &CompileOptions,
    policy: &CompilePolicy,
) -> (r: CompiledArtifact)
    requires
        spec_validate(module.instrs@) == Ok::<ValidationInfo, ValidationError>(*info),
        name@.len() <= 0xFFFF,
    ensures
        r.words@ == spec_artifact_words(name@, module.instrs@, *options, *policy),
{
    proof {
        lemma_validate_bounds(module.instrs@, *info);
    }
    let instrs = &module.instrs;
    let n = instrs.len();
    let mut words: Vec<u32> = Vec::new();
    words.push(ARTIFACT_MAGIC);
    words.push((options.target_major << 16u32) | options.target_minor);
    words.push(stage_code(options.stage));
    words.push(flags_word(policy));
    words.push(ENTRY_POINT_TAG);
    words.push(n as u32);
    let ghost header = seq![
        ARTIFACT_MAGIC,
        (options.target_major << 16u32) | options.target_minor,
        spec_stage_code(options.stage),
        spec_flags_word(*policy),
        ENTRY_POINT_TAG,
        instrs@.len() as u32,
    ];
    proof {
        assert(words@ =~= header + spec_body_words(instrs@.take(0), policy.bounds_check));
    }
    let mut i: usize = 0;
    while i < n
        invariant
            i <= n == instrs@.len(),
            words@ == header + spec_body_words(instrs@.take(i as int), policy.bounds_check),
        decreases n - i,
    {
        let li = instrs[i];
        proof {
            assert(instrs@.take(i as int + 1).drop_last() =~= instrs@.take(i as int));
            assert(instrs@.take(i as int + 1).last() == li);
        }
        match li.instr {
            Instr::Load { dst, binding, index } => {
                match policy.bounds_check {
                    BoundsCheck::Unchecked => {},
                    BoundsCheck::Strict => {
                        words.push(0x06000000u32 | ((binding as u32) << 8u32) | (index as u32));
                    },
                    BoundsCheck::ReadZeroSkipWrite => {
                        words.push(0x07000000u32 | ((binding as u32) << 8u32) | (index as u32));
                    },
                }
            },
            _ => {},
        }
        words.push(instr_word(li.instr));
        proof {
            assert(words@ =~= header + spec_body_words(
                instrs@.take(i as int + 1),
                policy.bounds_check,
            ));
        }
        i = i + 1;
    }
    proof {
        assert(instrs@.take(n as int) =~= instrs@);
    }
    if policy.emit_debug_labels {
        let ghost base = words@;
        words.push(DEBUG_SECTION_MARK);
        words.push(name.len() as u32);
        let mut k: usize = 0;
        proof {
            assert(name@.take(0).map_values(|b: u8| b as u32) =~= Seq::<u32>::empty());
            assert(words@ =~= base + seq![DEBUG_SECTION_MARK, name@.len() as u32] + name@.take(
                0,
            ).map_values(|b: u8| b as u32));
        }
        while k < name.len()
            invariant
                k <= name@.len(),
                words@ == base + seq![DEBUG_SECTION_MARK, name@.len() as u32] + name@.take(
                    k as int,
                ).map_values(|b: u8| b as u32),
            decreases name@.len() - k,
        {
            words.push(name[k] as u32);
            proof {
                assert(name@.take(k as int + 1).map_values(|b: u8| b as u32) =~= name@.take(
                    k as int,
                ).map_values(|b: u8| b as u32).push(name@[k as int] as u32));
                assert(words@ =~= base + seq![DEBUG_SECTION_MARK, name@.len() as u32] + name@.take(
                    k as int + 1,
                ).map_values(|b: u8| b as u32));
            }
            k = k + 1;
        }
        proof {
            assert(name@.take(name@.len() as int) =~= name@);
        }
        let ghost with_name = words@;
        let mut m: usize = 0;
        proof {
            assert(instrs@.take(0).map_values(|li: LineInstr| li.line) =~= Seq::<u32>::empty());
            assert(words@ =~= with_name + instrs@.take(0).map_values(|li: LineInstr| li.line));
        }
        while m < n
            invariant
                m <= n == instrs@.len(),
                words@ == with_name + instrs@.take(m as int).map_values(|li: LineInstr| li.line),
            decreases n - m,
        {
            words.push(instrs[m].line);
            proof {
                assert(instrs@.take(m as int + 1).map_values(|li: LineInstr| li.line) =~= instrs@
                    .take(m as int).map_values(|li: LineInstr| li.line).push(
                    instrs@[m as int].line,
                ));
                assert(words@ =~= with_name + instrs@.take(m as int + 1).map_values(
                    |li: LineInstr| li.line,
                ));
            }
            m = m + 1;
        }
        proof {
            assert(instrs@.take(n as int) =~= instrs@);
            assert(words@ =~= spec_artifact_words(name@, instrs@, *options, *policy));
        }
    } else {
        proof {
            assert(words@ =~= spec_artifact_words(name@, instrs@, *options, *policy));
        }
    }
    CompiledArtifact { words }
}

/// Bounds-check policy leaves a mark in the generated code itself: for a
/// module with at least one indexed access, the artifact compiled with
/// checks elided differs from the artifact compiled with read-zero
/// skip-write guards, whatever the source name and the other policy axes,
/// because the guarded body holds one extra word per indexed access.
pub proof fn lemma_bounds_policy_changes_artifact(
    name: Seq<u8>,
    instrs: Seq<LineInstr>,
    options: CompileOptions,
    p1: CompilePolicy,
    p2: CompilePolicy,
)
    requires
        p1.bounds_check is Unchecked,
        p2.bounds_check is ReadZeroSkipWrite,
        p1.emit_debug_labels == p2.emit_debug_labels,
        spec_count_loads(instrs) >= 1,
    ensures
        spec_artifact_words(name, instrs, options, p1) != spec_artifact_words(
            name,
            instrs,
            options,
            p2,
        ),
{
    lemma_body_words_len(instrs, p1.bounds_check);
    lemma_body_words_len(instrs, p2.bounds_check);
    let a1 = spec_artifact_words(name, instrs, options, p1);
    let a2 = spec_artifact_words(name, instrs, options, p2);
    assert(a1.len() < a2.len());
}

/// Debug builds are never byte-identical to release builds of the same
/// non-trivial source: the debug artifact carries the debug section (and
/// the guarded body), so it is strictly longer.
pub proof fn lemma_build_modes_differ(name: Seq<u8>, instrs: Seq<LineInstr>, options: CompileOptions)
    requires
        instrs.len() >= 1,
    ensures
        spec_artifact_words(name, instrs, options, spec_policy_for(BuildMode::Debug))
            != spec_artifact_words(name, instrs, options, spec_policy_for(BuildMode::Release)),
{
    let pd = spec_policy_for(BuildMode::Debug);
    let pr = spec_policy_for(BuildMode::Release);
    lemma_body_words_len(instrs, pd.bounds_check);
    lemma_body_words_len(instrs, pr.bounds_check);
    let ad = spec_artifact_words(name, instrs, options, pd);
    let ar = spec_artifact_words(name, instrs, options, pr);
    assert(ad.len() > ar.len());
}

} // verus!
