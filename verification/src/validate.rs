//! Validation: mandatory well-formedness checking of a parsed module, and
//! the analysis metadata code generation needs. A module is well-formed
//! when every operand names an existing register or binding, every register
//! is written before it is read (register 0 is pre-defined: it carries the
//! built-in linear index), and at least one instruction writes the stage
//! output. There is no unchecked mode for validation itself.

use vstd::prelude::*;
use crate::parse::{Instr, LineInstr, ParsedModule};

verus! {

/// Number of registers a module may use.
pub const REGISTER_COUNT: u8 = 8;

/// Number of buffer binding slots a module may address.
pub const BINDING_COUNT: u8 = 4;

/// Largest instruction count a module may have.
pub const MAX_INSTRUCTIONS: usize = 65535;

/// Bit mask of the registers defined before the first instruction runs:
/// only register 0, the built-in linear index.
pub const INITIAL_MASK: u32 = 1;

/// Why a module failed validation.
#[derive(Clone, Copy, PartialEq, Eq, Structural, Debug)]
pub enum ValidationError {
    /// More instructions than [`MAX_INSTRUCTIONS`].
    TooManyInstructions,
    /// An operand names a register beyond [`REGISTER_COUNT`].
    RegisterOutOfRange { line: u32 },
    /// A load names a binding slot beyond [`BINDING_COUNT`].
    BindingOutOfRange { line: u32 },
    /// A register is read before any instruction wrote it.
    UseBeforeDef { line: u32 },
    /// No instruction writes the stage output.
    NoOutput,
}

/// The analysis result that travels with a validated module into code
/// generation: which registers end up defined, and how many indexed
/// accesses and output writes the module holds.
#[derive(Clone, Copy, PartialEq, Eq, Structural, Debug)]
pub struct ValidationInfo {
    /// Bit `r` is set when register `r` is defined after the last
    /// instruction.
    pub defined_mask: u32,
    /// Number of `Load` instructions; each one is an indexed access that
    /// bounds-check policy applies to.
    pub load_count: u32,
    /// Number of `Out` instructions.
    pub out_count: u32,
}

/// Is register `r` defined under `mask`?
pub open spec fn spec_defined(mask: u32, r: u8) -> bool {
    mask & (1u32 << (r as u32)) != 0
}

/// Check one instruction against the registers defined so far; on success,
/// the mask after it runs.
pub open spec fn spec_check_instr(mask: u32, li: LineInstr) -> Result<u32, ValidationError> {
    match li.instr {
        Instr::Mov { dst, src } => if dst >= REGISTER_COUNT || src >= REGISTER_COUNT {
            Err(ValidationError::RegisterOutOfRange { line: li.line })
        } else if !spec_defined(mask, src) {
            Err(ValidationError::UseBeforeDef { line: li.line })
        } else {
            Ok(mask | (1u32 << (dst as u32)))
        },
        Instr::Add { dst, lhs, rhs } => if dst >= REGISTER_COUNT || lhs >= REGISTER_COUNT || rhs
            >= REGISTER_COUNT {
            Err(ValidationError::RegisterOutOfRange { line: li.line })
        } else if !spec_defined(mask, lhs) || !spec_defined(mask, rhs) {
            Err(ValidationError::UseBeforeDef { line: li.line })
        } else {
            Ok(mask | (1u32 << (dst as u32)))
        },
        Instr::Mul { dst, lhs, rhs } => if dst >= REGISTER_COUNT || lhs >= REGISTER_COUNT || rhs
            >= REGISTER_COUNT {
            Err(ValidationError::RegisterOutOfRange { line: li.line })
        } else if !spec_defined(mask, lhs) || !spec_defined(mask, rhs) {
            Err(ValidationError::UseBeforeDef { line: li.line })
        } else {
            Ok(mask | (1u32 << (dst as u32)))
        },
        Instr::Load { dst, binding, index } => if dst >= REGISTER_COUNT || index
            >= REGISTER_COUNT {
            Err(ValidationError::RegisterOutOfRange { line: li.line })
        } else if binding >= BINDING_COUNT {
            Err(ValidationError::BindingOutOfRange { line: li.line })
        } else if !spec_defined(mask, index) {
            Err(ValidationError::UseBeforeDef { line: li.line })
        } else {
            Ok(mask | (1u32 << (dst as u32)))
        },
        Instr::Out { src } => if src >= REGISTER_COUNT {
            Err(ValidationError::RegisterOutOfRange { line: li.line })
        } else if !spec_defined(mask, src) {
            Err(ValidationError::UseBeforeDef { line: li.line })
        } else {
            Ok(mask)
        },
    }
}

/// Check the instructions from position `i` on, threading the defined-set
/// mask; on success, the final mask.
pub open spec fn spec_check_from(instrs: Seq<LineInstr>, i: nat, mask: u32) -> Result<
    u32,
    ValidationError,
>
    decreases instrs.len() - i,
{
    if i >= instrs.len() {
        Ok(mask)
    } else {
        match spec_check_instr(mask, instrs[i as int]) {
            Err(e) => Err(e),
            Ok(m2) => spec_check_from(instrs, i + 1, m2),
        }
    }
}

/// Number of `Load` instructions.
pub open spec fn spec_count_loads(instrs: Seq<LineInstr>) -> nat
    decreases instrs.len(),
{
    if instrs.len() == 0 {
        0
    } else {
        spec_count_loads(instrs.drop_last()) + (if instrs.last().instr is Load {
            1nat
        } else {
            0nat
        })
    }
}

/// Number of `Out` instructions.
pub open spec fn spec_count_outs(instrs: Seq<LineInstr>) -> nat
    decreases instrs.len(),
{
    if instrs.len() == 0 {
        0
    } else {
        spec_count_outs(instrs.drop_last()) + (if instrs.last().instr is Out {
            1nat
        } else {
            0nat
        })
    }
}

/// Both instruction counts are bounded by the length.
pub proof fn lemma_counts_le(instrs: Seq<LineInstr>)
    ensures
        spec_count_loads(instrs) <= instrs.len(),
        spec_count_outs(instrs) <= instrs.len(),
    decreases instrs.len(),
{
    if instrs.len() != 0 {
        lemma_counts_le(instrs.drop_last());
    }
}

/// Validation of a whole module: the instruction count must be bounded,
/// every instruction must check, and the module must write the output at
/// least once.
pub open spec fn spec_validate(instrs: Seq<LineInstr>) -> Result<ValidationInfo, ValidationError> {
    if instrs.len() > MAX_INSTRUCTIONS {
        Err(ValidationError::TooManyInstructions)
    } else {
        match spec_check_from(instrs, 0, INITIAL_MASK) {
            Err(e) => Err(e),
            Ok(mask) => if spec_count_outs(instrs) == 0 {
                Err(ValidationError::NoOutput)
            } else {
                Ok(
                    ValidationInfo {
                        defined_mask: mask,
                        load_count: spec_count_loads(instrs) as u32,
                        out_count: spec_count_outs(instrs) as u32,
                    },
                )
            },
        }
    }
}

/// A module that validates is small enough for code generation, and its
/// metadata counts are bounded by its length.
pub proof fn lemma_validate_bounds(instrs: Seq<LineInstr>, info: ValidationInfo)
    requires
        spec_validate(instrs) == Ok::<ValidationInfo, ValidationError>(info),
    ensures
        instrs.len() <= MAX_INSTRUCTIONS,
        info.load_count <= instrs.len(),
        info.out_count <= instrs.len(),
        1 <= info.out_count,
{
    lemma_counts_le(instrs);
}

/// Check one instruction.
fn check_instr(mask: u32, li: LineInstr) -> (r: Result<u32, ValidationError>)
    ensures
        r == spec_check_instr(mask, li),
{
    match li.instr {
        Instr::Mov { dst, src } => if dst >= REGISTER_COUNT || src >= REGISTER_COUNT {
            Err(ValidationError::RegisterOutOfRange { line: li.line })
        } else if mask & (1u32 << (src as u32)) == 0 {
            Err(ValidationError::UseBeforeDef { line: li.line })
        } else {
            Ok(mask | (1u32 << (dst as u32)))
        },
        Instr::Add { dst, lhs, rhs } => if dst >= REGISTER_COUNT || lhs >= REGISTER_COUNT || rhs
            >= REGISTER_COUNT {
            Err(ValidationError::RegisterOutOfRange { line: li.line })
        } else if mask & (1u32 << (lhs as u32)) == 0 || mask & (1u32 << (rhs as u32)) == 0 {
            Err(ValidationError::UseBeforeDef { line: li.line })
        } else {
            Ok(mask | (1u32 << (dst as u32)))
        },
        Instr::Mul { dst, lhs, rhs } => if dst >= REGISTER_COUNT || lhs >= REGISTER_COUNT || rhs
            >= REGISTER_COUNT {
            Err(ValidationError::RegisterOutOfRange { line: li.line })
        } else if mask & (1u32 << (lhs as u32)) == 0 || mask & (1u32 << (rhs as u32)) == 0 {
            Err(ValidationError::UseBeforeDef { line: li.line })
        } else {
            Ok(mask | (1u32 << (dst as u32)))
        },
        Instr::Load { dst, binding, index } => if dst >= REGISTER_COUNT || index
            >= REGISTER_COUNT {
            Err(ValidationError::RegisterOutOfRange { line: li.line })
        } else if binding >= BINDING_COUNT {
            Err(ValidationError::BindingOutOfRange { line: li.line })
        } else if mask & (1u32 << (index as u32)) == 0 {
            Err(ValidationError::UseBeforeDef { line: li.line })
        } else {
            Ok(mask | (1u32 << (dst as u32)))
        },
        Instr::Out { src } => if src >= REGISTER_COUNT {
            Err(ValidationError::RegisterOutOfRange { line: li.line })
        } else if mask & (1u32 << (src as u32)) == 0 {
            Err(ValidationError::UseBeforeDef { line: li.line })
        } else {
            Ok(mask)
        },
    }
}

/// Validate a parsed module. On success, the analysis metadata that must
/// travel with the module into code generation.
pub fn validate(module: &ParsedModule) -> (r: Result<ValidationInfo, ValidationError>)
    ensures
        r == spec_validate(module.instrs@),
{
    let n = module.instrs.len();
    if n > MAX_INSTRUCTIONS {
        return Err(ValidationError::TooManyInstructions);
    }
    let mut mask: u32 = INITIAL_MASK;
    let mut loads: u32 = 0;
    let mut outs: u32 = 0;
    let mut idx: usize = 0;
    proof {
        assert(module.instrs@.take(0) =~= Seq::<LineInstr>::empty());
    }
    while idx < n
        invariant
            idx <= n == module.instrs@.len() <= MAX_INSTRUCTIONS,
            loads == spec_count_loads(module.instrs@.take(idx as int)),
            outs == spec_count_outs(module.instrs@.take(idx as int)),
            loads <= idx && outs <= idx,
            spec_check_from(module.instrs@, 0, INITIAL_MASK) == spec_check_from(
                module.instrs@,
                idx as nat,
                mask,
            ),
        decreases n - idx,
    {
        let li = module.instrs[idx];
        proof {
            assert(module.instrs@.take(idx as int + 1).drop_last() =~= module.instrs@.take(
                idx as int,
            ));
            assert(module.instrs@.take(idx as int + 1).last() == li);
            lemma_counts_le(module.instrs@.take(idx as int));
        }
        match check_instr(mask, li) {
            Err(e) => {
                return Err(e);
            },
            Ok(m2) => {
                mask = m2;
            },
        }
        match li.instr {
            Instr::Load { .. } => {
                loads = loads + 1;
            },
            Instr::Out { .. } => {
                outs = outs + 1;
            },
            _ => {},
        }
        idx = idx + 1;
    }
    proof {
        assert(module.instrs@.take(n as int) =~= module.instrs@);
    }
    if outs == 0 {
        Err(ValidationError::NoOutput)
    } else {
        Ok(ValidationInfo { defined_mask: mask, load_count: loads, out_count: outs })
    }
}

} // verus!
