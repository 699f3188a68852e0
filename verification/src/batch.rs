//! The offline build driver: compile one shader source, or a whole batch,
//! under one build mode. A batch is all-or-nothing: the first source that
//! fails to classify, parse or validate aborts the build with a diagnostic
//! naming the offending file, and no artifact of a failed build is handed
//! out.

use vstd::prelude::*;
use crate::codegen::{spec_artifact_words, spec_body_words, generate, lemma_body_words_len};
use crate::package::{
    artifact_file_name,
    encode_artifact,
    spec_artifact_file_name,
    spec_encode_words,
    PackagedArtifact,
};
use crate::parse::{parse, spec_parse_from, LineInstr, ParseError};
use crate::policy::{
    options_for,
    output_location,
    policy_for,
    spec_options_for,
    spec_output_location,
    spec_policy_for,
    BuildMode,
    OutputLocation,
};
use crate::stage::{resolve_stage, stage_of, Stage};
use crate::validate::{lemma_validate_bounds, spec_validate, validate, ValidationError};

verus! {

/// What compiling one source comes to, as a mathematical value: the
/// packaged artifact, or the first failure on the way to it.
pub enum CompileOutcome {
    /// The build succeeded with these packaged contents.
    Artifact { file_name: Seq<u8>, location: OutputLocation, bytes: Seq<u8> },
    /// The source identifier carries no recognized stage suffix.
    StageFailure,
    /// The front end rejected the source.
    ParseFailure { stage: Stage, error: ParseError },
    /// The validator rejected the parsed module.
    ValidateFailure { stage: Stage, error: ValidationError },
}

/// A shader source handed to the build: its identifier and its raw text.
#[derive(Debug)]
pub struct ShaderSource {
    pub name: Vec<u8>,
    pub text: Vec<u8>,
}

/// A build-time failure, naming the offending file and, once it is known,
/// its stage.
#[derive(Debug)]
pub enum BuildError {
    /// The identifier carries no recognized stage suffix.
    UnknownStage { name: Vec<u8> },
    /// The source failed to parse.
    Parse { name: Vec<u8>, stage: Stage, error: ParseError },
    /// The parsed module failed validation.
    Validate { name: Vec<u8>, stage: Stage, error: ValidationError },
}

/// The whole compilation pipeline for one source, as a function: stage
/// classification, parsing, validation, code generation under the mode's
/// policy, and packaging.
pub open spec fn spec_compile(name: Seq<u8>, text: Seq<u8>, mode: BuildMode) -> CompileOutcome {
    match stage_of(name) {
        None => CompileOutcome::StageFailure,
        Some(stage) => match spec_parse_from(text, 1) {
            Err(e) => CompileOutcome::ParseFailure { stage, error: e },
            Ok(instrs) => match spec_validate(instrs) {
                Err(e) => CompileOutcome::ValidateFailure { stage, error: e },
                Ok(info) => CompileOutcome::Artifact {
                    file_name: spec_artifact_file_name(name),
                    location: spec_output_location(mode),
                    bytes: spec_encode_words(
                        spec_artifact_words(
                            name,
                            instrs,
                            spec_options_for(stage),
                            spec_policy_for(mode),
                        ),
                    ),
                },
            },
        },
    }
}

/// Does the error value `e` report exactly the failure that `outcome`
/// (the outcome of compiling `name`) holds?
pub open spec fn spec_error_matches(name: Seq<u8>, outcome: CompileOutcome, e: BuildError) -> bool {
    match e {
        BuildError::UnknownStage { name: n } => n@ == name && outcome is StageFailure,
        BuildError::Parse { name: n, stage, error } => n@ == name && (outcome matches
            CompileOutcome::ParseFailure { stage: s2, error: e2 } && s2 == stage && e2 == error),
        BuildError::Validate { name: n, stage, error } => n@ == name && (outcome matches
            CompileOutcome::ValidateFailure { stage: s2, error: e2 } && s2 == stage && e2
            == error),
    }
}

/// Copy a byte slice into an owned vector.
fn to_vec_bytes(s: &[u8]) -> (r: Vec<u8>)
    ensures
        r@ == s@,
{
    let mut out: Vec<u8> = Vec::new();
    let mut i: usize = 0;
    proof {
        assert(out@ =~= s@.take(0));
    }
    while i < s.len()
        invariant
            i <= s@.len(),
            out@ == s@.take(i as int),
        decreases s@.len() - i,
    {
        out.push(s[i]);
        proof {
            assert(out@ =~= s@.take(i as int + 1));
        }
        i = i + 1;
    }
    proof {
        assert(s@.take(s@.len() as int) =~= s@);
    }
    out
}

/// The reusable compiler context: the front end and the validator as one
/// unit of state. Create it once before compiling any shader of a batch,
/// reuse it across all the batch's sources, and drop it after. Every
/// compile call borrows it exclusively, so one context is never used from
/// two threads at once; independent batches take a context each.
#[derive(Debug)]
pub struct CompilerContext {}

impl CompilerContext {
    /// Set up a fresh front end and validator.
    pub fn new() -> (r: CompilerContext) {
        CompilerContext {}
    }

    /// Compile one shader source under one build mode: classify its
    /// stage, parse, validate, generate code under the mode's policy, and
    /// package the result. Succeeds exactly when the pipeline reaches an
    /// artifact; a failure reports the offending file. Source identifiers
    /// are limited to 65535 bytes, the width of the debug section's
    /// name-length field.
    pub fn compile_source(&mut self, name: &[u8], text: &[u8], mode: BuildMode) -> (r: Result<
        PackagedArtifact,
        BuildError,
    >)
        requires
            name@.len() <= 0xFFFF,
        ensures
            r matches Ok(p) ==> spec_compile(name@, text@, mode) == (CompileOutcome::Artifact {
                file_name: p.file_name@,
                location: p.location,
                bytes: p.bytes@,
            }),
            r matches Err(e) ==> spec_error_matches(name@, spec_compile(name@, text@, mode), e),
            r is Ok <==> spec_compile(name@, text@, mode) is Artifact,
    {
        compile_source(name, text, mode)
    }

    /// Compile a whole batch of shader sources under one build mode, in
    /// order. Succeeds with one packaged artifact per source exactly when
    /// every source compiles; the first failure aborts the batch before
    /// any artifact of it is handed out.
    pub fn compile_batch(&mut self, sources: &Vec<ShaderSource>, mode: BuildMode) -> (r: Result<
        Vec<PackagedArtifact>,
        BuildError,
    >)
        requires
            forall|i: int| 0 <= i < sources@.len() ==> sources@[i].name@.len() <= 0xFFFF,
        ensures
            r matches Ok(arts) ==> arts@.len() == sources@.len() && forall|i: int|
                0 <= i < sources@.len() ==> spec_compile(
                    sources@[i].name@,
                    sources@[i].text@,
                    mode,
                ) == (CompileOutcome::Artifact {
                    file_name: arts@[i].file_name@,
                    location: arts@[i].location,
                    bytes: arts@[i].bytes@,
                }),
            r matches Err(e) ==> exists|i: int| spec_batch_failed_at(sources@, mode, i, e),
    {
        compile_batch(sources, mode)
    }
}

/// Compile one shader source: the worker behind
/// [`CompilerContext::compile_source`].
fn compile_source(name: &[u8], text: &[u8], mode: BuildMode) -> (r: Result<
    PackagedArtifact,
    BuildError,
>)
    requires
        name@.len() <= 0xFFFF,
    ensures
        r matches Ok(p) ==> spec_compile(name@, text@, mode) == (CompileOutcome::Artifact {
            file_name: p.file_name@,
            location: p.location,
            bytes: p.bytes@,
        }),
        r matches Err(e) ==> spec_error_matches(name@, spec_compile(name@, text@, mode), e),
        r is Ok <==> spec_compile(name@, text@, mode) is Artifact,
{
    let stage = match resolve_stage(name) {
        None => {
            return Err(BuildError::UnknownStage { name: to_vec_bytes(name) });
        },
        Some(s) => s,
    };
    let options = options_for(stage);
    let module = match parse(text, &options) {
        Err(e) => {
            return Err(BuildError::Parse { name: to_vec_bytes(name), stage, error: e });
        },
        Ok(m) => m,
    };
    let info = match validate(&module) {
        Err(e) => {
            return Err(BuildError::Validate { name: to_vec_bytes(name), stage, error: e });
        },
        Ok(info) => info,
    };
    let policy = policy_for(mode);
    let artifact = generate(name, &module, &info, &options, &policy);
    proof {
        lemma_validate_bounds(module.instrs@, info);
        crate::validate::lemma_counts_le(module.instrs@);
        lemma_body_words_len(module.instrs@, policy.bounds_check);
        assert(spec_body_words(module.instrs@, policy.bounds_check).len() <= 2 * 65535);
        assert(crate::codegen::spec_debug_words(name@, module.instrs@).len() == 2 + name@.len()
            + module.instrs@.len());
        assert(artifact.words@.len() <= 0x0FFF_FFFF);
    }
    let bytes = encode_artifact(&artifact);
    let file_name = artifact_file_name(name);
    let location = output_location(mode);
    Ok(PackagedArtifact { file_name, location, bytes })
}

/// The batch aborted at source `i`: that source fails, the error value
/// reports its failure, and every source before it had compiled cleanly.
pub open spec fn spec_batch_failed_at(
    sources: Seq<ShaderSource>,
    mode: BuildMode,
    i: int,
    e: BuildError,
) -> bool {
    &&& 0 <= i < sources.len()
    &&& !(spec_compile(sources[i].name@, sources[i].text@, mode) is Artifact)
    &&& spec_error_matches(
        sources[i].name@,
        spec_compile(sources[i].name@, sources[i].text@, mode),
        e,
    )
    &&& forall|j: int|
        0 <= j < i ==> spec_compile(sources[j].name@, sources[j].text@, mode) is Artifact
}

/// Compile a whole batch: the worker behind
/// [`CompilerContext::compile_batch`].
fn compile_batch(sources: &Vec<ShaderSource>, mode: BuildMode) -> (r: Result<
    Vec<PackagedArtifact>,
    BuildError,
>)
    requires
        forall|i: int| 0 <= i < sources@.len() ==> sources@[i].name@.len() <= 0xFFFF,
    ensures
        r matches Ok(arts) ==> arts@.len() == sources@.len() && forall|i: int|
            0 <= i < sources@.len() ==> spec_compile(sources@[i].name@, sources@[i].text@, mode)
                == (CompileOutcome::Artifact {
                file_name: arts@[i].file_name@,
                location: arts@[i].location,
                bytes: arts@[i].bytes@,
            }),
        r matches Err(e) ==> exists|i: int| spec_batch_failed_at(sources@, mode, i, e),
{
    let mut arts: Vec<PackagedArtifact> = Vec::new();
    let mut i: usize = 0;
    while i < sources.len()
        invariant
            i <= sources@.len(),
            arts@.len() == i,
            forall|i2: int| 0 <= i2 < sources@.len() ==> sources@[i2].name@.len() <= 0xFFFF,
            forall|j: int|
                0 <= j < i ==> spec_compile(sources@[j].name@, sources@[j].text@, mode)
                    == (CompileOutcome::Artifact {
                    file_name: arts@[j].file_name@,
                    location: arts@[j].location,
                    bytes: arts@[j].bytes@,
                }),
        decreases sources@.len() - i,
    {
        let src = &sources[i];
        match compile_source(src.name.as_slice(), src.text.as_slice(), mode) {
            Ok(p) => {
                arts.push(p);
            },
            Err(e) => {
                proof {
                    assert(src == sources@[i as int]);
                    assert forall|j: int| 0 <= j < i as int implies spec_compile(
                        sources@[j].name@,
                        sources@[j].text@,
                        mode,
                    ) is Artifact by {
                        assert(spec_compile(sources@[j].name@, sources@[j].text@, mode)
                            == (CompileOutcome::Artifact {
                            file_name: arts@[j].file_name@,
                            location: arts@[j].location,
                            bytes: arts@[j].bytes@,
                        }));
                    }
                    assert(spec_batch_failed_at(sources@, mode, i as int, e));
                }
                return Err(e);
            },
        }
        i = i + 1;
    }
    Ok(arts)
}

/// A successful compilation never hands out an empty artifact: a module
/// must write the stage output to validate, so the body holds at least
/// one instruction word beyond the six header words.
pub proof fn lemma_artifact_nonempty(name: Seq<u8>, text: Seq<u8>, mode: BuildMode)
    requires
        spec_compile(name, text, mode) is Artifact,
    ensures
        spec_compile(name, text, mode)->Artifact_bytes.len() >= 28,
{
    let instrs = spec_parse_from(text, 1)->Ok_0;
    let info = spec_validate(instrs)->Ok_0;
    let policy = spec_policy_for(mode);
    lemma_validate_bounds(instrs, info);
    crate::validate::lemma_counts_le(instrs);
    assert(instrs.len() >= 1);
    lemma_body_words_len(instrs, policy.bounds_check);
    let words = spec_artifact_words(name, instrs, spec_options_for(stage_of(name)->0), policy);
    assert(words.len() >= 7);
    crate::package::lemma_encode_words_len(words);
}

/// Determinism of the build: the outcome of compiling a source is a
/// function of the source identifier, the source text and the build mode
/// alone, so any two results obtained for equal inputs are equal, byte
/// for byte.
pub proof fn lemma_compile_deterministic(
    name: Seq<u8>,
    text: Seq<u8>,
    mode: BuildMode,
    r1: CompileOutcome,
    r2: CompileOutcome,
)
    requires
        r1 == spec_compile(name, text, mode),
        r2 == spec_compile(name, text, mode),
    ensures
        r1 == r2,
{
}

} // verus!
