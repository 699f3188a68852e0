use mehu_engine::batch::{BuildError, CompilerContext, ShaderSource};
use mehu_engine::codegen::generate;
use mehu_engine::package::artifact_file_name;
use mehu_engine::parse::{parse, Instr, LineInstr, ParseErrorKind};
use mehu_engine::policy::{
    entry_point_name, options_for, policy_for, BoundsCheck, BuildMode, CompilePolicy,
    OutputLocation,
};
use mehu_engine::stage::{resolve_stage, Stage};
use mehu_engine::validate::{validate, ValidationError};

fn words_of(bytes: &[u8]) -> Vec<u32> {
    assert_eq!(bytes.len() % 4, 0);
    bytes
        .chunks(4)
        .map(|c| u32::from_le_bytes([c[0], c[1], c[2], c[3]]))
        .collect()
}

#[test]
fn stage_classification_is_total_and_exclusive() {
    assert_eq!(resolve_stage(b"a.vert"), Some(Stage::Vertex));
    assert_eq!(resolve_stage(b"quad.frag"), Some(Stage::Fragment));
    assert_eq!(resolve_stage(b"sum.comp"), Some(Stage::Compute));
    assert_eq!(resolve_stage(b".vert"), Some(Stage::Vertex));
    assert_eq!(resolve_stage(b"b.xyz"), None);
    assert_eq!(resolve_stage(b"vert"), None);
    assert_eq!(resolve_stage(b"a.vertx"), None);
    assert_eq!(resolve_stage(b""), None);
}

#[test]
fn policy_follows_build_mode() {
    let debug = policy_for(BuildMode::Debug);
    assert!(debug.emit_debug_labels);
    assert_eq!(debug.bounds_check, BoundsCheck::ReadZeroSkipWrite);
    assert!(!debug.zero_init_workgroup_memory);
    let release = policy_for(BuildMode::Release);
    assert!(!release.emit_debug_labels);
    assert_eq!(release.bounds_check, BoundsCheck::Unchecked);
    assert!(!release.zero_init_workgroup_memory);
}

#[test]
fn options_carry_stage_and_fixed_version() {
    let o = options_for(Stage::Fragment);
    assert_eq!(o.stage, Stage::Fragment);
    assert_eq!((o.target_major, o.target_minor), (1, 0));
    assert_eq!(entry_point_name(), b"main".to_vec());
}

#[test]
fn parse_accepts_every_instruction_form() {
    let options = options_for(Stage::Vertex);
    let text = b"mov 1 0\nadd 2 1 1\nmul 3 2 1\nload 4 0 3\nout 4";
    let m = parse(text, &options).unwrap();
    assert_eq!(m.stage, Stage::Vertex);
    assert_eq!(
        m.instrs,
        vec![
            LineInstr { line: 1, instr: Instr::Mov { dst: 1, src: 0 } },
            LineInstr { line: 2, instr: Instr::Add { dst: 2, lhs: 1, rhs: 1 } },
            LineInstr { line: 3, instr: Instr::Mul { dst: 3, lhs: 2, rhs: 1 } },
            LineInstr { line: 4, instr: Instr::Load { dst: 4, binding: 0, index: 3 } },
            LineInstr { line: 5, instr: Instr::Out { src: 4 } },
        ]
    );
}

#[test]
fn parse_skips_blanks_and_comments() {
    let options = options_for(Stage::Vertex);
    let m = parse(b"# full-screen quad\n\nout 0\n", &options).unwrap();
    assert_eq!(m.instrs, vec![LineInstr { line: 3, instr: Instr::Out { src: 0 } }]);
}

#[test]
fn parse_rejects_unknown_opcode() {
    let options = options_for(Stage::Vertex);
    let e = parse(b"jmp 1", &options).unwrap_err();
    assert_eq!(e.line, 1);
    assert_eq!(e.kind, ParseErrorKind::UnknownOpcode);
}

#[test]
fn parse_rejects_malformed_operands() {
    let options = options_for(Stage::Vertex);
    let e = parse(b"mov 1", &options).unwrap_err();
    assert_eq!((e.line, e.kind), (1, ParseErrorKind::MalformedOperands));
    let e = parse(b"mov 1 23", &options).unwrap_err();
    assert_eq!((e.line, e.kind), (1, ParseErrorKind::MalformedOperands));
    let e = parse(b"load 1 0", &options).unwrap_err();
    assert_eq!((e.line, e.kind), (1, ParseErrorKind::MalformedOperands));
}

#[test]
fn parse_reports_the_failing_line() {
    let options = options_for(Stage::Vertex);
    let e = parse(b"out 0\nmov x", &options).unwrap_err();
    assert_eq!((e.line, e.kind), (2, ParseErrorKind::MalformedOperands));
}

#[test]
fn validate_computes_analysis_metadata() {
    let options = options_for(Stage::Vertex);
    let m = parse(b"mov 1 0\nload 2 0 1\nload 3 1 0\nout 3", &options).unwrap();
    let info = validate(&m).unwrap();
    assert_eq!(info.defined_mask, 0b1111);
    assert_eq!(info.load_count, 2);
    assert_eq!(info.out_count, 1);
}

#[test]
fn validate_accepts_builtin_register_zero() {
    let options = options_for(Stage::Vertex);
    let m = parse(b"out 0", &options).unwrap();
    let info = validate(&m).unwrap();
    assert_eq!(info.defined_mask, 1);
    assert_eq!(info.out_count, 1);
}

#[test]
fn validate_rejects_use_before_def() {
    let options = options_for(Stage::Vertex);
    let m = parse(b"out 3", &options).unwrap();
    assert_eq!(validate(&m).unwrap_err(), ValidationError::UseBeforeDef { line: 1 });
}

#[test]
fn validate_rejects_register_out_of_range() {
    let options = options_for(Stage::Vertex);
    let m = parse(b"mov 9 0", &options).unwrap();
    assert_eq!(validate(&m).unwrap_err(), ValidationError::RegisterOutOfRange { line: 1 });
}

#[test]
fn validate_rejects_binding_out_of_range() {
    let options = options_for(Stage::Vertex);
    let m = parse(b"load 1 4 0", &options).unwrap();
    assert_eq!(validate(&m).unwrap_err(), ValidationError::BindingOutOfRange { line: 1 });
}

#[test]
fn validate_rejects_module_without_output() {
    let options = options_for(Stage::Vertex);
    let m = parse(b"mov 1 0", &options).unwrap();
    assert_eq!(validate(&m).unwrap_err(), ValidationError::NoOutput);
}

#[test]
fn scenario_minimal_vertex_shader_compiles() {
    let p = CompilerContext::new().compile_source(b"a.vert", b"out 0", BuildMode::Release).unwrap();
    assert!(!p.bytes.is_empty());
    assert_eq!(p.file_name, b"a.vert.spv".to_vec());
    assert_eq!(p.location, OutputLocation::Resource);
    let words = words_of(&p.bytes);
    assert_eq!(words[2], 1, "stage word names the vertex stage");
}

#[test]
fn release_artifact_bytes_are_exact() {
    let p = CompilerContext::new().compile_source(b"a.vert", b"out 0", BuildMode::Release).unwrap();
    let words = words_of(&p.bytes);
    assert_eq!(
        words,
        vec![0x53484452, 0x00010000, 1, 0, 0x6D61696E, 1, 0x05000000]
    );
    assert_eq!(&p.bytes[0..4], &[0x52, 0x44, 0x48, 0x53], "words are little-endian");
}

#[test]
fn debug_artifact_carries_source_mapping() {
    let p = CompilerContext::new().compile_source(b"a.vert", b"out 0", BuildMode::Debug).unwrap();
    assert_eq!(p.location, OutputLocation::BuildScratch);
    let words = words_of(&p.bytes);
    assert_eq!(
        words,
        vec![
            0x53484452, 0x00010000, 1, 5, 0x6D61696E, 1, 0x05000000, 0xD1A60001, 6, 97, 46,
            118, 101, 114, 116, 1,
        ]
    );
}

#[test]
fn compilation_is_deterministic() {
    let mut ctx = CompilerContext::new();
    for mode in [BuildMode::Debug, BuildMode::Release] {
        let a = ctx.compile_source(b"quad.vert", b"mov 1 0\nload 2 0 1\nout 2", mode).unwrap();
        let b = ctx.compile_source(b"quad.vert", b"mov 1 0\nload 2 0 1\nout 2", mode).unwrap();
        assert_eq!(a.bytes, b.bytes);
        assert_eq!(a.file_name, b.file_name);
        assert_eq!(a.location, b.location);
    }
}

#[test]
fn bounds_check_policy_changes_the_bytecode() {
    let options = options_for(Stage::Vertex);
    let m = parse(b"load 1 0 0\nout 1", &options).unwrap();
    let info = validate(&m).unwrap();
    let unchecked = CompilePolicy {
        emit_debug_labels: false,
        bounds_check: BoundsCheck::Unchecked,
        zero_init_workgroup_memory: false,
    };
    let guarded = CompilePolicy {
        emit_debug_labels: false,
        bounds_check: BoundsCheck::ReadZeroSkipWrite,
        zero_init_workgroup_memory: false,
    };
    let a = generate(b"a.vert", &m, &info, &options, &unchecked);
    let b = generate(b"a.vert", &m, &info, &options, &guarded);
    assert_ne!(a.words, b.words);
    assert_eq!(b.words.len(), a.words.len() + 1, "one guard word per indexed access");
}

#[test]
fn debug_and_release_artifacts_differ() {
    let a = CompilerContext::new().compile_source(b"a.vert", b"out 0", BuildMode::Debug).unwrap();
    let b = CompilerContext::new().compile_source(b"a.vert", b"out 0", BuildMode::Release).unwrap();
    assert_ne!(a.bytes, b.bytes);
}

#[test]
fn unknown_extension_fails_the_build() {
    let e = CompilerContext::new().compile_source(b"b.xyz", b"out 0", BuildMode::Release).unwrap_err();
    assert!(matches!(e, BuildError::UnknownStage { ref name } if name == b"b.xyz"));
}

#[test]
fn parse_failure_is_fatal_and_names_the_file() {
    let e = CompilerContext::new().compile_source(b"bad.frag", b"oops", BuildMode::Release).unwrap_err();
    match e {
        BuildError::Parse { name, stage, error } => {
            assert_eq!(name, b"bad.frag".to_vec());
            assert_eq!(stage, Stage::Fragment);
            assert_eq!(error.line, 1);
        }
        other => panic!("expected a parse failure, got {:?}", other),
    }
}

#[test]
fn validation_failure_is_fatal_and_names_the_file() {
    let e = CompilerContext::new().compile_source(b"bad.vert", b"out 5", BuildMode::Release).unwrap_err();
    match e {
        BuildError::Validate { name, stage, error } => {
            assert_eq!(name, b"bad.vert".to_vec());
            assert_eq!(stage, Stage::Vertex);
            assert_eq!(error, ValidationError::UseBeforeDef { line: 1 });
        }
        other => panic!("expected a validation failure, got {:?}", other),
    }
}

#[test]
fn batch_compiles_every_source_in_order() {
    let sources = vec![
        ShaderSource { name: b"quad.vert".to_vec(), text: b"out 0".to_vec() },
        ShaderSource { name: b"test.frag".to_vec(), text: b"mov 1 0\nout 1".to_vec() },
    ];
    let arts = CompilerContext::new().compile_batch(&sources, BuildMode::Release).unwrap();
    assert_eq!(arts.len(), 2);
    assert_eq!(arts[0].file_name, b"quad.vert.spv".to_vec());
    assert_eq!(arts[1].file_name, b"test.frag.spv".to_vec());
    assert_eq!(words_of(&arts[0].bytes)[2], 1);
    assert_eq!(words_of(&arts[1].bytes)[2], 2);
}

#[test]
fn scenario_unrecognized_extension_aborts_the_batch() {
    let sources = vec![
        ShaderSource { name: b"a.vert".to_vec(), text: b"out 0".to_vec() },
        ShaderSource { name: b"b.xyz".to_vec(), text: b"out 0".to_vec() },
    ];
    let e = CompilerContext::new().compile_batch(&sources, BuildMode::Release).unwrap_err();
    assert!(matches!(e, BuildError::UnknownStage { ref name } if name == b"b.xyz"));
}

#[test]
fn batch_reports_the_first_failure() {
    let sources = vec![
        ShaderSource { name: b"b.xyz".to_vec(), text: b"out 0".to_vec() },
        ShaderSource { name: b"bad.vert".to_vec(), text: b"oops".to_vec() },
    ];
    let e = CompilerContext::new().compile_batch(&sources, BuildMode::Release).unwrap_err();
    assert!(matches!(e, BuildError::UnknownStage { ref name } if name == b"b.xyz"));
}

#[test]
fn artifact_names_append_spv() {
    assert_eq!(artifact_file_name(b"quad.vert"), b"quad.vert.spv".to_vec());
    assert_eq!(artifact_file_name(b"test.frag"), b"test.frag.spv".to_vec());
}

#[test]
fn validate_rejects_oversized_modules() {
    let options = options_for(Stage::Vertex);
    let text = "out 0\n".repeat(65536);
    let m = parse(text.as_bytes(), &options).unwrap();
    assert_eq!(m.instrs.len(), 65536);
    assert_eq!(validate(&m).unwrap_err(), ValidationError::TooManyInstructions);
}

#[test]
fn empty_source_has_no_output() {
    let options = options_for(Stage::Vertex);
    let m = parse(b"", &options).unwrap();
    assert!(m.instrs.is_empty());
    assert_eq!(validate(&m).unwrap_err(), ValidationError::NoOutput);
}
