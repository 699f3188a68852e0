//! Front end: turns shader source text into the intermediate module
//! representation for one stage. The source language is line oriented: each
//! line is empty, a comment, or one instruction written as an opcode and
//! single-digit operands separated by single spaces. Registers are named by
//! digits, as are buffer bindings. Parse failures carry the line they were
//! found on and are always fatal to the build.

use vstd::prelude::*;
use crate::policy::CompileOptions;
use crate::stage::Stage;

verus! {

/// One instruction of the intermediate representation. Operands name
/// registers except `binding`, which names a buffer binding slot.
#[derive(Clone, Copy, PartialEq, Eq, Structural, Debug)]
pub enum Instr {
    /// Copy `src` into `dst`.
    Mov { dst: u8, src: u8 },
    /// Sum of two registers.
    Add { dst: u8, lhs: u8, rhs: u8 },
    /// Product of two registers.
    Mul { dst: u8, lhs: u8, rhs: u8 },
    /// Indexed read from a buffer binding; the one construct bounds-check
    /// policy applies to.
    Load { dst: u8, binding: u8, index: u8 },
    /// Write a register to the stage output.
    Out { src: u8 },
}

/// An instruction together with the source line it came from, the unit of
/// debug source mapping.
#[derive(Clone, Copy, PartialEq, Eq, Structural, Debug)]
pub struct LineInstr {
    pub line: u32,
    pub instr: Instr,
}

/// Why a line failed to parse.
#[derive(Clone, Copy, PartialEq, Eq, Structural, Debug)]
pub enum ParseErrorKind {
    /// The first word of the line is no known opcode.
    UnknownOpcode,
    /// A known opcode whose operands do not fit its shape.
    MalformedOperands,
}

/// A parse failure, located at the source line it was found on.
#[derive(Clone, Copy, PartialEq, Eq, Structural, Debug)]
pub struct ParseError {
    pub line: u32,
    pub kind: ParseErrorKind,
}

/// The module representation the front end hands to validation: the stage
/// it was parsed for and its instructions in source order.
#[derive(Debug)]
pub struct ParsedModule {
    pub stage: Stage,
    pub instrs: Vec<LineInstr>,
}

/// Is `b` the code of a decimal digit?
pub open spec fn is_digit(b: u8) -> bool {
    48 <= b && b <= 57
}

/// The numeric value of a digit byte.
pub open spec fn digit_val(b: u8) -> u8 {
    (b - 48) as u8
}

/// Length of the longest prefix of `s` free of the byte `stop`.
pub open spec fn span_len(s: Seq<u8>, stop: u8) -> nat
    decreases s.len(),
{
    if s.len() == 0 {
        0
    } else if s[0] == stop {
        0
    } else {
        1 + span_len(s.skip(1), stop)
    }
}

/// `span_len` is exactly the index of the first occurrence of `stop`, or
/// the length when there is none.
pub proof fn lemma_span_len_at(s: Seq<u8>, stop: u8, k: nat)
    requires
        k <= s.len(),
        forall|i: int| 0 <= i < k ==> s[i] != stop,
        k == s.len() || s[k as int] == stop,
    ensures
        span_len(s, stop) == k,
    decreases k,
{
    if k == 0 {
    } else {
        assert(s[0] != stop);
        let t = s.skip(1);
        assert(forall|i: int| 0 <= i < k - 1 ==> t[i] == s[i + 1] && s[i + 1] != stop);
        if k < s.len() {
            assert(t[k - 1] == s[k as int]);
        }
        lemma_span_len_at(t, stop, (k - 1) as nat);
    }
}

/// The opcode bytes, `mov`.
pub open spec fn opcode_mov() -> Seq<u8> {
    seq![109, 111, 118]
}

/// The opcode bytes, `add`.
pub open spec fn opcode_add() -> Seq<u8> {
    seq![97, 100, 100]
}

/// The opcode bytes, `mul`.
pub open spec fn opcode_mul() -> Seq<u8> {
    seq![109, 117, 108]
}

/// The opcode bytes, `load`.
pub open spec fn opcode_load() -> Seq<u8> {
    seq![108, 111, 97, 100]
}

/// The opcode bytes, `out`.
pub open spec fn opcode_out() -> Seq<u8> {
    seq![111, 117, 116]
}

/// Parse one source line: `Ok(None)` for blank lines and comments (leading
/// `#`), `Ok(Some(..))` for a well-formed instruction, and the error kind
/// otherwise. The line must not contain a newline.
pub open spec fn spec_parse_line(line: Seq<u8>) -> Result<Option<Instr>, ParseErrorKind> {
    if line.len() == 0 || line[0] == 35 {
        Ok(None)
    } else {
        let tok = line.take(span_len(line, 32) as int);
        if tok == opcode_mov() {
            if line.len() == 7 && is_digit(line[4]) && line[5] == 32 && is_digit(line[6]) {
                Ok(Some(Instr::Mov { dst: digit_val(line[4]), src: digit_val(line[6]) }))
            } else {
                Err(ParseErrorKind::MalformedOperands)
            }
        } else if tok == opcode_add() {
            if line.len() == 9 && is_digit(line[4]) && line[5] == 32 && is_digit(line[6])
                && line[7] == 32 && is_digit(line[8]) {
                Ok(
                    Some(
                        Instr::Add {
                            dst: digit_val(line[4]),
                            lhs: digit_val(line[6]),
                            rhs: digit_val(line[8]),
                        },
                    ),
                )
            } else {
                Err(ParseErrorKind::MalformedOperands)
            }
        } else if tok == opcode_mul() {
            if line.len() == 9 && is_digit(line[4]) && line[5] == 32 && is_digit(line[6])
                && line[7] == 32 && is_digit(line[8]) {
                Ok(
                    Some(
                        Instr::Mul {
                            dst: digit_val(line[4]),
                            lhs: digit_val(line[6]),
                            rhs: digit_val(line[8]),
                        },
                    ),
                )
            } else {
                Err(ParseErrorKind::MalformedOperands)
            }
        } else if tok == opcode_load() {
            if line.len() == 10 && is_digit(line[5]) && line[6] == 32 && is_digit(line[7])
                && line[8] == 32 && is_digit(line[9]) {
                Ok(
                    Some(
                        Instr::Load {
                            dst: digit_val(line[5]),
                            binding: digit_val(line[7]),
                            index: digit_val(line[9]),
                        },
                    ),
                )
            } else {
                Err(ParseErrorKind::MalformedOperands)
            }
        } else if tok == opcode_out() {
            if line.len() == 5 && is_digit(line[4]) {
                Ok(Some(Instr::Out { src: digit_val(line[4]) }))
            } else {
                Err(ParseErrorKind::MalformedOperands)
            }
        } else {
            Err(ParseErrorKind::UnknownOpcode)
        }
    }
}

/// Parse a whole source text, line by line, numbering lines from `lineno`.
/// The first failing line decides the error; otherwise the instructions of
/// all lines, in order.
pub open spec fn spec_parse_from(text: Seq<u8>, lineno: u32) -> Result<Seq<LineInstr>, ParseError>
    decreases text.len(),
{
    if text.len() == 0 {
        Ok(seq![])
    } else {
        let l = span_len(text, 10);
        let line = text.take(l as int);
        let rest = if l < text.len() {
            text.skip(l as int + 1)
        } else {
            Seq::<u8>::empty()
        };
        let next_no = if lineno == u32::MAX {
            lineno
        } else {
            (lineno + 1) as u32
        };
        match spec_parse_line(line) {
            Err(kind) => Err(ParseError { line: lineno, kind }),
            Ok(oi) => match spec_parse_from(rest, next_no) {
                Err(e) => Err(e),
                Ok(tail) => Ok(
                    match oi {
                        Some(instr) => seq![LineInstr { line: lineno, instr }] + tail,
                        None => tail,
                    },
                ),
            },
        }
    }
}

/// Is `b` the code of a decimal digit?
fn digit(b: u8) -> (r: bool)
    ensures
        r == is_digit(b),
{
    48 <= b && b <= 57
}

/// Parse one line, already cut out of the text.
fn parse_line(line: &[u8]) -> (r: Result<Option<Instr>, ParseErrorKind>)
    ensures
        r == spec_parse_line(line@),
{
    if line.len() == 0 || line[0] == 35 {
        return Ok(None);
    }
    let mut t: usize = 0;
    while t < line.len() && line[t] != 32
        invariant
            t <= line.len(),
            forall|i: int| 0 <= i < t ==> line@[i] != 32,
        decreases line.len() - t,
    {
        t += 1;
    }
    proof {
        lemma_span_len_at(line@, 32, t as nat);
    }
    let ghost tok = line@.take(t as int);
    let is_mov = t == 3 && line[0] == 109 && line[1] == 111 && line[2] == 118;
    let is_add = t == 3 && line[0] == 97 && line[1] == 100 && line[2] == 100;
    let is_mul = t == 3 && line[0] == 109 && line[1] == 117 && line[2] == 108;
    let is_load = t == 4 && line[0] == 108 && line[1] == 111 && line[2] == 97 && line[3] == 100;
    let is_out = t == 3 && line[0] == 111 && line[1] == 117 && line[2] == 116;
    proof {
        assert(tok.len() == t);
        if is_mov {
            assert(tok =~= opcode_mov());
        } else if tok == opcode_mov() {
            assert(t == 3);
            assert(line@[0] == tok[0] && line@[1] == tok[1] && line@[2] == tok[2]);
            assert(false);
        }
        if is_add {
            assert(tok =~= opcode_add());
        } else if tok == opcode_add() {
            assert(t == 3);
            assert(line@[0] == tok[0] && line@[1] == tok[1] && line@[2] == tok[2]);
            assert(false);
        }
        if is_mul {
            assert(tok =~= opcode_mul());
        } else if tok == opcode_mul() {
            assert(t == 3);
            assert(line@[0] == tok[0] && line@[1] == tok[1] && line@[2] == tok[2]);
            assert(false);
        }
        if is_load {
            assert(tok =~= opcode_load());
        } else if tok == opcode_load() {
            assert(t == 4);
            assert(line@[0] == tok[0] && line@[1] == tok[1] && line@[2] == tok[2] && line@[3]
                == tok[3]);
            assert(false);
        }
        if is_out {
            assert(tok =~= opcode_out());
        } else if tok == opcode_out() {
            assert(t == 3);
            assert(line@[0] == tok[0] && line@[1] == tok[1] && line@[2] == tok[2]);
            assert(false);
        }
    }
    if is_mov {
        if line.len() == 7 && digit(line[4]) && line[5] == 32 && digit(line[6]) {
            Ok(Some(Instr::Mov { dst: line[4] - 48, src: line[6] - 48 }))
        } else {
            Err(ParseErrorKind::MalformedOperands)
        }
    } else if is_add {
        if line.len() == 9 && digit(line[4]) && line[5] == 32 && digit(line[6]) && line[7] == 32
            && digit(line[8]) {
            Ok(Some(Instr::Add { dst: line[4] - 48, lhs: line[6] - 48, rhs: line[8] - 48 }))
        } else {
            Err(ParseErrorKind::MalformedOperands)
        }
    } else if is_mul {
        if line.len() == 9 && digit(line[4]) && line[5] == 32 && digit(line[6]) && line[7] == 32
            && digit(line[8]) {
            Ok(Some(Instr::Mul { dst: line[4] - 48, lhs: line[6] - 48, rhs: line[8] - 48 }))
        } else {
            Err(ParseErrorKind::MalformedOperands)
        }
    } else if is_load {
        if line.len() == 10 && digit(line[5]) && line[6] == 32 && digit(line[7]) && line[8] == 32
            && digit(line[9]) {
            Ok(Some(Instr::Load { dst: line[5] - 48, binding: line[7] - 48, index: line[9] - 48 }))
        } else {
            Err(ParseErrorKind::MalformedOperands)
        }
    } else if is_out {
        if line.len() == 5 && digit(line[4]) {
            Ok(Some(Instr::Out { src: line[4] - 48 }))
        } else {
            Err(ParseErrorKind::MalformedOperands)
        }
    } else {
        Err(ParseErrorKind::UnknownOpcode)
    }
}

/// Parse a whole source text into the module representation for the stage
/// the options name. Returns the instructions of all lines in source order,
/// or the error of the first line that fails.
pub fn parse(text: &[u8], options: &CompileOptions) -> (r: Result<ParsedModule, ParseError>)
    ensures
        r matches Ok(m) ==> m.stage == options.stage && spec_parse_from(text@, 1) == Ok::<
            Seq<LineInstr>,
            ParseError,
        >(m.instrs@),
        r matches Err(e) ==> spec_parse_from(text@, 1) == Err::<Seq<LineInstr>, ParseError>(e),
{
    let mut i: usize = 0;
    let mut lineno: u32 = 1;
    let mut out: Vec<LineInstr> = Vec::new();
    proof {
        assert(text@.skip(0) =~= text@);
        let r0 = spec_parse_from(text@, 1);
        if r0 is Ok {
            assert(Seq::<LineInstr>::empty() + r0->Ok_0 =~= r0->Ok_0);
        }
    }
    while i < text.len()
        invariant
            i <= text.len(),
            spec_parse_from(text@, 1) == (match spec_parse_from(text@.skip(i as int), lineno) {
                Ok(tail) => Ok::<Seq<LineInstr>, ParseError>(out@ + tail),
                Err(e) => Err::<Seq<LineInstr>, ParseError>(e),
            }),
        decreases text.len() - i,
    {
        let mut j: usize = i;
        while j < text.len() && text[j] != 10
            invariant
                i <= j <= text.len(),
                forall|k: int| i <= k < j ==> text@[k] != 10,
            decreases text.len() - j,
        {
            j += 1;
        }
        let mut line: Vec<u8> = Vec::new();
        let mut k: usize = i;
        while k < j
            invariant
                i <= k <= j <= text.len(),
                line@ == text@.subrange(i as int, k as int),
            decreases j - k,
        {
            line.push(text[k]);
            proof {
                assert(line@ =~= text@.subrange(i as int, k as int + 1));
            }
            k += 1;
        }
        let ghost s = text@.skip(i as int);
        proof {
            assert(forall|m: int| 0 <= m < j - i ==> s[m] == text@[i + m] && text@[i + m] != 10);
            if j < text.len() {
                assert(s[j - i] == text@[j as int]);
            }
            lemma_span_len_at(s, 10, (j - i) as nat);
            assert(line@ =~= s.take(j - i));
        }
        let pr = parse_line(line.as_slice());
        let ghost next_no: u32 = if lineno == u32::MAX {
            lineno
        } else {
            (lineno + 1) as u32
        };
        let ghost rest = if j < text.len() {
            text@.skip(j as int + 1)
        } else {
            Seq::<u8>::empty()
        };
        proof {
            if j < text.len() {
                assert(s.skip((j - i) as int + 1) =~= text@.skip(j as int + 1));
            } else {
                assert(s.len() == span_len(s, 10));
            }
            assert(spec_parse_from(s, lineno) == (match spec_parse_line(line@) {
                Err(kind) => Err::<Seq<LineInstr>, ParseError>(ParseError { line: lineno, kind }),
                Ok(oi) => match spec_parse_from(rest, next_no) {
                    Err(e) => Err::<Seq<LineInstr>, ParseError>(e),
                    Ok(tail) => Ok(
                        match oi {
                            Some(instr) => seq![LineInstr { line: lineno, instr }] + tail,
                            None => tail,
                        },
                    ),
                },
            }));
        }
        match pr {
            Err(kind) => {
                return Err(ParseError { line: lineno, kind });
            },
            Ok(oi) => {
                let ghost old_out = out@;
                match oi {
                    Some(instr) => {
                        out.push(LineInstr { line: lineno, instr });
                        proof {
                            assert(out@ =~= old_out + seq![LineInstr { line: lineno, instr }]);
                        }
                    },
                    None => {},
                }
                proof {
                    let rn = spec_parse_from(rest, next_no);
                    if rn is Ok {
                        let tail = rn->Ok_0;
                        let head: Seq<LineInstr> = match oi {
                            Some(instr) => seq![LineInstr { line: lineno, instr }],
                            None => seq![],
                        };
                        assert(spec_parse_from(s, lineno) == Ok::<Seq<LineInstr>, ParseError>(
                            head + tail,
                        ));
                        assert(old_out + (head + tail) =~= out@ + tail);
                    }
                }
            },
        }
        i = if j < text.len() {
            j + 1
        } else {
            j
        };
        lineno = if lineno == u32::MAX {
            lineno
        } else {
            lineno + 1
        };
        proof {
            assert(text@.skip(i as int) =~= rest);
        }
    }
    proof {
        assert(text@.skip(i as int) =~= Seq::<u8>::empty());
        assert(out@ + Seq::<LineInstr>::empty() =~= out@);
    }
    Ok(ParsedModule { stage: options.stage, instrs: out })
}

} // verus!
