//! Stage resolution: a shader source is classified by the suffix of its
//! identifier. The mapping is total over the three recognized suffixes and
//! mutually exclusive; anything else is a classification failure that aborts
//! the whole build.

use vstd::prelude::*;

verus! {

/// The pipeline stage a shader source belongs to.
#[derive(Clone, Copy, PartialEq, Eq, Structural, Debug)]
pub enum Stage {
    Vertex,
    Fragment,
    Compute,
}

/// The suffix that marks a vertex shader source.
pub open spec fn suffix_vert() -> Seq<u8> {
    seq![46, 118, 101, 114, 116]
}

/// The suffix that marks a fragment shader source.
pub open spec fn suffix_frag() -> Seq<u8> {
    seq![46, 102, 114, 97, 103]
}

/// The suffix that marks a compute shader source.
pub open spec fn suffix_comp() -> Seq<u8> {
    seq![46, 99, 111, 109, 112]
}

/// `s` ends with `suffix`.
pub open spec fn ends_with(s: Seq<u8>, suffix: Seq<u8>) -> bool {
    s.len() >= suffix.len() && s.subrange(s.len() - suffix.len(), s.len() as int) == suffix
}

/// Classification of a source identifier: the stage its suffix names, or
/// `None` when no recognized suffix matches.
pub open spec fn stage_of(name: Seq<u8>) -> Option<Stage> {
    if ends_with(name, suffix_vert()) {
        Some(Stage::Vertex)
    } else if ends_with(name, suffix_frag()) {
        Some(Stage::Fragment)
    } else if ends_with(name, suffix_comp()) {
        Some(Stage::Compute)
    } else {
        None
    }
}

/// Does `s` end with the five given bytes?
fn ends_with5(s: &[u8], s0: u8, s1: u8, s2: u8, s3: u8, s4: u8) -> (r: bool)
    ensures
        r == ends_with(s@, seq![s0, s1, s2, s3, s4]),
{
    if s.len() < 5 {
        return false;
    }
    let n = s.len();
    let r = s[n - 5] == s0 && s[n - 4] == s1 && s[n - 3] == s2 && s[n - 2] == s3 && s[n - 1] == s4;
    proof {
        let suf = seq![s0, s1, s2, s3, s4];
        let sub = s@.subrange(n - 5, n as int);
        if r {
            assert(sub =~= suf);
        }
        if sub == suf {
            assert(sub[0] == s0 && sub[1] == s1 && sub[2] == s2 && sub[3] == s3 && sub[4] == s4);
        }
    }
    r
}

/// Resolve the stage of a source identifier from its suffix.
pub fn resolve_stage(name: &[u8]) -> (r: Option<Stage>)
    ensures
        r == stage_of(name@),
{
    if ends_with5(name, 46, 118, 101, 114, 116) {
        Some(Stage::Vertex)
    } else if ends_with5(name, 46, 102, 114, 97, 103) {
        Some(Stage::Fragment)
    } else if ends_with5(name, 46, 99, 111, 109, 112) {
        Some(Stage::Compute)
    } else {
        None
    }
}

/// Stage classification is total and exclusive: each recognized suffix maps
/// to exactly one stage, regardless of the order the suffixes are tried in,
/// and an identifier with no recognized suffix maps to no stage at all.
pub proof fn lemma_stage_classification(name: Seq<u8>)
    ensures
        ends_with(name, suffix_vert()) ==> stage_of(name) == Some(Stage::Vertex),
        ends_with(name, suffix_frag()) ==> stage_of(name) == Some(Stage::Fragment),
        ends_with(name, suffix_comp()) ==> stage_of(name) == Some(Stage::Compute),
        !ends_with(name, suffix_vert()) && !ends_with(name, suffix_frag()) && !ends_with(
            name,
            suffix_comp(),
        ) ==> stage_of(name) is None,
{
    if ends_with(name, suffix_vert()) && ends_with(name, suffix_frag()) {
        let sub = name.subrange(name.len() - 5, name.len() as int);
        assert(sub[1] == 118 && sub[1] == 102);
    }
    if ends_with(name, suffix_vert()) && ends_with(name, suffix_comp()) {
        let sub = name.subrange(name.len() - 5, name.len() as int);
        assert(sub[1] == 118 && sub[1] == 99);
    }
    if ends_with(name, suffix_frag()) && ends_with(name, suffix_comp()) {
        let sub = name.subrange(name.len() - 5, name.len() as int);
        assert(sub[1] == 102 && sub[1] == 99);
    }
}

} // verus!
