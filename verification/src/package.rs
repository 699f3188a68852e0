//! Artifact packaging: the fixed binary encoding consumers depend on.
//! Each 32-bit word is written little-endian and the words are
//! concatenated in order. The packaged file is named by appending `.spv`
//! to the source identifier, and is destined for the build-mode-dependent
//! output location; writing it to disk is the caller's business.

use vstd::prelude::*;
use crate::codegen::CompiledArtifact;
use crate::policy::OutputLocation;

verus! {

/// The four little-endian bytes of one word.
pub open spec fn spec_le_bytes(w: u32) -> Seq<u8> {
    seq![
        (w & 0xFF) as u8,
        ((w >> 8u32) & 0xFF) as u8,
        ((w >> 16u32) & 0xFF) as u8,
        ((w >> 24u32) & 0xFF) as u8,
    ]
}

/// The byte encoding of a word sequence: each word little-endian,
/// concatenated in order.
pub open spec fn spec_encode_words(ws: Seq<u32>) -> Seq<u8>
    decreases ws.len(),
{
    if ws.len() == 0 {
        Seq::empty()
    } else {
        spec_encode_words(ws.drop_last()) + spec_le_bytes(ws.last())
    }
}

/// The encoding is four bytes per word.
pub proof fn lemma_encode_words_len(ws: Seq<u32>)
    ensures
        spec_encode_words(ws).len() == 4 * ws.len(),
    decreases ws.len(),
{
    if ws.len() != 0 {
        lemma_encode_words_len(ws.drop_last());
    }
}

/// The suffix appended to a source identifier to name its artifact file.
pub open spec fn artifact_suffix() -> Seq<u8> {
    seq![46, 115, 112, 118]
}

/// The artifact file name for a source identifier: the identifier with
/// `.spv` appended, so the stage suffix stays visible in the file name.
pub open spec fn spec_artifact_file_name(name: Seq<u8>) -> Seq<u8> {
    name + artifact_suffix()
}

/// A packaged artifact: its file name, the location it is destined for,
/// and its exact bytes.
#[derive(Debug)]
pub struct PackagedArtifact {
    pub file_name: Vec<u8>,
    pub location: OutputLocation,
    pub bytes: Vec<u8>,
}

/// Serialize an artifact's words into the wire encoding.
pub fn encode_artifact(artifact: &CompiledArtifact) -> (r: Vec<u8>)
    requires
        artifact.words@.len() <= 0x0FFF_FFFF,
    ensures
        r@ == spec_encode_words(artifact.words@),
{
    let n = artifact.words.len();
    let mut bytes: Vec<u8> = Vec::new();
    let mut i: usize = 0;
    proof {
        assert(artifact.words@.take(0) =~= Seq::<u32>::empty());
        assert(bytes@ =~= spec_encode_words(artifact.words@.take(0)));
        lemma_encode_words_len(artifact.words@);
    }
    while i < n
        invariant
            i <= n == artifact.words@.len() <= 0x0FFF_FFFF,
            bytes@ == spec_encode_words(artifact.words@.take(i as int)),
            bytes@.len() == 4 * i,
        decreases n - i,
    {
        let w = artifact.words[i];
        bytes.push((w & 0xFF) as u8);
        bytes.push(((w >> 8u32) & 0xFF) as u8);
        bytes.push(((w >> 16u32) & 0xFF) as u8);
        bytes.push(((w >> 24u32) & 0xFF) as u8);
        proof {
            assert(artifact.words@.take(i as int + 1).drop_last() =~= artifact.words@.take(
                i as int,
            ));
            assert(artifact.words@.take(i as int + 1).last() == artifact.words@[i as int]);
            assert(bytes@ =~= spec_encode_words(artifact.words@.take(i as int + 1)));
        }
        i = i + 1;
    }
    proof {
        assert(artifact.words@.take(n as int) =~= artifact.words@);
    }
    bytes
}

/// Build the artifact file name for a source identifier.
pub fn artifact_file_name(name: &[u8]) -> (r: Vec<u8>)
    ensures
        r@ == spec_artifact_file_name(name@),
{
    let mut out: Vec<u8> = Vec::new();
    let mut i: usize = 0;
    proof {
        assert(out@ =~= name@.take(0));
    }
    while i < name.len()
        invariant
            i <= name@.len(),
            out@ == name@.take(i as int),
        decreases name@.len() - i,
    {
        out.push(name[i]);
        proof {
            assert(out@ =~= name@.take(i as int + 1));
        }
        i = i + 1;
    }
    proof {
        assert(name@.take(name@.len() as int) =~= name@);
    }
    out.push(46);
    out.push(115);
    out.push(112);
    out.push(118);
    proof {
        assert(out@ =~= spec_artifact_file_name(name@));
    }
    out
}

} // verus!
