//! The compiled binary module and its two persisted forms.
//!
//! An [`Artifact`] is an immutable byte sequence produced by one successful
//! pipeline run. It can be persisted as-is ([`Artifact::to_binary`], an
//! identity on the bytes) or rendered as a deterministic human-readable
//! disassembly ([`Artifact::to_text`]).

use vstd::prelude::*;

verus! {

/// An immutable byte sequence holding one compiled binary module.
///
/// The bytes are fixed at construction: the type offers no mutating method,
/// so an artifact handed to the serializer or the execution host is exactly
/// the artifact the pipeline produced.
#[derive(Debug)]
pub struct Artifact {
    bytes: Vec<u8>,
}

impl View for Artifact {
    type V = Seq<u8>;

    closed spec fn view(&self) -> Seq<u8> {
        self.bytes@
    }
}

/// Failure of a serializer operation.
#[derive(Debug)]
pub enum ArtifactError {
    /// The bytes are not a well-formed module, so no textual form exists.
    /// Carries the renderer's own description of what was wrong.
    MalformedArtifact(String),
}

impl Artifact {
    /// Wrap the bytes one pipeline run produced.
    pub fn from_bytes(bytes: Vec<u8>) -> (r: Artifact)
        ensures
            r@ == bytes@,
    {
        Artifact { bytes }
    }

    /// How many bytes the module holds.
    pub fn len(&self) -> (r: usize)
        ensures
            r == self@.len(),
    {
        self.bytes.len()
    }

    /// The persisted binary form: a no-op identity on the underlying bytes.
    pub fn to_binary(&self) -> (r: Vec<u8>)
        ensures
            r@ == self@,
    {
        let mut out: Vec<u8> = Vec::new();
        let mut i: usize = 0;
        while i < self.bytes.len()
            invariant
                i <= self.bytes.len(),
                out@ == self.bytes@.take(i as int),
            decreases self.bytes.len() - i,
        {
            out.push(self.bytes[i]);
            i = i + 1;
            proof {
                assert(out@ =~= self.bytes@.take(i as int));
            }
        }
        proof {
            assert(out@ =~= self.bytes@);
        }
        out
    }

    /// Borrow the underlying bytes, for loading the module into a runtime.
    pub fn bytes(&self) -> (r: &Vec<u8>)
        ensures
            r@ == self@,
    {
        &self.bytes
    }

    /// The textual dual form: a deterministic human-readable disassembly of
    /// the module's bytes. Bytes that are not a well-formed module are
    /// rejected as [`ArtifactError::MalformedArtifact`] — the renderer
    /// returns an error rather than panicking or hanging, so arbitrary or
    /// truncated byte sequences are safe to hand in.
    pub fn to_text(&self) -> (r: Result<String, ArtifactError>)
        ensures
            (r is Ok) <==> (wat_of(self@) is Some),
            r is Ok ==> r->Ok_0@ == wat_of(self@)->Some_0,
            r is Err ==> r->Err_0 matches ArtifactError::MalformedArtifact(_),
    {
        match print_module(&self.bytes) {
            Ok(t) => Ok(t),
            Err(m) => Err(ArtifactError::MalformedArtifact(m)),
        }
    }
}

/// The disassembly of a byte sequence, when those bytes form a well-formed
/// module: `None` exactly when they do not. Deliberately given no
/// definition — the rendering is the renderer's own — beyond being a
/// function of the bytes alone.
pub uninterp spec fn wat_of(bytes: Seq<u8>) -> Option<Seq<char>>;

/// Relies on wasmprinter::print_bytes: whether rendering succeeds, and the
/// rendered text, depend on the module's bytes alone; bytes that are not a
/// well-formed module yield an error, never a panic.
#[verifier::external_body]
fn print_module(bytes: &Vec<u8>) -> (r: Result<String, String>)
    ensures
        (r is Ok) <==> (wat_of(bytes@) is Some),
        r is Ok ==> r->Ok_0@ == wat_of(bytes@)->Some_0,
{
    wasmprinter::print_bytes(bytes).map_err(|e| format!("{}", e))
}

/// Disassembly is deterministic: two artifacts holding byte-identical
/// modules render to byte-identical text, or both fail.
pub proof fn lemma_to_text_deterministic(a: Artifact, b: Artifact)
    requires
        a@ == b@,
    ensures
        wat_of(a@) == wat_of(b@),
{
}

/// Which persisted form a target path selects.
#[derive(Clone, Copy, PartialEq, Eq, Structural, Debug)]
pub enum OutputForm {
    /// The textual disassembly, selected by a `.wat` target path.
    Text,
    /// The uninterpreted byte stream, selected by any other path.
    Binary,
}

/// The bytes of `.wat`, the extension that selects the textual form.
pub open spec fn wat_suffix() -> Seq<u8> {
    seq![46u8, 119u8, 97u8, 116u8]
}

/// The bytes of `.whi`, the extension of a source file.
pub open spec fn whi_suffix() -> Seq<u8> {
    seq![46u8, 119u8, 104u8, 105u8]
}

/// The bytes of `.wasm`, the extension of a binary module.
pub open spec fn wasm_suffix() -> Seq<u8> {
    seq![46u8, 119u8, 97u8, 115u8, 109u8]
}

/// Whether `p` ends in the bytes of `s`.
pub open spec fn spec_ends_with(p: Seq<u8>, s: Seq<u8>) -> bool {
    p.len() >= s.len() && p.skip(p.len() - s.len()) == s
}

/// The form a target path selects: text for a `.wat` path, binary otherwise.
pub open spec fn spec_output_form(path: Seq<u8>) -> OutputForm {
    if spec_ends_with(path, wat_suffix()) {
        OutputForm::Text
    } else {
        OutputForm::Binary
    }
}

/// Whether the byte string `path` ends in the byte string `suffix`.
fn ends_with(path: &Vec<u8>, suffix: &Vec<u8>) -> (r: bool)
    ensures
        r == spec_ends_with(path@, suffix@),
{
    let plen = path.len();
    let slen = suffix.len();
    if slen > plen {
        return false;
    }
    let off = plen - slen;
    let mut i: usize = 0;
    while i < slen
        invariant
            plen == path@.len(),
            slen == suffix@.len(),
            slen <= plen,
            off == plen - slen,
            0 <= i <= slen,
            forall|j: int| 0 <= j < i ==> path@[off + j] == suffix@[j],
        decreases slen - i,
    {
        if path[off + i] != suffix[i] {
            proof {
                assert(path@.skip(off as int)[i as int] != suffix@[i as int]);
            }
            return false;
        }
        i = i + 1;
    }
    proof {
        assert(path@.skip(off as int) =~= suffix@);
    }
    true
}

/// The form the given target path selects, decided by its extension.
pub fn output_form(path: &Vec<u8>) -> (r: OutputForm)
    ensures
        r == spec_output_form(path@),
{
    let wat: Vec<u8> = vec![46u8, 119u8, 97u8, 116u8];
    proof {
        assert(wat@ =~= wat_suffix());
    }
    if ends_with(path, &wat) {
        OutputForm::Text
    } else {
        OutputForm::Binary
    }
}

/// The default target path for a compiled source: a `.whi` source path with
/// its extension swapped for `.wasm`; any other path is kept as it is.
pub fn default_output_path(path: &Vec<u8>) -> (r: Vec<u8>)
    ensures
        spec_ends_with(path@, whi_suffix()) ==> r@ == path@.take(path@.len() - 4) + wasm_suffix(),
        !spec_ends_with(path@, whi_suffix()) ==> r@ == path@,
{
    let whi: Vec<u8> = vec![46u8, 119u8, 104u8, 105u8];
    proof {
        assert(whi@ =~= whi_suffix());
    }
    let swap = ends_with(path, &whi);
    let keep: usize = if swap {
        path.len() - 4
    } else {
        path.len()
    };
    let mut out: Vec<u8> = Vec::new();
    let mut i: usize = 0;
    while i < keep
        invariant
            keep <= path@.len(),
            0 <= i <= keep,
            out@ == path@.take(i as int),
        decreases keep - i,
    {
        out.push(path[i]);
        i = i + 1;
        proof {
            assert(out@ =~= path@.take(i as int));
        }
    }
    if swap {
        out.push(46u8);
        out.push(119u8);
        out.push(97u8);
        out.push(115u8);
        out.push(109u8);
        proof {
            assert(out@ =~= path@.take(path@.len() - 4) + wasm_suffix());
        }
    } else {
        proof {
            assert(out@ =~= path@);
        }
    }
    out
}

} // verus!
