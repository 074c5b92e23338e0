//! Shader compilation and program linking.
//!
//! The graphics driver itself compiles and links; this module holds the logic
//! around those calls: preparing a source string in the nul-terminated form
//! the API requires, deciding the outcome of a compile or link from the
//! status and diagnostic the driver reported, and wrapping the resulting
//! object names in owning handles.
//!
//! A host drives one shader through `begin_compile` (which validates and
//! prepares the source), hands the prepared bytes to the driver, reads back
//! the compile status and info log, and finishes with `finish_compile`.
//! Linking goes through `shader_handles` and `finish_link` in the same way.

use vstd::prelude::*;
use vstd::string::StringSliceAdditionalSpecFns;
use vstd::utf8::{encode_utf8, valid_utf8};
use crate::glutil::types::GlShaderType;

verus! {

/// An error from compiling a shader or linking a program.
#[derive(Debug)]
pub enum GlError {
    /// The source text cannot be converted to the nul-terminated
    /// representation the API requires (it holds a nul byte).
    SourceEncoding,
    /// The compiler rejected the source; carries the shader kind and the
    /// compiler's diagnostic.
    Compile { kind: GlShaderType, log: String },
    /// The linker failed; carries the linker's diagnostic.
    Link { log: String },
}

/// True when `bytes` holds a nul byte, so that no nul-terminated form of it
/// can carry the whole text.
pub open spec fn has_nul_byte(bytes: Seq<u8>) -> bool {
    exists|i: int| 0 <= i < bytes.len() && bytes[i] == 0
}

/// The nul-terminated form of a source text, as the API wants it.
pub open spec fn nul_terminated(bytes: Seq<u8>) -> Seq<u8> {
    bytes.push(0)
}

/// What a host must do with one shader source: hand the prepared bytes to
/// the compiler, or surface an error without ever reaching the compiler.
pub enum CompileStep {
    /// The source cannot be encoded; the compiler is never consulted.
    Reject(GlError),
    /// Hand exactly these nul-terminated bytes to the compiler.
    Submit(Vec<u8>),
}

/// Validate a shader source and prepare it for the compiler.
///
/// A source holding a nul byte is rejected with the source-encoding error —
/// never with a compile error, since the compiler is never consulted.
/// Any other source is passed on whole, with the terminating nul appended.
pub fn begin_compile(source: &str) -> (r: CompileStep)
    ensures
        has_nul_byte(source.spec_bytes()) ==> (r matches CompileStep::Reject(e)
            && e is SourceEncoding),
        !has_nul_byte(source.spec_bytes()) ==> (r matches CompileStep::Submit(b)
            && b@ == nul_terminated(source.spec_bytes())),
{
    let bytes = source.as_bytes();
    let mut prepared: Vec<u8> = Vec::new();
    let mut i: usize = 0;
    while i < bytes.len()
        invariant
            bytes@ == source.spec_bytes(),
            0 <= i <= bytes@.len(),
            prepared@ == bytes@.subrange(0, i as int),
            forall|j: int| 0 <= j < i ==> bytes@[j] != 0,
        decreases bytes@.len() - i,
    {
        let b = bytes[i];
        if b == 0 {
            assert(has_nul_byte(source.spec_bytes())) by {
                assert(source.spec_bytes()[i as int] == 0);
            }
            return CompileStep::Reject(GlError::SourceEncoding);
        }
        prepared.push(b);
        i += 1;
    }
    prepared.push(0);
    CompileStep::Submit(prepared)
}

/// An owning handle to a successfully compiled shader object.
///
/// A value of this type is only made by `finish_compile` reporting success,
/// so holding one witnesses a successful compile. The underlying object must
/// be deleted exactly once, by whoever takes the name out with `release`.
#[derive(Debug)]
pub struct GlShader {
    handle: u32,
    kind: GlShaderType,
}

impl GlShader {
    /// The object name the driver gave this shader.
    pub closed spec fn spec_handle(self) -> u32 {
        self.handle
    }

    /// The kind of shader that was compiled.
    pub closed spec fn spec_kind(self) -> GlShaderType {
        self.kind
    }

    /// A shader handle always names a real object: the name is non-zero.
    pub open spec fn wf(self) -> bool {
        self.spec_handle() != 0
    }

    /// The object name, for attaching the shader to a program.
    pub fn handle(&self) -> (h: u32)
        ensures
            h == self.spec_handle(),
    {
        self.handle
    }

    /// The kind of shader that was compiled.
    pub fn kind(&self) -> (k: GlShaderType)
        ensures
            k == self.spec_kind(),
    {
        self.kind
    }

    /// Give up ownership of the object name. The caller takes over the one
    /// obligation that came with it: delete the underlying object, once.
    pub fn release(self) -> (h: u32)
        ensures
            h == self.spec_handle(),
    {
        self.handle
    }
}

/// An owning handle to a successfully linked program object.
#[derive(Debug)]
pub struct GlProgram {
    handle: u32,
}

impl GlProgram {
    /// The object name the driver gave this program.
    pub closed spec fn spec_handle(self) -> u32 {
        self.handle
    }

    /// A program handle always names a real object: the name is non-zero.
    pub open spec fn wf(self) -> bool {
        self.spec_handle() != 0
    }

    /// The object name, for drawing with the program.
    pub fn handle(&self) -> (h: u32)
        ensures
            h == self.spec_handle(),
    {
        self.handle
    }

    /// Give up ownership of the object name. The caller takes over the one
    /// obligation that came with it: delete the underlying object, once.
    pub fn release(self) -> (h: u32)
        ensures
            h == self.spec_handle(),
    {
        self.handle
    }
}

/// Decide the outcome of one compile from what the driver reported: the
/// object name it allocated, whether it accepted the source, and its
/// diagnostic. On success the handle becomes an owning `GlShader`; on
/// failure the caller keeps the raw name (to delete it) and gets the
/// compile error, carrying the shader kind and the diagnostic.
pub fn finish_compile(kind: GlShaderType, handle: u32, compile_ok: bool, log: String) -> (r:
    Result<GlShader, GlError>)
    requires
        handle != 0,
    ensures
        compile_ok ==> (r matches Ok(s)
            && s.spec_handle() == handle
            && s.spec_kind() == kind
            && s.wf()),
        !compile_ok ==> (r matches Err(e)
            && (e matches GlError::Compile { kind: k, log: l }
                && k == kind
                && l == log)),
{
    if compile_ok {
        Ok(GlShader { handle, kind })
    } else {
        Err(GlError::Compile { kind, log })
    }
}

/// The object names to attach to a program: one for each compiled shader,
/// in the order given. Only `GlShader` values — witnesses of successful
/// compiles — can appear here, so a failed compile can never reach a link.
pub fn shader_handles(shaders: &Vec<GlShader>) -> (r: Vec<u32>)
    ensures
        r@.len() == shaders@.len(),
        forall|i: int| 0 <= i < shaders@.len() ==> r@[i] == shaders@[i].spec_handle(),
{
    let mut handles: Vec<u32> = Vec::new();
    let mut i: usize = 0;
    while i < shaders.len()
        invariant
            0 <= i <= shaders@.len(),
            handles@.len() == i,
            forall|j: int| 0 <= j < i ==> handles@[j] == shaders@[j].spec_handle(),
        decreases shaders@.len() - i,
    {
        handles.push(shaders[i].handle());
        i += 1;
    }
    handles
}

/// Decide the outcome of one link from what the driver reported. On success
/// the handle becomes an owning `GlProgram`; on failure the caller keeps the
/// raw name and gets the link error carrying the diagnostic.
pub fn finish_link(handle: u32, link_ok: bool, log: String) -> (r: Result<GlProgram, GlError>)
    requires
        handle != 0,
    ensures
        link_ok ==> (r matches Ok(p) && p.spec_handle() == handle && p.wf()),
        !link_ok ==> (r matches Err(e) && (e matches GlError::Link { log: l } && l == log)),
{
    if link_ok {
        Ok(GlProgram { handle })
    } else {
        Err(GlError::Link { log })
    }
}

/// The diagnostic text inside a raw info-log buffer: everything before the
/// first nul byte (the API writes a nul-terminated string into the buffer).
pub open spec fn log_text(bytes: Seq<u8>) -> Seq<u8> {
    if has_nul_byte(bytes) {
        bytes.subrange(0, first_nul(bytes))
    } else {
        bytes
    }
}

/// The index of the first nul byte of a sequence that has one.
pub open spec fn first_nul(bytes: Seq<u8>) -> int
    recommends
        has_nul_byte(bytes),
{
    choose|i: int| 0 <= i < bytes.len() && bytes[i] == 0 && (forall|j: int|
        0 <= j < i ==> bytes[j] != 0)
}

/// Relies on `String::from_utf8_lossy`: a byte slice that is valid UTF-8
/// comes back as exactly that text; any other slice still comes back as
/// some text, with the invalid sequences replaced.
#[verifier::external_body]
fn utf8_lossy(bytes: &[u8]) -> (s: String)
    ensures
        valid_utf8(bytes@) ==> encode_utf8(s@) == bytes@,
{
    String::from_utf8_lossy(bytes).into_owned()
}

/// Convert a raw info-log buffer, as the driver fills it — the diagnostic
/// bytes followed by a terminating nul — into the diagnostic string.
pub fn info_log_to_string(bytes: &[u8]) -> (s: String)
    ensures
        valid_utf8(log_text(bytes@)) ==> encode_utf8(s@) == log_text(bytes@),
{
    let mut text: Vec<u8> = Vec::new();
    let mut i: usize = 0;
    while i < bytes.len()
        invariant
            0 <= i <= bytes@.len(),
            text@ == bytes@.subrange(0, i as int),
            forall|j: int| 0 <= j < i ==> bytes@[j] != 0,
        decreases bytes@.len() - i,
    {
        let b = bytes[i];
        if b == 0 {
            proof {
                lemma_first_nul_is(bytes@, i as int);
            }
            return utf8_lossy(text.as_slice());
        }
        text.push(b);
        i += 1;
    }
    assert(!has_nul_byte(bytes@));
    assert(text@ == bytes@);
    utf8_lossy(text.as_slice())
}

/// When position `i` holds a nul byte and nothing before it does, `i` is
/// the first nul, and the log text is everything before it.
proof fn lemma_first_nul_is(bytes: Seq<u8>, i: int)
    requires
        0 <= i < bytes.len(),
        bytes[i] == 0,
        forall|j: int| 0 <= j < i ==> bytes[j] != 0,
    ensures
        has_nul_byte(bytes),
        first_nul(bytes) == i,
        log_text(bytes) == bytes.subrange(0, i),
{
    assert(has_nul_byte(bytes));
    let k = first_nul(bytes);
    assert(0 <= k < bytes.len() && bytes[k] == 0 && (forall|j: int| 0 <= j < k ==> bytes[j] != 0))
        by {
        assert(0 <= i < bytes.len() && bytes[i] == 0 && (forall|j: int|
            0 <= j < i ==> bytes[j] != 0));
    }
    if k < i {
        assert(bytes[k] != 0);
    }
    if i < k {
        assert(bytes[i] != 0);
    }
}

} // verus!
