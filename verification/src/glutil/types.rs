//! Type-safe wrappers over some of OpenGL's enum types.
//!
//! This makes it less likely to input a wrong value in OpenGL APIs when a
//! bare `GLenum` (a `u32`) is expected.

use vstd::prelude::*;

verus! {

/// The `GLenum` value of `GL_VERTEX_SHADER`.
pub const GL_VERTEX_SHADER: u32 = 0x8B31;

/// The `GLenum` value of `GL_FRAGMENT_SHADER`.
pub const GL_FRAGMENT_SHADER: u32 = 0x8B30;

/// The `GLenum` value of `GL_STATIC_DRAW`.
pub const GL_STATIC_DRAW: u32 = 0x88E4;

/// The `GLenum` value of `GL_STREAM_DRAW`.
pub const GL_STREAM_DRAW: u32 = 0x88E0;

/// Type-safe wrapper over `GLenum` which can only represent valid shader types.
#[derive(Copy, Clone, Debug, Eq, PartialEq, Structural)]
pub enum GlShaderType {
    Vertex,
    Fragment,
}

impl GlShaderType {
    /// The `GLenum` value that names this shader type.
    pub open spec fn spec_value(self) -> u32 {
        match self {
            GlShaderType::Vertex => GL_VERTEX_SHADER,
            GlShaderType::Fragment => GL_FRAGMENT_SHADER,
        }
    }

    /// Convert to the underlying `GLenum` value.
    pub fn value(&self) -> (v: u32)
        ensures
            v == self.spec_value(),
    {
        match self {
            GlShaderType::Vertex => GL_VERTEX_SHADER,
            GlShaderType::Fragment => GL_FRAGMENT_SHADER,
        }
    }

    /// The lower-case name of this shader type, as it appears in diagnostics.
    pub open spec fn spec_label(self) -> Seq<char> {
        match self {
            GlShaderType::Vertex => "vertex"@,
            GlShaderType::Fragment => "fragment"@,
        }
    }

    /// The lower-case name of this shader type, for use in diagnostics.
    pub fn label(&self) -> (s: &'static str)
        ensures
            s@ == self.spec_label(),
    {
        match self {
            GlShaderType::Vertex => "vertex",
            GlShaderType::Fragment => "fragment",
        }
    }
}

/// Type-safe wrapper over `GLenum` which can only represent valid buffer usage modes.
#[derive(Copy, Clone, Debug, Eq, PartialEq, Structural)]
pub enum GlBufUsage {
    /// Data is uploaded once and drawn many times.
    StaticDraw,
    /// Data is expected to be rewritten frequently.
    StreamDraw,
}

impl GlBufUsage {
    /// The `GLenum` value that names this usage hint.
    pub open spec fn spec_value(self) -> u32 {
        match self {
            GlBufUsage::StaticDraw => GL_STATIC_DRAW,
            GlBufUsage::StreamDraw => GL_STREAM_DRAW,
        }
    }

    /// Convert to the underlying `GLenum` value.
    pub fn value(&self) -> (v: u32)
        ensures
            v == self.spec_value(),
    {
        match self {
            GlBufUsage::StaticDraw => GL_STATIC_DRAW,
            GlBufUsage::StreamDraw => GL_STREAM_DRAW,
        }
    }
}

} // verus!
