//! A small library around windowed OpenGL rendering: compiling shaders,
//! linking programs, sizing vertex buffers, and an application shell that
//! turns window events into callback dispatches and presentation steps.
//!
//! The graphics driver and the windowing system are outside collaborators: a
//! host owns the window, the rendering context and the event loop, and makes
//! every graphics call. This crate holds the logic between those calls —
//! source validation, outcome decisions, owning handles, and the event state
//! machine — and states it in contracts.

pub mod app;
pub mod glutil;

pub use app::GlApp;
pub use app::GlAppDelegate;
pub use app::PostAction;
pub use app::ShellState;
pub use app::WindowEvent;
pub use glutil::shader::CompileStep;
pub use glutil::shader::GlError;
pub use glutil::shader::GlProgram;
pub use glutil::shader::GlShader;
pub use glutil::types::GlBufUsage;
pub use glutil::types::GlShaderType;
