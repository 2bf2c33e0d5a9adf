//! Shader programs and their entry points.  A shader is compiled by the
//! driver from its source text; the engine decides the source, the entry
//! point names, and the vertex buffer layouts the vertex stage reads.

use vstd::prelude::*;

verus! {

/// How one vertex attribute is stored.
#[derive(Clone, Copy, PartialEq, Eq, Debug)]
pub enum VertexFormat {
    Float32x2,
    Float32x3,
    Float32x4,
}

/// Whether a buffer advances per vertex or per instance.
#[derive(Clone, Copy, PartialEq, Eq, Debug)]
pub enum VertexStepMode {
    Vertex,
    Instance,
}

/// One attribute of a vertex record: where it starts in the record, which
/// shader location it feeds, and its format.
#[derive(Clone, Copy, PartialEq, Eq, Debug)]
pub struct VertexAttribute {
    pub offset: u64,
    pub shader_location: u32,
    pub format: VertexFormat,
}

/// The byte layout of one vertex buffer: record stride, step mode, and
/// the attributes inside one record.
#[derive(PartialEq, Eq, Debug)]
pub struct VertexBufferLayout {
    pub array_stride: u64,
    pub step_mode: VertexStepMode,
    pub attributes: Vec<VertexAttribute>,
}

/// A compiled GPU program: identified by the path its source was loaded
/// from, holding the source text the driver compiles.
#[derive(PartialEq, Eq, Debug)]
pub struct Shader {
    pub path: &'static str,
    pub source: String,
}

impl Shader {
    /// A shader program from its source text.  Loading the text from disk
    /// is the platform's job; a missing file is a fatal startup error
    /// before this point.
    pub fn new(path: &'static str, source: String) -> (r: Self)
        ensures
            r.path == path,
            r.source@ == source@,
    {
        Self { path, source }
    }
}

/// The vertex stage of a pipeline: which shader, which entry point, and
/// the vertex buffer layouts it reads.
#[derive(PartialEq, Eq, Debug)]
pub struct VertexState {
    pub module: &'static str,
    pub entry_point: &'static str,
    pub buffers: Vec<VertexBufferLayout>,
}

/// Builds the vertex stage of a pipeline.
pub struct VertexEntry {}

impl VertexEntry {
    pub fn new(shader: &Shader, entry_point: &'static str, desc: Vec<VertexBufferLayout>) -> (r:
        VertexState)
        ensures
            r.module == shader.path,
            r.entry_point == entry_point,
            r.buffers@ == desc@,
    {
        VertexState { module: shader.path, entry_point, buffers: desc }
    }
}

/// The fragment stage of a pipeline: which shader and which entry point.
#[derive(Clone, Copy, PartialEq, Eq, Debug)]
pub struct FragmentEntry {
    pub shader_mod: &'static str,
    pub entry_point: &'static str,
}

impl FragmentEntry {
    pub fn new(shader: &Shader, entry_point: &'static str) -> (r: Self)
        ensures
            r.shader_mod == shader.path,
            r.entry_point == entry_point,
    {
        Self { shader_mod: shader.path, entry_point }
    }
}

} // verus!
