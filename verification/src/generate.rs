//! Options and comment metadata of the code generator.

use vstd::prelude::*;
use crate::parser::ProtoLineRange;

verus! {

/// Whether the generator refuses constructs the requested dialect lacks.
#[derive(Debug, Clone, Copy, Eq, PartialEq, Structural)]
pub enum GenerateMode {
    Strict,
    Permissive,
}

/// Options of the code generator.
#[derive(Debug, Clone, Copy, Eq, PartialEq, Structural)]
pub struct GenerateOptions {
    pub mode: GenerateMode,
    /// Whether to emit comments describing the source functions.
    pub comment: bool,
}

impl Default for GenerateOptions {
    fn default() -> (r: Self)
        ensures
            r == (GenerateOptions { mode: GenerateMode::Strict, comment: false }),
    {
        GenerateOptions { mode: GenerateMode::Strict, comment: false }
    }
}

/// Shape of a function's parameter list.
#[derive(Debug, Clone, Copy, Eq, PartialEq, Structural)]
pub struct ProtoSignature {
    pub num_params: u8,
    pub is_vararg: bool,
}

/// Comment metadata of the whole chunk.
#[derive(Debug, Clone, Eq, PartialEq)]
pub struct GenerateChunkCommentMetadata {
    pub file_name: Option<String>,
    pub encoding: String,
}

/// Comment metadata of one function.
#[derive(Debug, Clone, Eq, PartialEq)]
pub struct GenerateFunctionCommentMetadata {
    pub function: usize,
    pub source: Option<String>,
    pub line_range: ProtoLineRange,
    pub signature: ProtoSignature,
    pub local_count: usize,
    pub upvalue_count: usize,
}

/// Everything the generator needs to write descriptive comments.
#[derive(Debug, Clone, Eq, PartialEq)]
pub struct GenerateCommentMetadata {
    pub chunk: GenerateChunkCommentMetadata,
    pub functions: Vec<GenerateFunctionCommentMetadata>,
}

} // verus!
