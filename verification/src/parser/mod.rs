//! Parser-layer vocabulary: parse options and the raw function layout that
//! the parser dumps summarise.

pub mod debug;

use vstd::prelude::*;

verus! {

/// How the parser treats malformed input.
#[derive(Debug, Clone, Copy, Eq, PartialEq, Structural)]
pub enum ParseMode {
    Strict,
    Permissive,
}

/// Encoding of the string constants in the chunk.
#[derive(Debug, Clone, Copy, Eq, PartialEq, Structural)]
pub enum StringEncoding {
    Utf8,
    Gbk,
}

impl StringEncoding {
    /// Label of the encoding.
    pub open spec fn label_view(self) -> Seq<char> {
        match self {
            StringEncoding::Utf8 => "utf-8"@,
            StringEncoding::Gbk => "gbk"@,
        }
    }

    /// Label of the encoding, as written in generated comments.
    pub fn as_str(self) -> (r: &'static str)
        ensures
            r@ == self.label_view(),
    {
        match self {
            StringEncoding::Utf8 => "utf-8",
            StringEncoding::Gbk => "gbk",
        }
    }
}

/// What the parser does with string constants that fail to decode.
#[derive(Debug, Clone, Copy, Eq, PartialEq, Structural)]
pub enum StringDecodeMode {
    Strict,
    Lossy,
}

/// Options of the bytecode parser.
#[derive(Debug, Clone, Copy, Eq, PartialEq, Structural)]
pub struct ParseOptions {
    pub mode: ParseMode,
    pub string_encoding: StringEncoding,
    pub string_decode_mode: StringDecodeMode,
}

/// Source lines a function was defined on.
#[derive(Debug, Clone, Copy, Eq, PartialEq, Structural)]
pub struct ProtoLineRange {
    pub defined_start: u32,
    pub defined_end: u32,
}

/// The dialect-independent part of a parsed function.
#[derive(Debug)]
pub struct RawProtoCommon {
    pub line_range: ProtoLineRange,
    pub instructions: Vec<u32>,
    pub children: Vec<RawProto>,
}

/// A parsed function.
#[derive(Debug)]
pub struct RawProto {
    pub common: RawProtoCommon,
}

} // verus!
