//! Summary rows of the parser dumps.

use vstd::prelude::*;
use crate::debug::{DebugColorMode, DebugDetail, DebugFilters, ProtoSummaryRow};
use crate::decompile::backend::DecompileBackend;
use crate::decompile::options::DecompileDialect;
use super::RawProto;

verus! {

/// Dump of a parsed chunk, rendered by the dump of the dialect its header
/// names (not the dialect the caller asked for).
pub fn dump_parser_chunk<B: DecompileBackend>(
    backend: &B,
    chunk: &B::RawChunk,
    detail: DebugDetail,
    filters: &DebugFilters,
    color: DebugColorMode,
) -> (r: String)
    ensures
        backend.dumps_chunk(backend.recorded_dialect(*chunk), *chunk, detail, *filters, color, r@),
{
    match backend.chunk_dialect(chunk) {
        DecompileDialect::Lua51 => backend.dump_lua51_chunk(chunk, detail, filters, color),
        DecompileDialect::Lua52 => backend.dump_lua52_chunk(chunk, detail, filters, color),
        DecompileDialect::Lua53 => backend.dump_lua53_chunk(chunk, detail, filters, color),
        DecompileDialect::Lua54 => backend.dump_lua54_chunk(chunk, detail, filters, color),
        DecompileDialect::Lua55 => backend.dump_lua55_chunk(chunk, detail, filters, color),
        DecompileDialect::Luajit => backend.dump_luajit_chunk(chunk, detail, filters, color),
        DecompileDialect::Luau => backend.dump_luau_chunk(chunk, detail, filters, color),
    }
}

/// A parsed function together with where it sits in the function tree.
#[derive(Debug, Clone, Copy)]
pub struct ParserProtoEntry<'a> {
    pub id: usize,
    pub parent: Option<usize>,
    pub depth: usize,
    pub proto: &'a RawProto,
}

/// The elided row of a parsed function: the parser knows no function names,
/// so a row shows only its lines, instruction count and child count.
pub fn build_parser_summary_row(entry: &ParserProtoEntry<'_>) -> (r: ProtoSummaryRow)
    ensures
        r.id == entry.id,
        r.depth_below_focus == entry.depth,
        r.name is None,
        r.first is None,
        r.lines == Some(
            (entry.proto.common.line_range.defined_start, entry.proto.common.line_range.defined_end),
        ),
        r.instrs == Some(entry.proto.common.instructions@.len() as usize),
        r.children == Some(entry.proto.common.children@.len() as usize),
{
    ProtoSummaryRow {
        id: entry.id,
        depth_below_focus: entry.depth,
        name: None,
        first: None,
        lines: Some(
            (entry.proto.common.line_range.defined_start, entry.proto.common.line_range.defined_end),
        ),
        instrs: Some(entry.proto.common.instructions.len()),
        children: Some(entry.proto.common.children.len()),
    }
}

} // verus!
